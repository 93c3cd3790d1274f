//! Random bytes from the operating system's secure generator.

use rand::{OsRng, Rng};
use vstd::prelude::*;

verus! {

/// The operating system's generator, as the `rand` crate hands it out.
#[verifier::external_type_specification]
#[verifier::external_body]
pub struct ExOsRng(OsRng);

/// Opens the operating system's secure generator.
///
/// Trusted: the body calls `OsRng::new` of the `rand` crate. Where the
/// system has no such generator the call fails and this function does not
/// return: it ends the thread with a panic, so that no caller can go on
/// with a weaker source of randomness.
#[verifier::external_body]
pub(crate) fn secure_generator() -> OsRng {
    OsRng::new().expect("the system has no secure random number generator")
}

/// Draws `count` bytes from `generator`.
///
/// Trusted: the body calls `gen_iter` of the `rand` crate's trait `Rng`,
/// which never runs dry, and takes its first `count` items. The contract
/// claims their number and nothing of their values.
#[verifier::external_body]
pub(crate) fn random_bytes(generator: &mut OsRng, count: usize) -> (bytes: Vec<u8>)
    ensures
        bytes@.len() == count,
{
    generator.gen_iter::<u8>().take(count).collect()
}

} // verus!
