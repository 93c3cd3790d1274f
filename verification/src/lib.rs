//! Building blocks of a web framework: decoded HTTP values and the contract
//! between the session middleware and the storage that backs it.

pub mod http;
pub mod middleware;
