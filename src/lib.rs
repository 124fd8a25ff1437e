//! Verified core of a TLS interoperability harness: the scenario catalogue,
//! outcome classification, the bounded scheduler, the result table and the
//! application protocol that each pair of TLS peers runs.

pub mod scenario;
pub mod catalogue;
pub mod outcome;
pub mod scheduler;
pub mod results;
pub mod bytes;
pub mod protocol;
pub mod backends;
pub mod pem;
