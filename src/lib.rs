//! Connection bootstrapping for a ledger session client: region and endpoint
//! resolution, credential-result mapping, credential-source selection and the
//! session health-check protocol.

pub mod credentials;
pub mod health;
pub mod region;
