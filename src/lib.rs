//! Release preparation for a validator test cluster: deciding how validator
//! binaries and their version stamp reach a known directory, by a local
//! build, by fetching a release archive, or by leaving what is there.

pub mod deploy_method;
pub mod text;
pub mod version;
pub mod repository;
pub mod release;
pub mod session;
pub mod laws;
pub mod environment;
