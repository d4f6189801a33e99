//! Request routing, access rules, credential handling and object metadata
//! for a small S3-like storage service and its companion account services.

pub mod text;
pub mod s3;
pub mod headers;
pub mod error;
pub mod permissions;
pub mod objects;
pub mod rws_s3;
pub mod entra;
pub mod sso;
pub mod passwords;
pub mod accounts;
pub mod session;
pub mod schema;
