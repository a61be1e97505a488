//! Object-key derivation for a multi-tenant gateway in front of an S3-compatible
//! object store, with the per-request decisions of the gateway around it.
//!
//! A request names an object by loosely typed identifiers (client, scope, container,
//! table row, column, file name). `key` validates them and derives the canonical,
//! sanitized, case-folded key or listing prefix; `gateway` decides the one storage
//! call that a request needs and the reply to its outcome; `listing` shapes what the
//! store reports of listed objects.

pub mod gateway;
pub mod key;
pub mod laws;
pub mod listing;
pub mod text;

pub use gateway::{
    begin, finish_listing, finish_removal, finish_signing, GatewayRequest, Reply, SignMethod,
    SignedAnswer, Step, StorageCall,
};
pub use key::{get_valid_file_name, get_valid_path, ContainerType, IdentifierSet, KeyError};
pub use listing::{ObjectEntry, PresignedObject, Resource, ResourceResponse, Timestamp};
pub use text::{get_valid_file_path, get_valid_path_name};
