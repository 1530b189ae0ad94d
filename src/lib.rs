//! Client-side core of a records-and-auth HTTP backend: the session token
//! lifecycle, request addresses and query strings, batch envelopes and the
//! error taxonomy. Transport is left to the caller, which performs each
//! request that the library describes and hands the reply back.

pub mod error;
pub mod token;
pub mod session;
pub mod text;
pub mod names;
pub mod options;
pub mod json;
pub mod collection;
pub mod files;
pub mod form;
pub mod batch;
pub mod response;

pub use error::{Error, FieldError};
pub use token::{Claims, Token};
pub use session::{AuthResult, AuthStep, PocketBase, RefreshRequest};
pub use batch::{BatchBuilder, BatchCollectionBuilder, BatchRequest, BatchResult};
pub use collection::CollectionBuilder;
pub use files::{File, FilesBuilder};
pub use form::FieldValue;
pub use response::{Health, Paginated, PocketBaseError};
pub use options::{CreateOptions, ListOptions, UpdateOptions, ViewOptions};
