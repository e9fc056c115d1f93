//! A checked layer over a PDF engine that is reached through opaque handles.
//!
//! The engine itself (parsing, filters, serialization) is driven by the
//! embedding program; this crate holds the decisions taken around every
//! engine call: how status codes become errors, how engine enumerations map
//! to the crate's types, which documents must be kept alive, which indices are
//! in bounds, and which writer settings are committed, in which order.
pub mod array;
pub mod error;
pub mod foreign;
pub mod object;
pub mod stream;
pub mod writer;

pub use array::ArrayCursor;
pub use error::{QPdfError, QPdfErrorCode};
pub use foreign::ForeignDocuments;
pub use object::QPdfObjectType;
pub use stream::{ObjectStreamMode, QPdfStreamData, StreamDataMode, StreamDecodeLevel};
pub use writer::{
    EncryptionArguments, EncryptionParams, EncryptionParamsR2, EncryptionParamsR3, EncryptionParamsR4,
    EncryptionParamsR6, PrintPermission,
};
