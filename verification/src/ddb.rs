//! The single-table storage layer: records, keys, cursors and the encoding of
//! the entities.

pub mod codec;
pub mod contract;
pub mod index;
pub mod key;
pub mod paging;
pub mod query;
pub mod record;
pub mod token;

pub use codec::{DecodeError, Field, MustPresent};
pub use crate::domain::time::ParseFromRfc3339;
pub use paging::{EncodableAttributeValue, PagingKey};
pub use query::{
    Condition, EntityWithCursor, condition_contains, condition_eq, condition_sk_type,
    condition_start_from,
};
pub use crate::pagination::Cursor;
pub use key::{KeyError, PrimaryKey};
pub use record::{Attribute, AttributeValue, Record, Scalar};
