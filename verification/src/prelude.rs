//! Commonly used types.

pub use crate::index::{Index, UniquenessError};
pub use crate::refresh_policy::{refresh_index_system, IndexRefreshPolicy};
pub use crate::storage::{ComponentRecord, HashmapStorage, HashmapStorageRefreshData, NoStorage};
