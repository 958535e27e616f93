//! The object-storage side of the control plane: the bucket and token
//! resource kinds reconciled against the storage administrative API.
pub mod bucket;
pub mod token;
