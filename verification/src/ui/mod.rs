//! What the interface shows: labels, page counts, error messages and copy in
//! Chinese, English and Japanese.
pub mod labels;
pub mod copy;
pub mod errors;
