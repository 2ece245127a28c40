pub mod bulk;
pub mod get;
