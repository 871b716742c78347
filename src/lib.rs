//! Translation of untyped JSON requests into typed document-store operations:
//! the content and collection guards every request passes, the request
//! schemas with their filter, payload and option translation, and what each
//! endpoint decides before and after the store is called.
pub mod bridge;
pub mod collection;
pub mod documents;
pub mod error;
pub mod handlers;
pub mod headers;
pub mod options;
pub mod requests;
pub mod traits;
