//! Live order-book synchronisation and a shared market registry for
//! cryptocurrency exchanges: the book model, its top-of-book view, the
//! streaming session controller, the wire messages and the registry.
pub mod exchanges;
pub mod registry;
pub mod session;
pub mod json;
pub mod protocol;
pub mod metadata;
pub mod book;
pub mod decimal;
