//! Registration of custom URL schemes and dispatch of incoming URLs to the
//! command registered for their host.
pub mod dispatch;
pub mod keys;
pub mod laws;
pub mod placeholder;
pub mod registration;
pub mod store;
pub mod table;
