//! Input-simulation requests for a host application: integer and string
//! selectors chosen by the host are turned into typed requests (move the
//! pointer, press a button, type text, press a key, scroll). The platform
//! layer carries each request out.
pub mod actions;
pub mod keys;
pub mod selectors;
