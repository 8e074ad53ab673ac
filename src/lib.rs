//! Request routing for a server that hands out a single-page application:
//! static assets from an in-memory store, a small JSON document with the
//! runtime settings, and the entry document for every application route.
pub mod assets;
pub mod response;
pub mod router;
pub mod settings;
