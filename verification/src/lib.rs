//! Request context of the deployment engine: who the request is for, where it
//! runs, which optional behaviours it asks for, and how a test run derives a
//! fresh execution from an existing one.
pub mod io_models;
