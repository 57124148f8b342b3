//! The interface kinds that the engine knows.
pub mod home;
