//! A factory actor: it creates child programs on demand, keeps track of who had
//! which program created under which identifier, and lets its admins change its
//! configuration.

pub mod io;
pub mod model;
pub mod tables;
pub mod factory;
pub mod laws;
