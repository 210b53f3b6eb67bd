//! Functions exposed to the Python layer.

pub mod urls;
