//! A checked surface over a compiler backend's module: the encoding of every
//! name that crosses into the backend, the translation of linkage kinds, the
//! non-null handle that a module owns, and the reading of each answer and
//! status that the backend hands back.

pub mod c_string;
pub mod linkage;
pub mod module;
