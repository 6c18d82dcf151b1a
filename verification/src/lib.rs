//! Font families of a directory of font files, for Android and Jetpack
//! Compose: which files are fonts, what they are renamed to, which family,
//! weight and style each one has, and the declarations that name them.

pub mod codegen;
pub mod error;
pub mod face;
pub mod family;
pub mod filename;
pub mod scan;
pub mod session;
mod text;
pub mod variant;
