//! Loaders for configuration types. A type that is annotated with the path
//! of a YAML document gets, when the program is built, an error type and an
//! implementation of [`AppPropertiesExt`] whose `load` reads that document.
//! This library decides which annotated declarations get a loader, and
//! writes the loader's source.

pub mod declaration;
pub mod descriptor;
pub mod extract;
pub mod generate;
pub mod report;
pub mod text;

pub use crate::declaration::{Annotation, Argument, Body, Declaration, Item, Shape};
pub use crate::descriptor::Descriptor;
pub use crate::extract::{extract, ExtractError, Rejection};
pub use crate::generate::{generate, store};

use vstd::prelude::*;

verus! {

/// A configuration type that can be loaded from the document attached to it.
pub trait AppPropertiesExt: Sized {
    /// What a failed load reports.
    type Error;

    /// Loads the configuration value.
    fn load() -> Result<Self, Self::Error>;
}

} // verus!
