use vstd::prelude::*;

verus! {

/// The ways in which building an album can fail inside the library.
#[derive(Debug, Clone)]
pub enum BuildError {
    /// A photo's file name has no usable stem to derive a slug from.
    InvalidName { name: String },
    /// Two photos of the album have the same slug, so their outputs would
    /// share a directory.
    DuplicateSlug { slug: String },
    /// One or more thumbnail jobs failed; `failed` of `dispatched` jobs.
    AggregatedJobFailure { failed: usize, dispatched: usize },
}

impl BuildError {
    /// A short human-readable description of the error.
    pub fn message(&self) -> (r: String) {
        match self {
            BuildError::InvalidName { name } => {
                let mut m = String::from_str("invalid-looking photo name: ");
                m.append(name.as_str());
                m
            },
            BuildError::DuplicateSlug { slug } => {
                let mut m = String::from_str("two photos share the slug: ");
                m.append(slug.as_str());
                m
            },
            BuildError::AggregatedJobFailure { .. } => {
                String::from_str("one or more thumbnailing tasks failed")
            },
        }
    }
}

} // verus!
