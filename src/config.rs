use vstd::prelude::*;

use crate::error::BuildError;
use crate::slug::{file_stem, slug_of, slugify_text, stem_of};

verus! {

/// An album as described by its manifest.
#[derive(Debug, Clone)]
pub struct Album {
    /// The directory that holds the album's images.
    pub path: String,
    pub title: String,
    pub desc: String,
    pub javascript: bool,
    /// The photos, in navigation order.
    pub photos: Vec<Photo>,
}

/// One photo of an album's manifest.
#[derive(Debug, Clone)]
pub struct Photo {
    pub name: String,
    pub desc: Option<String>,
}

/// Whether a file name yields a usable stem.
pub open spec fn has_stem(name: Seq<char>) -> bool {
    stem_of(name).len() > 0
}

/// The slug of a photo with the given file name, when it has a stem.
pub open spec fn photo_slug(name: Seq<char>) -> Seq<char> {
    slug_of(stem_of(name))
}

impl Photo {
    /// The photo's slug, derived from the stem of its file name.
    pub fn slugify(&self) -> (r: Result<String, BuildError>)
        ensures
            match r {
                Ok(s) => has_stem(self.name@) && s@ == photo_slug(self.name@),
                Err(e) => !has_stem(self.name@) && (e matches BuildError::InvalidName { name }
                    && name@ == self.name@),
            },
    {
        let stem = file_stem(self.name.as_str());
        if stem.unicode_len() == 0 {
            Err(BuildError::InvalidName { name: self.name.clone() })
        } else {
            Ok(slugify_text(stem))
        }
    }
}

} // verus!
