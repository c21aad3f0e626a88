//! The revert store: the bitmap that the latest optimization replaced.

use crate::raster::{Raster, RawImage};
use vstd::prelude::*;

verus! {

/// At most one original image, kept in memory for the life of the process.
/// Storing replaces what was stored; nothing else removes it, so a revert can
/// be repeated.
#[derive(Debug, PartialEq, Eq)]
pub struct RevertState {
    original: Option<RawImage>,
}

impl View for RevertState {
    type V = Option<Raster>;

    closed spec fn view(&self) -> Option<Raster> {
        match self.original {
            Some(image) => Some(image@),
            None => None,
        }
    }
}

impl RevertState {
    /// A store that holds nothing.
    pub fn new() -> (store: RevertState)
        ensures
            store@ is None,
    {
        RevertState { original: None }
    }

    /// Keeps `original` in place of whatever was stored.
    pub fn store(&mut self, original: RawImage)
        ensures
            final(self)@ == Some(original@),
    {
        self.original = Some(original);
    }

    /// The stored original, if there is one.
    pub fn original(&self) -> (stored: Option<&RawImage>)
        ensures
            match stored {
                Some(image) => self@ == Some(image@),
                None => self@ is None,
            },
    {
        self.original.as_ref()
    }
}

} // verus!
