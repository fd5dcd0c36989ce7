//! Keys under which loaded resources are kept.

use vstd::prelude::*;

verus! {

/// Names a font at a size.
#[derive(PartialEq, Eq, Hash)]
pub struct FontDetails {
    pub path: String,
    pub size: u16,
}

impl View for FontDetails {
    type V = (Seq<char>, u16);

    /// The path, character by character, and the size.
    open spec fn view(&self) -> (Seq<char>, u16) {
        (self.path@, self.size)
    }
}

impl<'a> From<&'a FontDetails> for FontDetails {
    /// A copy of `details`: the same path and the same size.
    fn from(details: &'a FontDetails) -> (copy: FontDetails) {
        FontDetails { path: details.path.clone(), size: details.size }
    }
}

impl<'a> vstd::std_specs::convert::FromSpecImpl<&'a FontDetails> for FontDetails {
    open spec fn obeys_from_spec() -> bool {
        true
    }

    /// The copy equals what it was made from.
    open spec fn from_spec(details: &'a FontDetails) -> FontDetails {
        *details
    }
}

} // verus!
