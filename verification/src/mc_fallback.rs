//! A markup-compatibility fallback placeholder: present in the model,
//! rendering nothing at all.

use crate::build_xml::BuildXML;
use vstd::prelude::*;

verus! {

/// The fallback placeholder element.
#[derive(Debug, Clone, PartialEq)]
pub struct McFallback {}

impl McFallback {
    /// The fallback placeholder.
    pub fn new() -> (r: Self)
        ensures
            r == (McFallback {  }),
    {
        Default::default()
    }
}

impl Default for McFallback {
    /// The fallback placeholder.
    fn default() -> (r: Self)
        ensures
            r == (McFallback {  }),
    {
        McFallback {  }
    }
}

impl BuildXML for McFallback {
    /// A fallback renders no characters at all.
    open spec fn spec_xml(&self) -> Seq<char> {
        Seq::<char>::empty()
    }

    fn build_string(&self) -> (r: String) {
        String::new()
    }
}

} // verus!
