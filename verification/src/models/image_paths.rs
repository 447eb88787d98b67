//! The set of known image paths.

use vstd::prelude::*;

verus! {

/// The paths of the images the library knows of.
#[derive(Debug)]
pub struct ImagePaths(pub Vec<String>);

} // verus!
