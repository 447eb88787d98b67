//! XMP metadata extracted from images.

use vstd::prelude::*;

use crate::text::str_eq;

verus! {

/// The XMP packet of the image at `image_path`.
#[derive(Clone, Debug)]
pub struct ImageXmp {
    pub image_path: String,
    pub xmp: String,
}

/// The value of the column `f` of `x`.
pub open spec fn xmp_field(x: ImageXmp, f: Seq<char>) -> Option<Seq<char>> {
    if f == "image_path"@ {
        Some(x.image_path@)
    } else if f == "xmp"@ {
        Some(x.xmp@)
    } else {
        None
    }
}

impl ImageXmp {
    /// The value of the column `field`: the image path or the XMP data.
    pub fn get_field(&self, field: &str) -> (r: Option<String>)
        ensures
            crate::text::opt_view(r) == xmp_field(*self, field@),
    {
        if str_eq(field, "image_path") {
            Some(self.image_path.clone())
        } else if str_eq(field, "xmp") {
            Some(self.xmp.clone())
        } else {
            None
        }
    }

    /// `xmp: ` followed by the XMP data.
    pub fn to_string(&self) -> (r: String)
        ensures
            r@ == "xmp: "@ + self.xmp@,
    {
        crate::text::concat2("xmp: ", self.xmp.as_str())
    }
}

} // verus!
