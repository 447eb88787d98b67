//! Text recognised in images.

use vstd::prelude::*;

use crate::text::str_eq;

verus! {

/// The text recognised in the image at `image_path`.
#[derive(Clone, Debug)]
pub struct ImageOcrText {
    pub image_path: String,
    pub ocr_text: String,
}

/// The value of the column `f` of `t`.
pub open spec fn ocr_text_field(t: ImageOcrText, f: Seq<char>) -> Option<Seq<char>> {
    if f == "image_path"@ {
        Some(t.image_path@)
    } else if f == "ocr_text"@ {
        Some(t.ocr_text@)
    } else {
        None
    }
}

impl ImageOcrText {
    /// The value of the column `field`: the image path or the text.
    pub fn get_field(&self, field: &str) -> (r: Option<String>)
        ensures
            crate::text::opt_view(r) == ocr_text_field(*self, field@),
    {
        if str_eq(field, "image_path") {
            Some(self.image_path.clone())
        } else if str_eq(field, "ocr_text") {
            Some(self.ocr_text.clone())
        } else {
            None
        }
    }

    /// `ocr_text: ` and the text as `{:?}` writes it, followed by `, `.
    pub fn to_string(&self) -> (r: String)
        ensures
            r@ == "ocr_text: "@ + crate::text::debug_text_of(self.ocr_text@) + ", "@,
    {
        let quoted = crate::text::debug_text(self.ocr_text.as_str());
        crate::text::concat3("ocr_text: ", quoted.as_str(), ", ")
    }
}

} // verus!
