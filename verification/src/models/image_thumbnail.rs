//! Small encoded previews of images.

use vstd::prelude::*;

use crate::text::{concat2, decimal_digits, format_u64, joined, str_eq};

verus! {

/// The encoding of a thumbnail's data.
#[allow(non_camel_case_types)]
#[derive(Clone, Copy, Debug, PartialEq, Eq, Structural)]
pub enum ThumbnailFormat {
    PNG,
    JPG,
    BMP,
    RAW_rgb8,
}

/// The number that stands for `f` in the database: 0 to 3 in declaration order.
pub open spec fn format_code(f: ThumbnailFormat) -> u8 {
    match f {
        ThumbnailFormat::PNG => 0,
        ThumbnailFormat::JPG => 1,
        ThumbnailFormat::BMP => 2,
        ThumbnailFormat::RAW_rgb8 => 3,
    }
}

impl ThumbnailFormat {
    /// The format numbered `value`; any number above 3 is an error of kind
    /// `InvalidData`.
    pub fn try_from(value: u8) -> (r: std::io::Result<ThumbnailFormat>)
        ensures
            match r {
                Ok(f) => value <= 3 && format_code(f) == value,
                Err(_) => value > 3,
            },
    {
        match value {
            0 => Ok(ThumbnailFormat::PNG),
            1 => Ok(ThumbnailFormat::JPG),
            2 => Ok(ThumbnailFormat::BMP),
            3 => Ok(ThumbnailFormat::RAW_rgb8),
            _ => Err(crate::io_error::invalid_data()),
        }
    }

    /// The number of this format; every format has one.
    pub fn try_into(&self) -> (r: std::io::Result<u8>)
        ensures
            r matches Ok(v) && v == format_code(*self),
    {
        match self {
            ThumbnailFormat::PNG => Ok(0),
            ThumbnailFormat::JPG => Ok(1),
            ThumbnailFormat::BMP => Ok(2),
            ThumbnailFormat::RAW_rgb8 => Ok(3),
        }
    }

    /// The number of this format in decimal.
    pub fn to_string(&self) -> (r: String)
        ensures
            r@ == decimal_digits(format_code(*self) as nat),
    {
        let v: u8 = match self.try_into() {
            Ok(v) => v,
            Err(_) => 0,
        };
        format_u64(v as u64)
    }
}

/// A thumbnail of the image at `image_path`: a square of side `width_and_length`
/// encoded in `thumbnail_format`.
#[derive(Clone, Debug)]
pub struct ImageThumbnail {
    pub image_path: String,
    pub width_and_length: u32,
    pub thumbnail_format: ThumbnailFormat,
    pub thumbnail_data: Vec<u8>,
}

/// The value of the column `c` of `t` as text (the data is not text and has none).
pub open spec fn thumbnail_field(t: ImageThumbnail, c: Seq<char>) -> Option<Seq<char>> {
    if c == "image_path"@ {
        Some(t.image_path@)
    } else if c == "width_and_length"@ {
        Some(decimal_digits(t.width_and_length as nat))
    } else if c == "thumbnail_format"@ {
        Some(decimal_digits(format_code(t.thumbnail_format) as nat))
    } else {
        None
    }
}

/// `width_and_length: {side}, thumbnail_format: {format number}`.
pub open spec fn thumbnail_text(t: ImageThumbnail) -> Seq<char> {
    "width_and_length: "@ + decimal_digits(t.width_and_length as nat) + ", thumbnail_format: "@
        + decimal_digits(format_code(t.thumbnail_format) as nat)
}

impl ImageThumbnail {
    /// A thumbnail from its parts.
    pub fn new(
        image_path: String,
        width_and_length: u32,
        thumbnail_format: ThumbnailFormat,
        thumbnail_data: Vec<u8>,
    ) -> (r: Self)
        ensures
            r.image_path == image_path,
            r.width_and_length == width_and_length,
            r.thumbnail_format == thumbnail_format,
            r.thumbnail_data == thumbnail_data,
    {
        Self { image_path, width_and_length, thumbnail_format, thumbnail_data }
    }

    /// The value of the column `c` as text.
    pub fn get_field(&self, c: &str) -> (r: Option<String>)
        ensures
            crate::text::opt_view(r) == thumbnail_field(*self, c@),
    {
        if str_eq(c, "image_path") {
            Some(self.image_path.clone())
        } else if str_eq(c, "width_and_length") {
            Some(format_u64(self.width_and_length as u64))
        } else if str_eq(c, "thumbnail_format") {
            Some(self.thumbnail_format.to_string())
        } else {
            None
        }
    }

    /// The value of the binary column `c`: the encoded data for `thumbnail_data`.
    pub fn get_field_blob(&self, c: &str) -> (r: Option<Vec<u8>>)
        ensures
            match r {
                Some(d) => c@ == "thumbnail_data"@ && d@ == self.thumbnail_data@,
                None => c@ != "thumbnail_data"@,
            },
    {
        if str_eq(c, "thumbnail_data") {
            let mut d: Vec<u8> = Vec::new();
            for i in 0..self.thumbnail_data.len()
                invariant
                    d@ == self.thumbnail_data@.take(i as int),
            {
                d.push(self.thumbnail_data[i]);
                assert(self.thumbnail_data@.take(i + 1) == self.thumbnail_data@.take(i as int).push(
                    self.thumbnail_data@[i as int],
                ));
            }
            assert(self.thumbnail_data@.take(self.thumbnail_data@.len() as int)
                == self.thumbnail_data@);
            Some(d)
        } else {
            None
        }
    }

    /// `width_and_length: {side}, thumbnail_format: {format number}`.
    pub fn to_string(&self) -> (r: String)
        ensures
            r@ == thumbnail_text(*self),
    {
        let side = format_u64(self.width_and_length as u64);
        let mut r = concat2("width_and_length: ", side.as_str());
        r.append(", thumbnail_format: ");
        let f = self.thumbnail_format.to_string();
        r.append(f.as_str());
        r
    }
}

/// A list of thumbnails.
pub struct ImageThumbnailVec(pub Vec<ImageThumbnail>);

impl ImageThumbnailVec {
    /// The description of each thumbnail, separated by `, `.
    pub fn to_string(&self) -> (r: String)
        ensures
            r@ == joined(self.0@.map_values(|t: ImageThumbnail| thumbnail_text(t)), ", "@),
    {
        let mut parts: Vec<String> = Vec::new();
        let n = self.0.len();
        for i in 0..n
            invariant
                n == self.0@.len(),
                crate::text::views(parts@) == self.0@.take(i as int).map_values(
                    |t: ImageThumbnail| thumbnail_text(t),
                ),
        {
            let s = self.0[i].to_string();
            proof {
                assert(crate::text::views(parts@.push(s)) == crate::text::views(parts@).push(s@));
                assert(self.0@.take(i + 1).map_values(|t: ImageThumbnail| thumbnail_text(t))
                    == self.0@.take(i as int).map_values(|t: ImageThumbnail| thumbnail_text(t)).push(
                    thumbnail_text(self.0@[i as int]),
                ));
            }
            parts.push(s);
        }
        assert(self.0@.take(n as int) == self.0@);
        crate::text::join(&parts, ", ")
    }
}

/// Each format has its own number, from 0 to 3, so that reading back the number of a
/// format gives that format again.
pub proof fn lemma_format_code_roundtrip(f: ThumbnailFormat, g: ThumbnailFormat)
    ensures
        format_code(f) <= 3,
        format_code(f) == format_code(g) ==> f == g,
{
}

} // verus!
