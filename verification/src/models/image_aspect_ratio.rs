//! The quality classes of image resolutions.

use vstd::prelude::*;

verus! {

/// How detailed an image is, from extra-high definition down to low.
#[derive(Clone, Copy, Debug, PartialEq, Eq, Structural)]
pub enum ImageQuality {
    XHD,
    HD,
    Med,
    Low,
}

/// The number that stands for `q` in the database: `Low` 0, `Med` 1, `HD` 2, `XHD` 3.
pub open spec fn quality_code(q: ImageQuality) -> u8 {
    match q {
        ImageQuality::Low => 0,
        ImageQuality::Med => 1,
        ImageQuality::HD => 2,
        ImageQuality::XHD => 3,
    }
}

impl ImageQuality {
    /// The quality numbered `value`; any number above 3 is an error.
    pub fn try_from(value: u8) -> (r: Result<ImageQuality, ()>)
        ensures
            match r {
                Ok(q) => value <= 3 && quality_code(q) == value,
                Err(_) => value > 3,
            },
    {
        match value {
            0 => Ok(ImageQuality::Low),
            1 => Ok(ImageQuality::Med),
            2 => Ok(ImageQuality::HD),
            3 => Ok(ImageQuality::XHD),
            _ => Err(()),
        }
    }

    /// The number of this quality; every quality has one.
    pub fn try_into(&self) -> (r: Result<u8, ()>)
        ensures
            r == Ok::<u8, ()>(quality_code(*self)),
    {
        match self {
            ImageQuality::Low => Ok(0),
            ImageQuality::Med => Ok(1),
            ImageQuality::HD => Ok(2),
            ImageQuality::XHD => Ok(3),
        }
    }
}

/// Each quality has its own number, from 0 to 3, so that reading back the number of a
/// quality gives that quality again.
pub proof fn lemma_quality_code_roundtrip(q: ImageQuality, p: ImageQuality)
    ensures
        quality_code(q) <= 3,
        quality_code(q) == quality_code(p) ==> q == p,
{
}

} // verus!
