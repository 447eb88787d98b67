//! The algorithms that compare two images.

use vstd::prelude::*;

verus! {

/// An algorithm that measures how similar two images are.
#[derive(Clone, Copy, Debug, PartialEq, Eq, Structural)]
pub enum ImageComparisonAlgorithm {
    Magick,
    CustomV1,
    CustomV2Thumbnails,
}

/// The number that stands for `a` in the database: 0 to 2 in declaration order.
pub open spec fn algorithm_code(a: ImageComparisonAlgorithm) -> u8 {
    match a {
        ImageComparisonAlgorithm::Magick => 0,
        ImageComparisonAlgorithm::CustomV1 => 1,
        ImageComparisonAlgorithm::CustomV2Thumbnails => 2,
    }
}

impl ImageComparisonAlgorithm {
    /// The algorithm numbered `value`, for 0 (`Magick`) and 1 (`CustomV1`); every
    /// other number is an error, 2 included.
    pub fn try_from(value: u8) -> (r: Result<ImageComparisonAlgorithm, ()>)
        ensures
            match r {
                Ok(a) => value <= 1 && algorithm_code(a) == value,
                Err(_) => value > 1,
            },
    {
        match value {
            0 => Ok(ImageComparisonAlgorithm::Magick),
            1 => Ok(ImageComparisonAlgorithm::CustomV1),
            _ => Err(()),
        }
    }

    /// The number of this algorithm; every algorithm has one.
    pub fn try_into(&self) -> (r: Result<u8, ()>)
        ensures
            r == Ok::<u8, ()>(algorithm_code(*self)),
    {
        match self {
            ImageComparisonAlgorithm::Magick => Ok(0),
            ImageComparisonAlgorithm::CustomV1 => Ok(1),
            ImageComparisonAlgorithm::CustomV2Thumbnails => Ok(2),
        }
    }

    /// The number of this algorithm in decimal.
    pub fn to_string(&self) -> (r: String)
        ensures
            r@ == crate::text::decimal_digits(algorithm_code(*self) as nat),
    {
        let v: u8 = match self.try_into() {
            Ok(v) => v,
            Err(_) => 0,
        };
        crate::text::format_u64(v as u64)
    }
}

/// Each algorithm has its own number, so that reading back the number of an algorithm
/// gives that algorithm again, except for `CustomV2Thumbnails`, whose number 2 is not
/// read back.
pub proof fn lemma_algorithm_code_roundtrip(a: ImageComparisonAlgorithm, b: ImageComparisonAlgorithm)
    ensures
        a != ImageComparisonAlgorithm::CustomV2Thumbnails ==> algorithm_code(a) <= 1,
        algorithm_code(a) == algorithm_code(b) ==> a == b,
{
}

} // verus!
