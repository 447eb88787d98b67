//! The search that picks a wallpaper to suit the time of day.

use vstd::prelude::*;
use crate::models::image_aspect_ratio::ImageQuality;
use crate::models::query_params::search_params::SearchParams;
use crate::text::{format_u64, owned};

verus! {

/// The position of `q` in the declaration of `ImageQuality`, from `XHD` at 0.
fn declared_position(q: ImageQuality) -> (r: u8)
    ensures
        r == (match q {
            ImageQuality::XHD => 0u8,
            ImageQuality::HD => 1u8,
            ImageQuality::Med => 2u8,
            ImageQuality::Low => 3u8,
        }),
{
    match q {
        ImageQuality::XHD => 0,
        ImageQuality::HD => 1,
        ImageQuality::Med => 2,
        ImageQuality::Low => 3,
    }
}

/// The wallpaper search for the brightness range from `lower_bound` to `upper_bound`
/// (as their decimal text): it asks for one image with an aspect ratio between 1.3
/// and 3 and at least HD quality. It starts from parameters with no field, where
/// setting a value changes nothing, so the result has no field either.
pub fn get_image_wallpaper_based_on_brightness_search_params(lower_bound: &str, upper_bound: &str) -> (r: SearchParams)
    ensures
        r.fields@.len() == 0,
{
    let aspect_ratio_min = "1.3";
    let aspect_ratio_max = "3";
    let quality_min = ImageQuality::HD;

    let mut params = SearchParams::default();
    params.set_field_value("limit", Some(owned("1")));
    params.set_field_value("brightness_min", Some(owned(lower_bound)));
    params.set_field_value("brightness_max", Some(owned(upper_bound)));
    params.set_field_value("aspect_ratio_min", Some(owned(aspect_ratio_min)));
    params.set_field_value("aspect_ratio_max", Some(owned(aspect_ratio_max)));
    params.set_field_value("quality_min", Some(format_u64(declared_position(quality_min) as u64)));
    params
}

} // verus!
