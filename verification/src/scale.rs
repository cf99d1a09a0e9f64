//! Trusted bridge to the image crate's triangle-filter resampler.

use vstd::prelude::*;

verus! {

/// What the image crate's triangle (bilinear) resampler returns for a packed
/// RGBA buffer: a function of the input pixels and the four dimensions alone.
pub uninterp spec fn triangle_resample(
    data: Seq<u8>,
    src_w: int,
    src_h: int,
    dst_w: int,
    dst_h: int,
) -> Seq<u8>;

/// Relies on `image::imageops::resize` with `FilterType::Triangle`: the
/// result is a packed RGBA buffer of the target dimensions, computed from the
/// input pixels and the dimensions alone; when source and target dimensions
/// are equal the source pixels are copied through unchanged.
#[verifier::external_body]
pub(crate) fn resize_rgba_triangle(
    data: &Vec<u8>,
    src_w: u32,
    src_h: u32,
    dst_w: u32,
    dst_h: u32,
) -> (r: Vec<u8>)
    requires
        data@.len() == 4 * src_w * src_h,
        4 * dst_w * dst_h <= usize::MAX,
    ensures
        r@ == triangle_resample(data@, src_w as int, src_h as int, dst_w as int, dst_h as int),
        r@.len() == 4 * dst_w * dst_h,
        src_w == dst_w && src_h == dst_h ==> r@ == data@,
{
    let img: image::RgbaImage = image::ImageBuffer::from_raw(src_w, src_h, data.clone())
        .expect("buffer length matches the dimensions");
    image::imageops::resize(&img, dst_w, dst_h, image::imageops::FilterType::Triangle).into_raw()
}

} // verus!
