//! Component layouts: typed groupings of plane bytes, each with the pixel
//! formats whose memory it may be read as.
use vstd::prelude::*;
use crate::format::Pixel;

verus! {

/// A component layout that a plane's bytes can be read as.
pub trait Component: Sized {
    /// Bytes one element occupies.
    spec fn spec_size() -> nat;

    /// Whether a plane of a frame in `format` may be read as this layout.
    spec fn compatible(format: Pixel) -> bool;

    /// The bytes of this element, in memory order.
    spec fn bytes_of(&self) -> Seq<u8>;

    fn size() -> (r: usize)
        ensures
            r == Self::spec_size(),
            1 <= r <= 4,
    ;

    fn is_valid(format: Pixel) -> (r: bool)
        ensures
            r == Self::compatible(format),
    ;

    /// Reads the element that starts at byte `at`.
    fn read(bytes: &[u8], at: usize) -> (r: Self)
        requires
            at + Self::spec_size() <= bytes@.len(),
        ensures
            r.bytes_of() == bytes@.subrange(at as int, at + Self::spec_size()),
    ;
}

/// Formats laid out as three bytes per pixel.
pub open spec fn is_triple_format(format: Pixel) -> bool {
    format == Pixel::RGB24 || format == Pixel::BGR24
}

/// Formats laid out as four bytes per pixel.
pub open spec fn is_quad_format(format: Pixel) -> bool {
    format == Pixel::RGBA || format == Pixel::BGRA || format == Pixel::ARGB || format
        == Pixel::ABGR || format == Pixel::RGBZ || format == Pixel::BGRZ || format == Pixel::ZRGB
        || format == Pixel::ZBGR
}

fn triple_format(format: Pixel) -> (r: bool)
    ensures
        r == is_triple_format(format),
{
    match format {
        Pixel::RGB24 | Pixel::BGR24 => true,
        _ => false,
    }
}

fn quad_format(format: Pixel) -> (r: bool)
    ensures
        r == is_quad_format(format),
{
    match format {
        Pixel::RGBA | Pixel::BGRA | Pixel::ARGB | Pixel::ABGR | Pixel::RGBZ | Pixel::BGRZ
        | Pixel::ZRGB | Pixel::ZBGR => true,
        _ => false,
    }
}

/// A single luma byte, readable from 8-bit grayscale frames.
impl Component for u8 {
    open spec fn spec_size() -> nat {
        1
    }

    open spec fn compatible(format: Pixel) -> bool {
        format == Pixel::GRAY8
    }

    open spec fn bytes_of(&self) -> Seq<u8> {
        seq![*self]
    }

    fn size() -> (r: usize) {
        1
    }

    fn is_valid(format: Pixel) -> (r: bool) {
        match format {
            Pixel::GRAY8 => true,
            _ => false,
        }
    }

    fn read(bytes: &[u8], at: usize) -> (r: Self) {
        let r = bytes[at];
        assert(r.bytes_of() =~= bytes@.subrange(at as int, at + 1));
        r
    }
}

/// Three bytes of a packed RGB or BGR pixel.
impl Component for [u8; 3] {
    open spec fn spec_size() -> nat {
        3
    }

    open spec fn compatible(format: Pixel) -> bool {
        is_triple_format(format)
    }

    open spec fn bytes_of(&self) -> Seq<u8> {
        self@
    }

    fn size() -> (r: usize) {
        3
    }

    fn is_valid(format: Pixel) -> (r: bool) {
        triple_format(format)
    }

    fn read(bytes: &[u8], at: usize) -> (r: Self) {
        let r = [bytes[at], bytes[at + 1], bytes[at + 2]];
        assert(r.bytes_of() =~= bytes@.subrange(at as int, at + 3));
        r
    }
}

/// Three bytes of a packed RGB or BGR pixel, as a tuple.
impl Component for (u8, u8, u8) {
    open spec fn spec_size() -> nat {
        3
    }

    open spec fn compatible(format: Pixel) -> bool {
        is_triple_format(format)
    }

    open spec fn bytes_of(&self) -> Seq<u8> {
        seq![self.0, self.1, self.2]
    }

    fn size() -> (r: usize) {
        3
    }

    fn is_valid(format: Pixel) -> (r: bool) {
        triple_format(format)
    }

    fn read(bytes: &[u8], at: usize) -> (r: Self) {
        let r = (bytes[at], bytes[at + 1], bytes[at + 2]);
        assert(r.bytes_of() =~= bytes@.subrange(at as int, at + 3));
        r
    }
}

/// Four bytes of a packed 32-bit pixel.
impl Component for [u8; 4] {
    open spec fn spec_size() -> nat {
        4
    }

    open spec fn compatible(format: Pixel) -> bool {
        is_quad_format(format)
    }

    open spec fn bytes_of(&self) -> Seq<u8> {
        self@
    }

    fn size() -> (r: usize) {
        4
    }

    fn is_valid(format: Pixel) -> (r: bool) {
        quad_format(format)
    }

    fn read(bytes: &[u8], at: usize) -> (r: Self) {
        let r = [bytes[at], bytes[at + 1], bytes[at + 2], bytes[at + 3]];
        assert(r.bytes_of() =~= bytes@.subrange(at as int, at + 4));
        r
    }
}

/// Four bytes of a packed 32-bit pixel, as a tuple.
impl Component for (u8, u8, u8, u8) {
    open spec fn spec_size() -> nat {
        4
    }

    open spec fn compatible(format: Pixel) -> bool {
        is_quad_format(format)
    }

    open spec fn bytes_of(&self) -> Seq<u8> {
        seq![self.0, self.1, self.2, self.3]
    }

    fn size() -> (r: usize) {
        4
    }

    fn is_valid(format: Pixel) -> (r: bool) {
        quad_format(format)
    }

    fn read(bytes: &[u8], at: usize) -> (r: Self) {
        let r = (bytes[at], bytes[at + 1], bytes[at + 2], bytes[at + 3]);
        assert(r.bytes_of() =~= bytes@.subrange(at as int, at + 4));
        r
    }
}

/// `image::Luma`: a public array of one channel, read by Verus as it stands.
#[verifier::external_type_specification]
#[verifier::reject_recursive_types(T)]
pub struct ExLuma<T>(image::Luma<T>);

/// `image::Rgb`: a public array of three channels, read by Verus as it stands.
#[verifier::external_type_specification]
#[verifier::reject_recursive_types(T)]
pub struct ExRgb<T>(image::Rgb<T>);

/// `image::Rgba`: a public array of four channels, read by Verus as it stands.
#[verifier::external_type_specification]
#[verifier::reject_recursive_types(T)]
pub struct ExRgba<T>(image::Rgba<T>);

/// A luma pixel of the `image` crate, readable from 8-bit grayscale frames.
impl Component for image::Luma<u8> {
    open spec fn spec_size() -> nat {
        1
    }

    open spec fn compatible(format: Pixel) -> bool {
        format == Pixel::GRAY8
    }

    open spec fn bytes_of(&self) -> Seq<u8> {
        self.0@
    }

    fn size() -> (r: usize) {
        1
    }

    fn is_valid(format: Pixel) -> (r: bool) {
        match format {
            Pixel::GRAY8 => true,
            _ => false,
        }
    }

    fn read(bytes: &[u8], at: usize) -> (r: Self) {
        let r = image::Luma([bytes[at]]);
        assert(r.bytes_of() =~= bytes@.subrange(at as int, at + 1));
        r
    }
}

/// An RGB pixel of the `image` crate, readable from RGB24 frames.
impl Component for image::Rgb<u8> {
    open spec fn spec_size() -> nat {
        3
    }

    open spec fn compatible(format: Pixel) -> bool {
        format == Pixel::RGB24
    }

    open spec fn bytes_of(&self) -> Seq<u8> {
        self.0@
    }

    fn size() -> (r: usize) {
        3
    }

    fn is_valid(format: Pixel) -> (r: bool) {
        match format {
            Pixel::RGB24 => true,
            _ => false,
        }
    }

    fn read(bytes: &[u8], at: usize) -> (r: Self) {
        let r = image::Rgb([bytes[at], bytes[at + 1], bytes[at + 2]]);
        assert(r.bytes_of() =~= bytes@.subrange(at as int, at + 3));
        r
    }
}

/// An RGBA pixel of the `image` crate, readable from RGBA frames.
impl Component for image::Rgba<u8> {
    open spec fn spec_size() -> nat {
        4
    }

    open spec fn compatible(format: Pixel) -> bool {
        format == Pixel::RGBA
    }

    open spec fn bytes_of(&self) -> Seq<u8> {
        self.0@
    }

    fn size() -> (r: usize) {
        4
    }

    fn is_valid(format: Pixel) -> (r: bool) {
        match format {
            Pixel::RGBA => true,
            _ => false,
        }
    }

    fn read(bytes: &[u8], at: usize) -> (r: Self) {
        let r = image::Rgba([bytes[at], bytes[at + 1], bytes[at + 2], bytes[at + 3]]);
        assert(r.bytes_of() =~= bytes@.subrange(at as int, at + 4));
        r
    }
}

} // verus!
