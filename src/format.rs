use vstd::prelude::*;

verus! {

/// Pixel formats a frame can be allocated with.
#[derive(Clone, Copy, Debug, PartialEq, Eq, Structural)]
pub enum Pixel {
    YUV420P,
    YUV422P,
    YUV444P,
    NV12,
    GRAY8,
    RGB24,
    BGR24,
    RGBA,
    BGRA,
    ARGB,
    ABGR,
    RGBZ,
    BGRZ,
    ZRGB,
    ZBGR,
}

/// Number of planes a buffer of format `f` is laid out in.
pub open spec fn spec_plane_count(f: Pixel) -> nat {
    match f {
        Pixel::YUV420P | Pixel::YUV422P | Pixel::YUV444P => 3,
        Pixel::NV12 => 2,
        _ => 1,
    }
}

/// Bytes in one row of plane `p` of a frame of format `f` and width `w`.
pub open spec fn spec_row_bytes(f: Pixel, p: nat, w: nat) -> nat {
    if p >= spec_plane_count(f) {
        0
    } else {
        match f {
            Pixel::YUV420P | Pixel::YUV422P => if p == 0 { w } else { (w + 1) / 2 },
            Pixel::NV12 => if p == 0 { w } else { 2 * ((w + 1) / 2) },
            Pixel::RGB24 | Pixel::BGR24 => 3 * w,
            Pixel::RGBA | Pixel::BGRA | Pixel::ARGB | Pixel::ABGR
            | Pixel::RGBZ | Pixel::BGRZ | Pixel::ZRGB | Pixel::ZBGR => 4 * w,
            _ => w,
        }
    }
}

impl Pixel {
    /// Number of planes this format is laid out in.
    pub fn plane_count(self) -> (r: usize)
        ensures
            r == spec_plane_count(self),
            1 <= r <= 3,
    {
        match self {
                Pixel::YUV420P | Pixel::YUV422P | Pixel::YUV444P => 3,
            Pixel::NV12 => 2,
            _ => 1,
        }
    }

    /// Bytes in one row of plane `p` at width `w`.
    pub fn row_bytes(self, p: usize, w: usize) -> (r: usize)
        requires
            4 * (w as int) <= usize::MAX,
        ensures
            r == spec_row_bytes(self, p as nat, w as nat),
            r <= 4 * w,
    {
        if p >= self.plane_count() {
            0
        } else {
            match self {
                Pixel::YUV420P | Pixel::YUV422P => if p == 0 { w } else { w / 2 + w % 2 },
                Pixel::NV12 => if p == 0 { w } else { 2 * (w / 2 + w % 2) },
                Pixel::RGB24 | Pixel::BGR24 => 3 * w,
                Pixel::RGBA | Pixel::BGRA | Pixel::ARGB | Pixel::ABGR
                | Pixel::RGBZ | Pixel::BGRZ | Pixel::ZRGB | Pixel::ZBGR => 4 * w,
                _ => w,
            }
        }
    }
}

} // verus!
