//! The video frame: metadata, plane views and the copy protocol.
use vstd::prelude::*;
use crate::chroma;
use crate::color;
use crate::component::Component;
use crate::format::{Pixel, spec_plane_count, spec_row_bytes};
use crate::picture;
use crate::rational::Rational;

verus! {

/// Most planes a frame's buffer is organised in.
pub const MAX_PLANES: usize = 8;

/// Conditions under which a frame operation is refused. A refused
/// operation leaves the frame as it was.
#[derive(Clone, Copy, Debug, PartialEq, Eq, Structural)]
pub enum FrameError {
    /// The plane index is not below the plane count.
    IndexOutOfRange,
    /// The component layout may not be read from the frame's pixel format.
    IncompatibleFormat,
    /// The frame already owns plane storage.
    AlreadyAllocated,
    /// The plane's length is not a whole number of components.
    MisalignedPlaneSize,
    /// The destination of a copy differs from the source in format, size or layout.
    IncompatibleCopyTarget,
}

/// Metadata of a frame that is independent of its pixel storage.
#[derive(Clone, Copy, Debug, PartialEq, Eq, Structural)]
pub struct Props {
    pub kind: picture::Type,
    pub interlaced: bool,
    pub top_first: bool,
    pub palette_changed: bool,
    pub color_space: color::Space,
    pub color_range: color::Range,
    pub color_primaries: color::Primaries,
    pub color_transfer_characteristic: color::TransferCharacteristic,
    pub chroma_location: chroma::Location,
    pub aspect_ratio: Rational,
    pub coded_number: usize,
    pub display_number: usize,
    pub repeat_pict: i32,
}

/// The metadata of a frame that has not been given any: no picture type,
/// flags clear, colour space, primaries and transfer unspecified (code 2),
/// range and chroma location unspecified (code 0), aspect ratio 0/1,
/// picture numbers and repeat count zero.
pub open spec fn unset_props() -> Props {
    Props {
        kind: picture::Type(0),
        interlaced: false,
        top_first: false,
        palette_changed: false,
        color_space: color::Space(2),
        color_range: color::Range(0),
        color_primaries: color::Primaries(2),
        color_transfer_characteristic: color::TransferCharacteristic(2),
        chroma_location: chroma::Location(0),
        aspect_ratio: Rational(0, 1),
        coded_number: 0,
        display_number: 0,
        repeat_pict: 0,
    }
}

/// One plane: its stride (bytes per row) and its bytes.
pub struct PlaneModel {
    pub stride: nat,
    pub data: Seq<u8>,
}

/// What a frame holds.
pub struct VideoModel {
    pub format: Option<Pixel>,
    pub width: u32,
    pub height: u32,
    pub planes: Seq<PlaneModel>,
    pub props: Props,
}

/// The index of the first plane, from `i` on, whose stride is zero, where
/// planes past the storage and past the eighth count as zero.
pub open spec fn count_from(planes: Seq<PlaneModel>, i: nat) -> nat
    decreases 8 - i,
{
    if i >= 8 || i >= planes.len() || planes[i as int].stride == 0 {
        i
    } else {
        count_from(planes, i + 1)
    }
}

/// The planes that allocating `f` at `w` by `h` lays out, filled with zeros.
pub open spec fn layout(f: Pixel, w: nat, h: nat) -> Seq<PlaneModel> {
    if w > 0 && h > 0 {
        Seq::new(
            spec_plane_count(f),
            |p: int|
                PlaneModel {
                    stride: spec_row_bytes(f, p as nat, w),
                    data: Seq::new(spec_row_bytes(f, p as nat, w) * h, |j: int| 0u8),
                },
        )
    } else {
        Seq::empty()
    }
}

/// Whether two plane sequences have the same strides and plane lengths.
pub open spec fn same_layout(a: Seq<PlaneModel>, b: Seq<PlaneModel>) -> bool {
    &&& a.len() == b.len()
    &&& forall|i: int|
        0 <= i < a.len() ==> a[i].stride == b[i].stride && a[i].data.len() == b[i].data.len()
}

impl VideoModel {
    /// Number of leading planes with a nonzero stride, at most eight.
    pub open spec fn plane_count(self) -> nat {
        count_from(self.planes, 0)
    }

    /// Whether the frame owns plane storage.
    pub open spec fn is_allocated(self) -> bool {
        self.plane_count() > 0
    }

    /// The frame after committing format, size and fresh storage.
    pub open spec fn allocated(self, f: Pixel, w: u32, h: u32) -> VideoModel {
        VideoModel {
            format: Some(f),
            width: w,
            height: h,
            planes: layout(f, w as nat, h as nat),
            props: self.props,
        }
    }

    /// Why a view of plane `index` as components of type `T` is refused, if it is.
    pub open spec fn view_error<T: Component>(self, index: int) -> Option<FrameError> {
        if index >= self.plane_count() {
            Some(FrameError::IndexOutOfRange)
        } else if !(self.format is Some && T::compatible(self.format->Some_0)) {
            Some(FrameError::IncompatibleFormat)
        } else if self.planes[index].data.len() % T::spec_size() != 0 {
            Some(FrameError::MisalignedPlaneSize)
        } else {
            None
        }
    }

    /// Whether `source` may be copied onto this frame.
    pub open spec fn accepts_copy_of(self, source: VideoModel) -> bool {
        &&& self.format == source.format
        &&& self.width == source.width
        &&& self.height == source.height
        &&& same_layout(self.planes, source.planes)
    }
}

/// The model of a frame with no format, no size and no storage.
pub open spec fn empty_model() -> VideoModel {
    VideoModel { format: None, width: 0, height: 0, planes: Seq::empty(), props: unset_props() }
}

struct Plane {
    stride: usize,
    data: Vec<u8>,
}

impl View for Plane {
    type V = PlaneModel;

    closed spec fn view(&self) -> PlaneModel {
        PlaneModel { stride: self.stride as nat, data: self.data@ }
    }
}

/// A video frame: pixel format, dimensions, up to eight planes of bytes, and
/// metadata.
pub struct Video {
    format: Option<Pixel>,
    width: u32,
    height: u32,
    planes: Vec<Plane>,
    props: Props,
}

impl View for Video {
    type V = VideoModel;

    closed spec fn view(&self) -> VideoModel {
        VideoModel {
            format: self.format,
            width: self.width,
            height: self.height,
            planes: self.planes@.map_values(|p: Plane| p@),
            props: self.props,
        }
    }
}

/// Copies the bytes of a plane into new storage.
fn copy_bytes(src: &[u8]) -> (r: Vec<u8>)
    ensures
        r@ == src@,
{
    let mut r: Vec<u8> = Vec::with_capacity(src.len());
    let mut j: usize = 0;
    while j < src.len()
        invariant
            j <= src@.len(),
            r@ == src@.subrange(0, j as int),
        decreases src@.len() - j,
    {
        r.push(src[j]);
        j += 1;
        assert(r@ =~= src@.subrange(0, j as int));
    }
    assert(r@ =~= src@);
    r
}

/// A plane of `len` zero bytes.
fn zeroed(len: usize) -> (r: Vec<u8>)
    ensures
        r@ == Seq::new(len as nat, |j: int| 0u8),
{
    let mut r: Vec<u8> = Vec::with_capacity(len);
    let mut j: usize = 0;
    while j < len
        invariant
            j <= len,
            r@ == Seq::new(j as nat, |k: int| 0u8),
        decreases len - j,
    {
        r.push(0u8);
        j += 1;
        assert(r@ =~= Seq::new(j as nat, |k: int| 0u8));
    }
    r
}

impl Video {
    /// A frame with no format, no size and no storage.
    pub fn empty() -> (r: Video)
        ensures
            r@ == empty_model(),
    {
        let r = Video {
            format: None,
            width: 0,
            height: 0,
            planes: Vec::new(),
            props: Props {
                kind: picture::Type(0),
                interlaced: false,
                top_first: false,
                palette_changed: false,
                color_space: color::Space(2),
                color_range: color::Range(0),
                color_primaries: color::Primaries(2),
                color_transfer_characteristic: color::TransferCharacteristic(2),
                chroma_location: chroma::Location(0),
                aspect_ratio: Rational(0, 1),
                coded_number: 0,
                display_number: 0,
                repeat_pict: 0,
            },
        };
        assert(r@.planes =~= Seq::<PlaneModel>::empty());
        r
    }

    /// Number of leading planes with a nonzero stride, scanning at most eight.
    pub fn planes(&self) -> (r: usize)
        ensures
            r == self@.plane_count(),
            r <= MAX_PLANES,
            r <= self@.planes.len(),
            forall|i: int| 0 <= i < r ==> self@.planes[i].stride != 0,
    {
        let mut i: usize = 0;
        while i < MAX_PLANES && i < self.planes.len()
            invariant
                i <= MAX_PLANES,
                i <= self@.planes.len(),
                self@.planes.len() == self.planes@.len(),
                count_from(self@.planes, 0) == count_from(self@.planes, i as nat),
                forall|k: int| 0 <= k < i ==> self@.planes[k].stride != 0,
            decreases MAX_PLANES - i,
        {
            assert(self@.planes[i as int] == self.planes@[i as int]@);
            if self.planes[i].stride == 0 {
                return i;
            }
            i += 1;
        }
        i
    }

    /// Commits format and size, then lays out zero-filled storage for each
    /// plane of the format, one row of bytes per pixel row. Refused when the
    /// frame already owns storage. A zero width or height lays out no planes.
    pub fn allocate(&mut self, format: Pixel, width: u32, height: u32) -> (r: Result<(), FrameError>)
        requires
            4 * (width as int) * (height as int) <= usize::MAX,
        ensures
            old(self)@.is_allocated() ==> r == Err::<(), FrameError>(FrameError::AlreadyAllocated)
                && final(self)@ == old(self)@,
            !old(self)@.is_allocated() ==> r is Ok && final(self)@ == old(self)@.allocated(
                format,
                width,
                height,
            ),
    {
        if self.planes() > 0 {
            return Err(FrameError::AlreadyAllocated);
        }
        self.set_format(format);
        self.set_width(width);
        self.set_height(height);
        let mut planes: Vec<Plane> = Vec::new();
        if width > 0 && height > 0 {
            let w = width as usize;
            let h = height as usize;
            assert(4 * (w as int) <= usize::MAX) by (nonlinear_arith)
                requires
                    4 * (w as int) * (h as int) <= usize::MAX,
                    h >= 1,
            ;
            let n = format.plane_count();
            let mut p: usize = 0;
            while p < n
                invariant
                    p <= n,
                    n == spec_plane_count(format),
                    4 * (w as int) <= usize::MAX,
                    4 * (w as int) * (h as int) <= usize::MAX,
                    w == width,
                    h == height,
                    w > 0 && h > 0,
                    planes@.len() == p,
                    forall|k: int|
                        0 <= k < p ==> #[trigger] planes@[k]@ == layout(format, w as nat, h as nat)[k],
                decreases n - p,
            {
                let stride = format.row_bytes(p, w);
                assert(stride * h <= 4 * w * h) by (nonlinear_arith)
                    requires
                        stride <= 4 * w,
                ;
                let data = zeroed(stride * h);
                let ghost expected = layout(format, w as nat, h as nat)[p as int];
                assert(data@ =~= expected.data);
                let plane = Plane { stride, data };
                assert(plane@ == expected);
                planes.push(plane);
                p += 1;
            }
            assert(planes@.map_values(|q: Plane| q@) =~= layout(format, w as nat, h as nat));
        } else {
            assert(planes@.map_values(|q: Plane| q@) =~= layout(
                format,
                width as nat,
                height as nat,
            ));
        }
        self.planes = planes;
        Ok(())
    }

    /// A frame of `format` and size `width` by `height`, with its storage laid out.
    pub fn new(format: Pixel, width: u32, height: u32) -> (r: Video)
        requires
            4 * (width as int) * (height as int) <= usize::MAX,
        ensures
            r@ == empty_model().allocated(format, width, height),
    {
        let mut frame = Video::empty();
        // An empty frame owns no storage, so allocating it cannot be refused.
        let _ = frame.allocate(format, width, height);
        frame
    }

    /// The pixel format, or `None` when none was ever set.
    pub fn format(&self) -> (r: Option<Pixel>)
        ensures
            r == self@.format,
    {
        self.format
    }

    /// Sets the pixel format; storage is not laid out again.
    pub fn set_format(&mut self, value: Pixel)
        ensures
            final(self)@ == (VideoModel { format: Some(value), ..old(self)@ }),
    {
        self.format = Some(value);
    }

    pub fn width(&self) -> (r: u32)
        ensures
            r == self@.width,
    {
        self.width
    }

    /// Sets the width; storage is not laid out again.
    pub fn set_width(&mut self, value: u32)
        ensures
            final(self)@ == (VideoModel { width: value, ..old(self)@ }),
    {
        self.width = value;
    }

    pub fn height(&self) -> (r: u32)
        ensures
            r == self@.height,
    {
        self.height
    }

    /// Sets the height; storage is not laid out again.
    pub fn set_height(&mut self, value: u32)
        ensures
            final(self)@ == (VideoModel { height: value, ..old(self)@ }),
    {
        self.height = value;
    }

    /// The picture type.
    pub fn kind(&self) -> (r: picture::Type)
        ensures
            r == self@.props.kind,
    {
        self.props.kind
    }

    /// Whether the picture is interlaced.
    pub fn is_interlaced(&self) -> (r: bool)
        ensures
            r == self@.props.interlaced,
    {
        self.props.interlaced
    }

    /// Whether the top field is displayed first.
    pub fn is_top_first(&self) -> (r: bool)
        ensures
            r == self@.props.top_first,
    {
        self.props.top_first
    }

    /// Whether the palette changed with this frame.
    pub fn has_palette_changed(&self) -> (r: bool)
        ensures
            r == self@.props.palette_changed,
    {
        self.props.palette_changed
    }

    pub fn color_space(&self) -> (r: color::Space)
        ensures
            r == self@.props.color_space,
    {
        self.props.color_space
    }

    pub fn set_color_space(&mut self, value: color::Space)
        ensures
            final(self)@ == (VideoModel {
                props: Props { color_space: value, ..old(self)@.props },
                ..old(self)@
            }),
    {
        self.props.color_space = value;
    }

    pub fn color_range(&self) -> (r: color::Range)
        ensures
            r == self@.props.color_range,
    {
        self.props.color_range
    }

    pub fn set_color_range(&mut self, value: color::Range)
        ensures
            final(self)@ == (VideoModel {
                props: Props { color_range: value, ..old(self)@.props },
                ..old(self)@
            }),
    {
        self.props.color_range = value;
    }

    pub fn color_primaries(&self) -> (r: color::Primaries)
        ensures
            r == self@.props.color_primaries,
    {
        self.props.color_primaries
    }

    pub fn set_color_primaries(&mut self, value: color::Primaries)
        ensures
            final(self)@ == (VideoModel {
                props: Props { color_primaries: value, ..old(self)@.props },
                ..old(self)@
            }),
    {
        self.props.color_primaries = value;
    }

    pub fn color_transfer_characteristic(&self) -> (r: color::TransferCharacteristic)
        ensures
            r == self@.props.color_transfer_characteristic,
    {
        self.props.color_transfer_characteristic
    }

    pub fn set_color_transfer_characteristic(&mut self, value: color::TransferCharacteristic)
        ensures
            final(self)@ == (VideoModel {
                props: Props { color_transfer_characteristic: value, ..old(self)@.props },
                ..old(self)@
            }),
    {
        self.props.color_transfer_characteristic = value;
    }

    pub fn chroma_location(&self) -> (r: chroma::Location)
        ensures
            r == self@.props.chroma_location,
    {
        self.props.chroma_location
    }

    /// The sample aspect ratio.
    pub fn aspect_ratio(&self) -> (r: Rational)
        ensures
            r == self@.props.aspect_ratio,
    {
        self.props.aspect_ratio
    }

    /// The picture number in coding order.
    pub fn coded_number(&self) -> (r: usize)
        ensures
            r == self@.props.coded_number,
    {
        self.props.coded_number
    }

    /// The picture number in display order.
    pub fn display_number(&self) -> (r: usize)
        ensures
            r == self@.props.display_number,
    {
        self.props.display_number
    }

    /// How many extra field durations the picture is shown for.
    pub fn repeat_pict(&self) -> (r: i32)
        ensures
            r == self@.props.repeat_pict,
    {
        self.props.repeat_pict
    }

    /// The bytes of plane `index`, for writing. Refused unless `index` is
    /// below the plane count.
    pub fn data_mut(&mut self, index: usize) -> (r: Result<&mut [u8], FrameError>)
        ensures
            index >= old(self)@.plane_count() <==> r is Err,
            r is Err ==> r == Err::<&mut [u8], FrameError>(FrameError::IndexOutOfRange)
                && final(self)@ == old(self)@,
            r is Ok ==> (r->Ok_0)@ == old(self)@.planes[index as int].data,
            r is Ok ==> final(self)@.planes =~= old(self)@.planes.update(
                index as int,
                PlaneModel { data: final(r->Ok_0)@, ..old(self)@.planes[index as int] },
            ),
            r is Ok ==> final(self)@.format == old(self)@.format && final(self)@.width == old(
                self,
            )@.width && final(self)@.height == old(self)@.height && final(self)@.props == old(
                self,
            )@.props,
    {
        let n = self.planes();
        if index >= n {
            return Err(FrameError::IndexOutOfRange);
        }
        let plane = &mut self.planes[index];
        Ok(plane.data.as_mut_slice())
    }

    /// Checks that plane `index` may be viewed as components of type `T`.
    fn check_view<T: Component>(&self, index: usize) -> (r: Result<(), FrameError>)
        ensures
            r is Ok <==> self@.view_error::<T>(index as int) is None,
            r is Err ==> Some(r->Err_0) == self@.view_error::<T>(index as int),
            r is Ok ==> index < self@.plane_count() && index < self.planes@.len(),
    {
        let n = self.planes();
        if index >= n {
            return Err(FrameError::IndexOutOfRange);
        }
        let compatible = match self.format {
            Some(f) => T::is_valid(f),
            None => false,
        };
        if !compatible {
            return Err(FrameError::IncompatibleFormat);
        }
        assert(self@.planes[index as int] == self.planes@[index as int]@);
        if self.planes[index].data.len() % T::size() != 0 {
            return Err(FrameError::MisalignedPlaneSize);
        }
        Ok(())
    }

    /// Plane `index` read as a sequence of components of type `T`. Refused
    /// when the index is not below the plane count, when `T` may not be read
    /// from the frame's format, or when the plane is not a whole number of
    /// components, checked in that order.
    pub fn plane<T: Component>(&self, index: usize) -> (r: Result<Vec<T>, FrameError>)
        ensures
            r is Ok <==> self@.view_error::<T>(index as int) is None,
            r is Err ==> Some(r->Err_0) == self@.view_error::<T>(index as int),
            r is Ok ==> r->Ok_0@.len() * T::spec_size() == self@.planes[index as int].data.len(),
            r is Ok ==> forall|k: int|
                0 <= k < r->Ok_0@.len() ==> (#[trigger] r->Ok_0@[k]).bytes_of()
                    == self@.planes[index as int].data.subrange(
                    k * T::spec_size(),
                    (k + 1) * T::spec_size(),
                ),
    {
        let checked = self.check_view::<T>(index);
        match checked {
            Err(e) => Err(e),
            Ok(()) => {
                let bytes = self.planes[index].data.as_slice();
                assert(bytes@ == self@.planes[index as int].data);
                let size = T::size();
                let len = bytes.len();
                let count = len / size;
                assert(count * size == bytes@.len()) by (nonlinear_arith)
                    requires
                        (bytes@.len() as int) % (size as int) == 0,
                        count == (bytes@.len() as int) / (size as int),
                        size >= 1,
                ;
                let mut out: Vec<T> = Vec::with_capacity(count);
                let mut k: usize = 0;
                while k < count
                    invariant
                        k <= count,
                        count * size == bytes@.len(),
                        count * size <= usize::MAX,
                        size == T::spec_size(),
                        size >= 1,
                        out@.len() == k,
                        forall|j: int|
                            0 <= j < k ==> (#[trigger] out@[j]).bytes_of() == bytes@.subrange(
                                j * size,
                                (j + 1) * size,
                            ),
                    decreases count - k,
                {
                    assert((k + 1) * size <= count * size) by (nonlinear_arith)
                        requires
                            k < count,
                    ;
                    assert((k + 1) * size == k * size + size) by (nonlinear_arith);
                    assert(k * size <= count * size) by (nonlinear_arith)
                        requires
                            k < count,
                    ;
                    let item = T::read(bytes, k * size);
                    out.push(item);
                    k += 1;
                }
                Ok(out)
            },
        }
    }

    /// The bytes of plane `index`, for writing components of type `T`.
    /// Refused as `plane` refuses; otherwise the slice holds a whole number
    /// of components.
    pub fn plane_mut<T: Component>(&mut self, index: usize) -> (r: Result<&mut [u8], FrameError>)
        ensures
            r is Ok <==> old(self)@.view_error::<T>(index as int) is None,
            r is Err ==> Some(r->Err_0) == old(self)@.view_error::<T>(index as int)
                && final(self)@ == old(self)@,
            r is Ok ==> (r->Ok_0)@ == old(self)@.planes[index as int].data,
            r is Ok ==> final(self)@.planes =~= old(self)@.planes.update(
                index as int,
                PlaneModel { data: final(r->Ok_0)@, ..old(self)@.planes[index as int] },
            ),
            r is Ok ==> final(self)@.format == old(self)@.format && final(self)@.width == old(
                self,
            )@.width && final(self)@.height == old(self)@.height && final(self)@.props == old(
                self,
            )@.props,
    {
        let checked = self.check_view::<T>(index);
        match checked {
            Err(e) => Err(e),
            Ok(()) => {
                let plane = &mut self.planes[index];
                Ok(plane.data.as_mut_slice())
            },
        }
    }

    /// Copies the pixel bytes and then the metadata of `source` onto this
    /// frame. Refused unless both frames agree in format, width, height,
    /// strides and plane lengths.
    pub fn copy_from(&mut self, source: &Video) -> (r: Result<(), FrameError>)
        ensures
            r is Ok <==> old(self)@.accepts_copy_of(source@),
            r is Ok ==> final(self)@ == source@,
            r is Err ==> r == Err::<(), FrameError>(FrameError::IncompatibleCopyTarget)
                && final(self)@ == old(self)@,
    {
        if !self.matches_shape(source) {
            return Err(FrameError::IncompatibleCopyTarget);
        }
        self.copy_data(source);
        self.props = source.props;
        assert(self@ == source@);
        Ok(())
    }

    fn matches_shape(&self, source: &Video) -> (r: bool)
        ensures
            r == self@.accepts_copy_of(source@),
    {
        let same_format = match (self.format, source.format) {
            (Some(a), Some(b)) => a == b,
            (None, None) => true,
            _ => false,
        };
        if !same_format || self.width != source.width || self.height != source.height {
            return false;
        }
        if self.planes.len() != source.planes.len() {
            return false;
        }
        let mut i: usize = 0;
        while i < self.planes.len()
            invariant
                i <= self.planes@.len(),
                self.planes@.len() == source.planes@.len(),
                forall|k: int|
                    0 <= k < i ==> (#[trigger] self.planes@[k])@.stride == source.planes@[k]@.stride
                        && self.planes@[k]@.data.len() == source.planes@[k]@.data.len(),
            decreases self.planes@.len() - i,
        {
            if self.planes[i].stride != source.planes[i].stride || self.planes[i].data.len()
                != source.planes[i].data.len() {
                assert(self@.planes[i as int] == self.planes@[i as int]@);
                assert(source@.planes[i as int] == source.planes@[i as int]@);
                return false;
            }
            i += 1;
        }
        assert forall|k: int| 0 <= k < self@.planes.len() implies self@.planes[k].stride
            == source@.planes[k].stride && self@.planes[k].data.len()
            == source@.planes[k].data.len() by {
            assert(self@.planes[k] == self.planes@[k]@);
            assert(source@.planes[k] == source.planes@[k]@);
        }
        true
    }

    /// Replaces the plane bytes with those of `source`, keeping the metadata.
    fn copy_data(&mut self, source: &Video)
        requires
            old(self)@.accepts_copy_of(source@),
        ensures
            final(self)@ == (VideoModel { planes: source@.planes, ..old(self)@ }),
    {
        let mut planes: Vec<Plane> = Vec::with_capacity(source.planes.len());
        let mut i: usize = 0;
        while i < source.planes.len()
            invariant
                i <= source.planes@.len(),
                planes@.len() == i,
                forall|k: int| 0 <= k < i ==> #[trigger] planes@[k]@ == source.planes@[k]@,
            decreases source.planes@.len() - i,
        {
            let src = &source.planes[i];
            let plane = Plane { stride: src.stride, data: copy_bytes(src.data.as_slice()) };
            planes.push(plane);
            i += 1;
        }
        self.planes = planes;
        assert(self@.planes =~= source@.planes);
    }

    /// An independent frame equal to this one: storage of the same shape is
    /// laid out, then the pixel bytes and the metadata are copied onto it.
    pub fn duplicate(&self) -> (r: Video)
        ensures
            r@ == self@,
    {
        let mut planes: Vec<Plane> = Vec::with_capacity(self.planes.len());
        let mut i: usize = 0;
        while i < self.planes.len()
            invariant
                i <= self.planes@.len(),
                planes@.len() == i,
                forall|k: int|
                    0 <= k < i ==> #[trigger] planes@[k]@.stride == self.planes@[k]@.stride
                        && planes@[k]@.data.len() == self.planes@[k]@.data.len(),
            decreases self.planes@.len() - i,
        {
            let src = &self.planes[i];
            let plane = Plane { stride: src.stride, data: zeroed(src.data.len()) };
            planes.push(plane);
            i += 1;
        }
        let mut r = Video {
            format: self.format,
            width: self.width,
            height: self.height,
            planes,
            props: self.props,
        };
        // The fresh frame has this one's shape, so the copy is accepted.
        let _ = r.copy_from(self);
        r
    }

    /// The bytes of each plane, in order, up to the plane count.
    pub fn data(&self) -> (r: Vec<&[u8]>)
        ensures
            r@.len() == self@.plane_count(),
            forall|i: int| 0 <= i < r@.len() ==> r@[i]@ == self@.planes[i].data,
    {
        let n = self.planes();
        let mut r: Vec<&[u8]> = Vec::new();
        let mut i: usize = 0;
        while i < n
            invariant
                i <= n,
                n == self@.plane_count(),
                n <= self.planes@.len(),
                r@.len() == i,
                forall|k: int| 0 <= k < i ==> r@[k]@ == self@.planes[k].data,
            decreases n - i,
        {
            assert(self@.planes[i as int] == self.planes@[i as int]@);
            r.push(self.planes[i].data.as_slice());
            i += 1;
        }
        r
    }
}

impl Clone for Video {
    /// Same as `duplicate`.
    fn clone(&self) -> (r: Self)
        ensures
            r@ == self@,
    {
        self.duplicate()
    }
}

} // verus!
