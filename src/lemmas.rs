//! Facts about frames, stated over their models.
use vstd::prelude::*;
use crate::component::Component;
use crate::format::{Pixel, spec_plane_count, spec_row_bytes};
use crate::video::{FrameError, PlaneModel, VideoModel, count_from, empty_model, layout};

verus! {

/// The plane scan from `i` on never goes past the eighth plane.
pub proof fn lemma_count_from_bounded(planes: Seq<PlaneModel>, i: nat)
    ensures
        i <= count_from(planes, i),
        i <= 8 ==> count_from(planes, i) <= 8,
    decreases 8 - i,
{
    if !(i >= 8 || i >= planes.len() || planes[i as int].stride == 0) {
        lemma_count_from_bounded(planes, i + 1);
    }
}

/// When every stored plane from `i` on has a nonzero stride and at most
/// eight are stored, the scan from `i` counts them all.
pub proof fn lemma_count_from_all(planes: Seq<PlaneModel>, i: nat)
    requires
        i <= planes.len() <= 8,
        forall|k: int| i <= k < planes.len() ==> planes[k].stride != 0,
    ensures
        count_from(planes, i) == planes.len(),
    decreases 8 - i,
{
    if i < planes.len() {
        lemma_count_from_all(planes, i + 1);
    }
}

/// The plane scan reads the strides alone: planes whose strides agree
/// have the same count.
pub proof fn lemma_count_from_strides(a: Seq<PlaneModel>, b: Seq<PlaneModel>, i: nat)
    requires
        a.len() == b.len(),
        forall|k: int| 0 <= k < a.len() ==> a[k].stride == b[k].stride,
    ensures
        count_from(a, i) == count_from(b, i),
    decreases 8 - i,
{
    if !(i >= 8 || i >= a.len() || a[i as int].stride == 0) {
        lemma_count_from_strides(a, b, i + 1);
    }
}

/// A frame never reports more than eight planes.
pub proof fn lemma_plane_count_at_most_eight(m: VideoModel)
    ensures
        m.plane_count() <= 8,
{
    lemma_count_from_bounded(m.planes, 0);
}

/// A frame made by `new` with a nonzero size reports the format, width and
/// height it was made with, and exactly as many planes as the format defines.
pub proof fn lemma_new_reports_its_layout(f: Pixel, w: u32, h: u32)
    requires
        w > 0,
        h > 0,
    ensures
        empty_model().allocated(f, w, h).format == Some(f),
        empty_model().allocated(f, w, h).width == w,
        empty_model().allocated(f, w, h).height == h,
        empty_model().allocated(f, w, h).plane_count() == spec_plane_count(f),
        empty_model().allocated(f, w, h).plane_count() <= 8,
        forall|p: int|
            0 <= p < spec_plane_count(f) ==> #[trigger] empty_model().allocated(
                f,
                w,
                h,
            ).planes[p].data.len() == empty_model().allocated(f, w, h).planes[p].stride * h,
{
    let planes = layout(f, w as nat, h as nat);
    assert(planes.len() == spec_plane_count(f));
    assert forall|k: int| 0 <= k < planes.len() implies planes[k].stride != 0 by {
        assert(spec_row_bytes(f, k as nat, w as nat) > 0);
    }
    lemma_count_from_all(planes, 0);
}

/// A frame that is allocated afresh owns storage exactly when its size is
/// nonzero.
pub proof fn lemma_allocated_has_storage(m: VideoModel, f: Pixel, w: u32, h: u32)
    ensures
        m.allocated(f, w, h).is_allocated() <==> (w > 0 && h > 0),
{
    let planes = layout(f, w as nat, h as nat);
    if w > 0 && h > 0 {
        assert forall|k: int| 0 <= k < planes.len() implies planes[k].stride != 0 by {
            assert(spec_row_bytes(f, k as nat, w as nat) > 0);
        }
        lemma_count_from_all(planes, 0);
    }
}

/// Asking for the plane at the plane count is always refused as out of
/// range; asking for the last plane never is.
pub proof fn lemma_index_bound<T: Component>(m: VideoModel)
    ensures
        m.view_error::<T>(m.plane_count() as int) == Some(FrameError::IndexOutOfRange),
        m.plane_count() > 0 ==> m.view_error::<T>(m.plane_count() - 1) != Some(
            FrameError::IndexOutOfRange,
        ),
{
}

/// A four-byte layout is never handed out from a grayscale frame: the
/// request fails, and with a plane present it fails as an incompatible format.
pub proof fn lemma_gray_refuses_quads(m: VideoModel)
    requires
        m.format == Some(Pixel::GRAY8),
    ensures
        m.view_error::<[u8; 4]>(0) is Some,
        m.view_error::<(u8, u8, u8, u8)>(0) is Some,
        m.plane_count() > 0 ==> m.view_error::<[u8; 4]>(0) == Some(FrameError::IncompatibleFormat),
        m.plane_count() > 0 ==> m.view_error::<(u8, u8, u8, u8)>(0) == Some(
            FrameError::IncompatibleFormat,
        ),
{
}

/// A grayscale frame made by `new` at `w` by `h` can be read byte by byte
/// from plane 0, which holds `w` bytes per row and `h` rows.
pub proof fn lemma_gray_bytes_view(w: u32, h: u32)
    requires
        w > 0,
        h > 0,
    ensures
        empty_model().allocated(Pixel::GRAY8, w, h).view_error::<u8>(0) is None,
        empty_model().allocated(Pixel::GRAY8, w, h).planes[0].stride == w,
        empty_model().allocated(Pixel::GRAY8, w, h).planes[0].data.len() == w * h,
{
    lemma_new_reports_its_layout(Pixel::GRAY8, w, h);
}

/// Bytes written into plane `index` (as `plane_mut` or `data_mut` let a
/// caller do) are what the byte view of that plane then shows, and the plane
/// count does not change.
pub proof fn lemma_write_then_read(m: VideoModel, index: int, bytes: Seq<u8>)
    requires
        0 <= index < m.plane_count(),
    ensures
        ({
            let written = VideoModel {
                planes: m.planes.update(index, PlaneModel { data: bytes, ..m.planes[index] }),
                ..m
            };
            written.plane_count() == m.plane_count() && written.planes[index].data == bytes
        }),
{
    lemma_count_from_bounded(m.planes, 0);
    assert(index < m.planes.len()) by {
        lemma_count_at_most_len(m.planes, 0);
    }
    let planes = m.planes.update(index, PlaneModel { data: bytes, ..m.planes[index] });
    lemma_count_from_strides(planes, m.planes, 0);
}

/// The plane scan never counts past the stored planes.
pub proof fn lemma_count_at_most_len(planes: Seq<PlaneModel>, i: nat)
    requires
        i <= planes.len(),
    ensures
        count_from(planes, i) <= planes.len(),
    decreases 8 - i,
{
    if !(i >= 8 || i >= planes.len() || planes[i as int].stride == 0) {
        lemma_count_at_most_len(planes, i + 1);
    }
}

} // verus!
