use video_frame::chroma::Location;
use video_frame::color::{Primaries, Range, Space, TransferCharacteristic};
use video_frame::component::Component;
use video_frame::format::Pixel;
use video_frame::picture::Type;
use video_frame::rational::Rational;
use video_frame::video::{FrameError, Video, MAX_PLANES};

fn fill(frame: &mut Video) {
    for i in 0..frame.planes() {
        let bytes = frame.data_mut(i).unwrap();
        for (j, b) in bytes.iter_mut().enumerate() {
            *b = (j * 7 + i * 13) as u8;
        }
    }
}

#[test]
fn new_reports_format_and_size() {
    let cases = [
        (Pixel::YUV420P, 3),
        (Pixel::YUV422P, 3),
        (Pixel::YUV444P, 3),
        (Pixel::NV12, 2),
        (Pixel::GRAY8, 1),
        (Pixel::RGB24, 1),
        (Pixel::BGR24, 1),
        (Pixel::RGBA, 1),
        (Pixel::ZBGR, 1),
    ];
    for (format, planes) in cases {
        let frame = Video::new(format, 5, 3);
        assert_eq!(frame.format(), Some(format));
        assert_eq!(frame.width(), 5);
        assert_eq!(frame.height(), 3);
        assert_eq!(frame.planes(), planes);
        assert!(frame.planes() <= MAX_PLANES);
        assert_eq!(frame.data().len(), planes);
    }
}

#[test]
fn planar_strides_round_chroma_up() {
    let frame = Video::new(Pixel::YUV420P, 5, 3);
    let data = frame.data();
    assert_eq!(data[0].len(), 5 * 3);
    assert_eq!(data[1].len(), 3 * 3);
    assert_eq!(data[2].len(), 3 * 3);
    let nv = Video::new(Pixel::NV12, 5, 2);
    let data = nv.data();
    assert_eq!(data[0].len(), 5 * 2);
    assert_eq!(data[1].len(), 6 * 2);
    let rgb = Video::new(Pixel::RGB24, 5, 2);
    assert_eq!(rgb.data()[0].len(), 15 * 2);
}

#[test]
fn zero_size_lays_out_no_planes() {
    let frame = Video::new(Pixel::RGBA, 0, 4);
    assert_eq!(frame.planes(), 0);
    assert_eq!(frame.format(), Some(Pixel::RGBA));
    let frame = Video::new(Pixel::RGBA, 4, 0);
    assert_eq!(frame.planes(), 0);
    assert!(frame.data().is_empty());
}

#[test]
fn empty_frame_has_no_format() {
    let frame = Video::empty();
    assert_eq!(frame.format(), None);
    assert_eq!(frame.width(), 0);
    assert_eq!(frame.height(), 0);
    assert_eq!(frame.planes(), 0);
    assert!(frame.data().is_empty());
    assert_eq!(frame.color_space(), Space(2));
    assert_eq!(frame.aspect_ratio(), Rational(0, 1));
}

#[test]
fn allocate_twice_is_refused() {
    let mut frame = Video::empty();
    assert_eq!(frame.allocate(Pixel::GRAY8, 2, 2), Ok(()));
    assert_eq!(frame.allocate(Pixel::RGBA, 8, 8), Err(FrameError::AlreadyAllocated));
    assert_eq!(frame.format(), Some(Pixel::GRAY8));
    assert_eq!(frame.width(), 2);
    assert_eq!(frame.data()[0].len(), 4);
}

#[test]
fn allocate_after_zero_size_is_accepted() {
    let mut frame = Video::new(Pixel::GRAY8, 0, 0);
    assert_eq!(frame.allocate(Pixel::RGB24, 2, 1), Ok(()));
    assert_eq!(frame.planes(), 1);
    assert_eq!(frame.data()[0].len(), 6);
}

#[test]
fn clone_copies_pixels_and_metadata() {
    let mut frame = Video::new(Pixel::YUV420P, 6, 4);
    fill(&mut frame);
    frame.set_color_space(Space(1));
    frame.set_color_range(Range(2));
    frame.set_color_primaries(Primaries(9));
    frame.set_color_transfer_characteristic(TransferCharacteristic(16));
    let copy = frame.clone();
    assert_eq!(copy.data(), frame.data());
    assert_eq!(copy.format(), frame.format());
    assert_eq!(copy.width(), frame.width());
    assert_eq!(copy.height(), frame.height());
    assert_eq!(copy.kind(), frame.kind());
    assert_eq!(copy.is_interlaced(), frame.is_interlaced());
    assert_eq!(copy.is_top_first(), frame.is_top_first());
    assert_eq!(copy.has_palette_changed(), frame.has_palette_changed());
    assert_eq!(copy.color_space(), Space(1));
    assert_eq!(copy.color_range(), Range(2));
    assert_eq!(copy.color_primaries(), Primaries(9));
    assert_eq!(copy.color_transfer_characteristic(), TransferCharacteristic(16));
    assert_eq!(copy.chroma_location(), frame.chroma_location());
    assert_eq!(copy.aspect_ratio(), frame.aspect_ratio());
    assert_eq!(copy.coded_number(), frame.coded_number());
    assert_eq!(copy.display_number(), frame.display_number());
    assert_eq!(copy.repeat_pict(), frame.repeat_pict());
}

#[test]
fn clone_is_independent() {
    let mut frame = Video::new(Pixel::GRAY8, 2, 2);
    let copy = frame.duplicate();
    frame.data_mut(0).unwrap()[0] = 9;
    assert_eq!(copy.data()[0], &[0u8, 0, 0, 0][..]);
    assert_eq!(frame.data()[0][0], 9);
}

#[test]
fn copy_from_matching_frame() {
    let mut source = Video::new(Pixel::RGB24, 3, 2);
    fill(&mut source);
    source.set_color_range(Range(1));
    let mut target = Video::new(Pixel::RGB24, 3, 2);
    assert_eq!(target.copy_from(&source), Ok(()));
    assert_eq!(target.data(), source.data());
    assert_eq!(target.color_range(), Range(1));
}

#[test]
fn copy_from_mismatched_frame_is_refused() {
    let mut source = Video::new(Pixel::RGB24, 3, 2);
    fill(&mut source);
    source.set_color_range(Range(1));
    let mut target = Video::new(Pixel::RGB24, 3, 3);
    assert_eq!(target.copy_from(&source), Err(FrameError::IncompatibleCopyTarget));
    assert_eq!(target.color_range(), Range(0));
    assert!(target.data()[0].iter().all(|b| *b == 0));
    let mut other = Video::new(Pixel::BGR24, 3, 2);
    assert_eq!(other.copy_from(&source), Err(FrameError::IncompatibleCopyTarget));
    let mut resized = Video::new(Pixel::RGB24, 3, 2);
    resized.set_width(4);
    resized.set_width(3);
    resized.set_height(2);
    assert_eq!(resized.copy_from(&source), Ok(()));
}

#[test]
fn quad_view_refused_on_gray_frame() {
    let frame = Video::new(Pixel::GRAY8, 4, 4);
    assert_eq!(frame.plane::<[u8; 4]>(0), Err(FrameError::IncompatibleFormat));
    assert_eq!(frame.plane::<(u8, u8, u8, u8)>(0), Err(FrameError::IncompatibleFormat));
    assert_eq!(frame.plane::<[u8; 3]>(0), Err(FrameError::IncompatibleFormat));
    let mut frame = frame;
    assert_eq!(frame.plane_mut::<[u8; 4]>(0), Err(FrameError::IncompatibleFormat));
}

#[test]
fn gray_byte_view_and_write_through() {
    let mut frame = Video::new(Pixel::GRAY8, 3, 2);
    let view = frame.plane::<u8>(0).unwrap();
    assert_eq!(view.len(), 3 * 2);
    {
        let bytes = frame.plane_mut::<u8>(0).unwrap();
        assert_eq!(bytes.len(), 6);
        bytes.copy_from_slice(&[1, 2, 3, 4, 5, 6]);
    }
    assert_eq!(frame.data()[0], &[1u8, 2, 3, 4, 5, 6][..]);
    assert_eq!(frame.plane::<u8>(0).unwrap(), vec![1u8, 2, 3, 4, 5, 6]);
}

#[test]
fn index_at_plane_count_is_out_of_range() {
    for format in [Pixel::GRAY8, Pixel::YUV420P, Pixel::NV12] {
        let mut frame = Video::new(format, 4, 2);
        let n = frame.planes();
        assert_eq!(frame.plane::<u8>(n), Err(FrameError::IndexOutOfRange));
        assert_ne!(frame.plane::<u8>(n - 1), Err(FrameError::IndexOutOfRange));
        assert_eq!(frame.data_mut(n).err(), Some(FrameError::IndexOutOfRange));
        assert_eq!(frame.plane_mut::<u8>(n).err(), Some(FrameError::IndexOutOfRange));
    }
    let empty = Video::empty();
    assert_eq!(empty.plane::<u8>(0), Err(FrameError::IndexOutOfRange));
}

#[test]
fn rgba_four_by_two() {
    let frame = Video::new(Pixel::RGBA, 4, 2);
    assert_eq!(frame.planes(), 1);
    let stride = frame.data()[0].len() / 2;
    assert!(stride >= 16);
    let pixels = frame.plane::<[u8; 4]>(0).unwrap();
    assert_eq!(pixels.len(), stride * 2 / 4);
    assert_eq!(pixels.len(), 8);
}

#[test]
fn typed_views_group_bytes_in_order() {
    let mut frame = Video::new(Pixel::RGB24, 2, 1);
    frame.data_mut(0).unwrap().copy_from_slice(&[1, 2, 3, 4, 5, 6]);
    assert_eq!(frame.plane::<[u8; 3]>(0).unwrap(), vec![[1, 2, 3], [4, 5, 6]]);
    assert_eq!(frame.plane::<(u8, u8, u8)>(0).unwrap(), vec![(1, 2, 3), (4, 5, 6)]);
    let mut quad = Video::new(Pixel::BGRA, 1, 2);
    quad.data_mut(0).unwrap().copy_from_slice(&[9, 8, 7, 6, 5, 4, 3, 2]);
    assert_eq!(quad.plane::<(u8, u8, u8, u8)>(0).unwrap(), vec![(9, 8, 7, 6), (5, 4, 3, 2)]);
    assert_eq!(quad.plane::<[u8; 4]>(0).unwrap(), vec![[9, 8, 7, 6], [5, 4, 3, 2]]);
}

#[test]
fn misaligned_plane_is_refused() {
    let mut frame = Video::new(Pixel::GRAY8, 3, 1);
    frame.set_format(Pixel::RGBA);
    assert_eq!(frame.plane::<[u8; 4]>(0), Err(FrameError::MisalignedPlaneSize));
    assert_eq!(frame.plane_mut::<[u8; 4]>(0).err(), Some(FrameError::MisalignedPlaneSize));
}

#[test]
fn setters_do_not_resize_storage() {
    let mut frame = Video::new(Pixel::GRAY8, 2, 2);
    frame.set_width(10);
    frame.set_height(10);
    frame.set_format(Pixel::RGB24);
    assert_eq!(frame.width(), 10);
    assert_eq!(frame.height(), 10);
    assert_eq!(frame.format(), Some(Pixel::RGB24));
    assert_eq!(frame.data()[0].len(), 4);
}

#[test]
fn metadata_defaults_and_setters() {
    let mut frame = Video::new(Pixel::GRAY8, 1, 1);
    assert_eq!(frame.kind(), Type(0));
    assert!(!frame.is_interlaced());
    assert!(!frame.is_top_first());
    assert!(!frame.has_palette_changed());
    assert_eq!(frame.color_range(), Range(0));
    assert_eq!(frame.color_primaries(), Primaries(2));
    assert_eq!(frame.color_transfer_characteristic(), TransferCharacteristic(2));
    assert_eq!(frame.chroma_location(), Location(0));
    assert_eq!(frame.coded_number(), 0);
    assert_eq!(frame.display_number(), 0);
    assert_eq!(frame.repeat_pict(), 0);
    frame.set_color_space(Space(5));
    assert_eq!(frame.color_space(), Space(5));
    assert_eq!(frame.color_range(), Range(0));
    assert_eq!(frame.aspect_ratio().numerator(), 0);
    assert_eq!(frame.aspect_ratio().denominator(), 1);
}

#[test]
fn component_compatibility() {
    assert!(<u8 as Component>::is_valid(Pixel::GRAY8));
    assert!(!<u8 as Component>::is_valid(Pixel::RGB24));
    assert!(<[u8; 3] as Component>::is_valid(Pixel::BGR24));
    assert!(!<[u8; 3] as Component>::is_valid(Pixel::RGBA));
    for f in [
        Pixel::RGBA, Pixel::BGRA, Pixel::ARGB, Pixel::ABGR,
        Pixel::RGBZ, Pixel::BGRZ, Pixel::ZRGB, Pixel::ZBGR,
    ] {
        assert!(<[u8; 4] as Component>::is_valid(f));
        assert!(<(u8, u8, u8, u8) as Component>::is_valid(f));
    }
    assert!(!<[u8; 4] as Component>::is_valid(Pixel::YUV420P));
    assert_eq!(<(u8, u8, u8) as Component>::size(), 3);
    assert_eq!(<[u8; 4] as Component>::read(&[0, 1, 2, 3, 4], 1), [1, 2, 3, 4]);
}

#[test]
fn row_bytes_per_format() {
    assert_eq!(Pixel::YUV420P.row_bytes(0, 7), 7);
    assert_eq!(Pixel::YUV420P.row_bytes(1, 7), 4);
    assert_eq!(Pixel::YUV444P.row_bytes(2, 7), 7);
    assert_eq!(Pixel::NV12.row_bytes(1, 7), 8);
    assert_eq!(Pixel::RGB24.row_bytes(0, 7), 21);
    assert_eq!(Pixel::ARGB.row_bytes(0, 7), 28);
    assert_eq!(Pixel::ARGB.row_bytes(1, 7), 0);
    assert_eq!(Pixel::NV12.plane_count(), 2);
}

#[test]
fn image_pixels_as_components() {
    let mut rgb = Video::new(Pixel::RGB24, 2, 1);
    rgb.data_mut(0).unwrap().copy_from_slice(&[1, 2, 3, 4, 5, 6]);
    assert_eq!(
        rgb.plane::<image::Rgb<u8>>(0).unwrap(),
        vec![image::Rgb([1, 2, 3]), image::Rgb([4, 5, 6])]
    );
    assert_eq!(rgb.plane::<image::Rgba<u8>>(0), Err(FrameError::IncompatibleFormat));
    let bgr = Video::new(Pixel::BGR24, 2, 1);
    assert_eq!(bgr.plane::<image::Rgb<u8>>(0), Err(FrameError::IncompatibleFormat));
    let mut rgba = Video::new(Pixel::RGBA, 1, 1);
    rgba.data_mut(0).unwrap().copy_from_slice(&[7, 8, 9, 10]);
    assert_eq!(rgba.plane::<image::Rgba<u8>>(0).unwrap(), vec![image::Rgba([7, 8, 9, 10])]);
    assert_eq!(
        Video::new(Pixel::BGRA, 1, 1).plane::<image::Rgba<u8>>(0),
        Err(FrameError::IncompatibleFormat)
    );
    let mut gray = Video::new(Pixel::GRAY8, 2, 1);
    gray.data_mut(0).unwrap().copy_from_slice(&[42, 43]);
    assert_eq!(
        gray.plane::<image::Luma<u8>>(0).unwrap(),
        vec![image::Luma([42]), image::Luma([43])]
    );
}
