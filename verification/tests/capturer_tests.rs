use rusty_duplication::{
    copy_pixels, readable_texture_desc, shared_memory_name, Capturer, Error, FrameInfo,
    FrameInfoExt, OutDuplDesc, OutputDesc, Rect, CPU_ACCESS_READ, FORMAT_B8G8R8A8_UNORM,
    USAGE_STAGING,
};

fn desc(width: u32, height: u32, rotation: u32) -> (OutDuplDesc, OutputDesc) {
    (
        OutDuplDesc { mode_width: width, mode_height: height, rotation },
        OutputDesc {
            desktop_coordinates: Rect {
                left: 0,
                top: 0,
                right: width as i32,
                bottom: height as i32,
            },
            rotation,
        },
    )
}

#[test]
fn allocate_full_hd_buffer_length() {
    let (d, o) = desc(1920, 1080, 1);
    let capturer = Capturer::allocate(&d, &o).unwrap();
    assert_eq!(capturer.buffer.len(), 8_294_400);
    assert!(capturer.buffer.iter().all(|b| *b == 0));
    assert_eq!(capturer.timeout_ms, 300);
    assert!(capturer.pointer_shape_buffer.is_empty());
    assert!(capturer.check_buffer(&d).is_ok());
}

#[test]
fn texture_desc_fixed_parameters() {
    let (d, o) = desc(1920, 1080, 1);
    let t = readable_texture_desc(&d, &o);
    assert_eq!(t.width, 1920);
    assert_eq!(t.height, 1080);
    assert_eq!(t.format, FORMAT_B8G8R8A8_UNORM);
    assert_eq!(t.format, 87);
    assert_eq!(t.usage, USAGE_STAGING);
    assert_eq!(t.usage, 3);
    assert_eq!(t.cpu_access_flags, CPU_ACCESS_READ);
    assert_eq!(t.cpu_access_flags, 0x20000);
    assert_eq!(t.bind_flags, 0);
    assert_eq!(t.misc_flags, 0);
    assert_eq!(t.mip_levels, 1);
    assert_eq!(t.array_size, 1);
    assert_eq!(t.sample_count, 1);
    assert_eq!(t.sample_quality, 0);
}

#[test]
fn texture_desc_rotation_swaps_dimensions() {
    for rotation in [0u32, 1, 3] {
        let (d, o) = desc(1920, 1080, rotation);
        let t = readable_texture_desc(&d, &o);
        assert_eq!((t.width, t.height), (1920, 1080), "rotation {rotation}");
    }
    for rotation in [2u32, 4] {
        let (d, o) = desc(1920, 1080, rotation);
        let t = readable_texture_desc(&d, &o);
        assert_eq!((t.width, t.height), (1080, 1920), "rotation {rotation}");
    }
}

#[test]
fn check_buffer_boundary() {
    let (d, o) = desc(4, 2, 1);
    let capturer = Capturer::allocate(&d, &o).unwrap();
    assert_eq!(capturer.buffer.len(), 32);
    assert!(capturer.check_buffer(&d).is_ok());

    // one more pixel column and the same buffer is too small
    let bigger = OutDuplDesc { mode_width: 5, mode_height: 2, rotation: 1 };
    assert_eq!(
        capturer.check_buffer(&bigger).unwrap_err(),
        Error::InvalidBufferLength
    );
}

#[test]
fn factory_error_is_returned() {
    let (d, o) = desc(4, 2, 1);
    let r: Result<Capturer<Vec<u8>>, Error> =
        Capturer::new(&d, &o, |_size| Err(Error::NoOutput));
    assert_eq!(r.unwrap_err(), Error::NoOutput);
}

#[test]
fn factory_receives_required_size() {
    let (d, o) = desc(7, 3, 1);
    let mut seen = 0usize;
    let capturer = Capturer::new(&d, &o, |size| {
        seen = size;
        Ok(vec![0u8; size])
    })
    .unwrap();
    assert_eq!(seen, 7 * 3 * 4);
    assert_eq!(capturer.buffer.len(), 7 * 3 * 4);
}

/// The packed 2x2 BGRA test image: four pixels of distinct bytes.
fn packed_image() -> Vec<u8> {
    (0u8..16).collect()
}

/// The same image laid out with `pitch` bytes per row (pitch >= 8),
/// padding filled with 0xEE.
fn padded_image(pitch: usize) -> Vec<u8> {
    let packed = packed_image();
    let mut v = vec![0xEEu8; pitch * 2];
    v[..8].copy_from_slice(&packed[..8]);
    v[pitch..pitch + 8].copy_from_slice(&packed[8..]);
    v
}

#[test]
fn copy_fast_and_slow_paths_agree() {
    // pitch == width * 4: fast path
    let contiguous = padded_image(8);
    let mut fast = vec![0u8; 16];
    copy_pixels(&contiguous, 8, 2, 2, &mut fast);

    // pitch > width * 4: row-by-row path over the padded layout
    let padded = padded_image(12);
    let mut slow = vec![0u8; 16];
    copy_pixels(&padded, 12, 2, 2, &mut slow);

    assert_eq!(fast, slow);
    assert_eq!(fast, packed_image());
}

#[test]
fn copy_leaves_trailing_bytes() {
    let padded = padded_image(16);
    let mut dest = vec![0x55u8; 20];
    copy_pixels(&padded, 16, 2, 2, &mut dest);
    assert_eq!(&dest[..16], packed_image().as_slice());
    assert_eq!(&dest[16..], &[0x55u8; 4]);
}

#[test]
fn store_frame_copies_into_buffer() {
    let (d, o) = desc(2, 2, 1);
    let mut capturer = Capturer::new(&d, &o, |size| Ok(vec![0x77u8; size + 4])).unwrap();
    let padded = padded_image(12);
    capturer.store_frame(&padded, 12).unwrap();
    assert_eq!(&capturer.buffer[..16], packed_image().as_slice());
    assert_eq!(&capturer.buffer[16..], &[0x77u8; 4]);
}

#[test]
fn store_frame_rejects_small_buffer() {
    let (d, o) = desc(2, 2, 1);
    let mut capturer = Capturer::new(&d, &o, |_size| Ok(vec![0u8; 8])).unwrap();
    let padded = padded_image(12);
    assert_eq!(
        capturer.store_frame(&padded, 12).unwrap_err(),
        Error::InvalidBufferLength
    );
    assert_eq!(capturer.buffer, vec![0u8; 8]);
}

#[test]
fn pointer_shape_buffer_never_shrinks() {
    let (d, o) = desc(2, 2, 1);
    let mut capturer = Capturer::allocate(&d, &o).unwrap();
    assert_eq!(capturer.pointer_shape_buffer.len(), 0);

    capturer.prepare_pointer_shape_buffer(10);
    assert_eq!(capturer.pointer_shape_buffer, vec![0u8; 10]);

    // pretend the platform filled the scratch buffer
    for (i, b) in capturer.pointer_shape_buffer.iter_mut().enumerate() {
        *b = i as u8 + 1;
    }

    // a smaller shape leaves the buffer untouched
    capturer.prepare_pointer_shape_buffer(4);
    assert_eq!(capturer.pointer_shape_buffer.len(), 10);
    assert_eq!(capturer.pointer_shape_buffer[9], 10);

    // a larger shape grows it, keeping the old bytes
    capturer.prepare_pointer_shape_buffer(12);
    assert_eq!(capturer.pointer_shape_buffer.len(), 12);
    assert_eq!(&capturer.pointer_shape_buffer[..10], &[1, 2, 3, 4, 5, 6, 7, 8, 9, 10]);
    assert_eq!(&capturer.pointer_shape_buffer[10..], &[0, 0]);
}

#[test]
fn full_hd_capture_scenario() {
    let (d, o) = desc(1920, 1080, 1);
    let mut capturer = Capturer::allocate(&d, &o).unwrap();
    assert_eq!(capturer.buffer.len(), 8_294_400);

    // a synthetic mapped frame, all pixels mid-gray
    let frame = vec![0x80u8; 1920 * 4 * 1080];
    capturer.store_frame(&frame, 1920 * 4).unwrap();

    let info = FrameInfo {
        last_present_time: 77,
        last_mouse_update_time: 0,
        pointer_shape_buffer_size: 0,
    };
    assert!(info.desktop_updated());
    assert!(!capturer.buffer.iter().all(|b| *b == 0));
}

#[test]
fn pointer_shape_fetch_decision() {
    // first frame reports a shape: the session fetches it
    let first = FrameInfo {
        last_present_time: 10,
        last_mouse_update_time: 10,
        pointer_shape_buffer_size: 64,
    };
    assert!(first.pointer_shape_updated());

    // second frame with no mouse movement: no fetch, no shape info
    let second = FrameInfo { last_present_time: 20, ..FrameInfo::default() };
    assert!(!second.mouse_updated().position_updated);
    assert!(!second.pointer_shape_updated());
}

#[test]
fn shared_memory_name_appends_nul() {
    let name = shared_memory_name(b"RustyDuplicationTest").unwrap();
    assert_eq!(&name[..name.len() - 1], b"RustyDuplicationTest");
    assert_eq!(*name.last().unwrap(), 0);
}

#[test]
fn shared_memory_name_rejects_interior_nul() {
    let e = shared_memory_name(b"bad\0name").unwrap_err();
    match e {
        Error::Windows { api, err } => {
            assert_eq!(api, "CString::new");
            assert_eq!(err.code, 0);
            assert_eq!(err.message, "nul byte found in provided data");
        }
        other => panic!("unexpected error: {:?}", other),
    }
}
