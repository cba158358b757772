use pipewire_capture::frame::{
    copy_frame, fill_frame, plan_frame, reserved_storage, FrameFormat,
};
use pipewire_capture::spa;
use pipewire_capture::spa::Chunk;

fn format(pixel_format: u32) -> FrameFormat {
    FrameFormat {
        width: 1,
        height: 2,
        pixel_format,
    }
}

fn chunk() -> Chunk {
    Chunk {
        offset: 0,
        size: 8,
        stride: 4,
        flags: 0,
    }
}

#[test]
fn copies_padded_rows_from_nonzero_offset_without_padding() {
    let memory = [99, 99, 3, 2, 1, 255, 88, 88, 6, 5, 4, 128, 77, 77];
    let chunk = Chunk {
        offset: 2,
        size: 12,
        stride: 6,
        flags: 0,
    };
    assert_eq!(
        copy_frame(&memory, &chunk, format(spa::SPA_VIDEO_FORMAT_BGRA))
            .unwrap()
            .unwrap(),
        [3, 2, 1, 255, 6, 5, 4, 128]
    );
}

#[test]
fn normalizes_all_negotiated_formats_to_bgra() {
    for (pixel_format, expected) in [
        (spa::SPA_VIDEO_FORMAT_BGRA, vec![1, 2, 3, 4, 5, 6, 7, 8]),
        (spa::SPA_VIDEO_FORMAT_BGRX, vec![1, 2, 3, 255, 5, 6, 7, 255]),
        (spa::SPA_VIDEO_FORMAT_RGBA, vec![3, 2, 1, 4, 7, 6, 5, 8]),
        (spa::SPA_VIDEO_FORMAT_RGBX, vec![3, 2, 1, 255, 7, 6, 5, 255]),
    ] {
        assert_eq!(
            copy_frame(&[1, 2, 3, 4, 5, 6, 7, 8], &chunk(), format(pixel_format))
                .unwrap()
                .unwrap(),
            expected
        );
    }
}

#[test]
fn rejects_truncated_rows_and_invalid_strides() {
    let memory = [0; 8];
    for invalid in [
        Chunk { size: 7, ..chunk() },
        Chunk {
            offset: 1,
            ..chunk()
        },
        Chunk {
            stride: 3,
            ..chunk()
        },
        Chunk {
            stride: -4,
            ..chunk()
        },
        Chunk {
            stride: i32::MAX,
            size: u32::MAX,
            ..chunk()
        },
    ] {
        assert!(copy_frame(&memory, &invalid, format(spa::SPA_VIDEO_FORMAT_BGRA)).is_err());
    }
}

#[test]
fn handles_spa_offset_and_size_rules() {
    let memory = [1; 8];
    let chunk = Chunk {
        offset: 8,
        size: u32::MAX,
        ..chunk()
    };
    assert_eq!(
        copy_frame(&memory, &chunk, format(spa::SPA_VIDEO_FORMAT_BGRA))
            .unwrap()
            .unwrap(),
        memory
    );
}

#[test]
fn ignores_empty_and_corrupted_chunks() {
    for chunk in [
        Chunk { size: 0, ..chunk() },
        Chunk {
            flags: spa::SPA_CHUNK_FLAG_CORRUPTED as i32,
            ..chunk()
        },
        Chunk {
            flags: spa::SPA_CHUNK_FLAG_EMPTY as i32,
            ..chunk()
        },
    ] {
        assert!(copy_frame(&[], &chunk, format(spa::SPA_VIDEO_FORMAT_BGRA))
            .unwrap()
            .is_none());
    }
}

#[test]
fn rejects_invalid_dimensions_and_formats() {
    for invalid in [
        FrameFormat {
            width: 0,
            ..format(spa::SPA_VIDEO_FORMAT_BGRA)
        },
        FrameFormat {
            width: u32::MAX,
            height: u32::MAX,
            ..format(spa::SPA_VIDEO_FORMAT_BGRA)
        },
        format(spa::SPA_VIDEO_FORMAT_UNKNOWN),
    ] {
        assert!(copy_frame(&[0; 8], &chunk(), invalid).is_err());
    }
}

#[test]
fn every_rejection_has_its_reason() {
    let bgra = format(spa::SPA_VIDEO_FORMAT_BGRA);
    let tall = FrameFormat {
        width: u32::MAX,
        height: u32::MAX,
        ..bgra
    };
    for (memory_len, chunk, layout, reason) in [
        (0, chunk(), bgra, "Empty video buffer or dimensions"),
        (
            8,
            chunk(),
            FrameFormat { height: 0, ..bgra },
            "Empty video buffer or dimensions",
        ),
        (
            8,
            chunk(),
            format(spa::SPA_VIDEO_FORMAT_ARGB),
            "Unsupported packed video format",
        ),
        (
            8,
            Chunk {
                stride: -1,
                ..chunk()
            },
            bgra,
            "Negative video stride is unsupported",
        ),
        (
            8,
            Chunk {
                stride: 3,
                ..chunk()
            },
            bgra,
            "Video stride is shorter than a row",
        ),
        (
            8,
            Chunk {
                stride: 0,
                ..chunk()
            },
            tall,
            "Video buffer size overflow",
        ),
        (
            7,
            chunk(),
            bgra,
            "Video chunk extends beyond the mapped buffer",
        ),
        (
            9,
            Chunk {
                offset: 2,
                ..chunk()
            },
            bgra,
            "Video chunk extends beyond the mapped buffer",
        ),
    ] {
        assert_eq!(plan_frame(memory_len, &chunk, layout).err(), Some(reason));
    }
}

#[test]
fn a_plan_gives_the_layout_of_the_frame() {
    let plan = plan_frame(
        40,
        &Chunk {
            offset: 45,
            size: 100,
            stride: 12,
            flags: 0,
        },
        FrameFormat {
            width: 2,
            height: 3,
            pixel_format: spa::SPA_VIDEO_FORMAT_RGBX,
        },
    )
    .unwrap()
    .unwrap();
    assert_eq!(plan.offset, 5);
    assert_eq!(plan.stride, 12);
    assert_eq!(plan.row_bytes, 8);
    assert_eq!(plan.rows, 3);
    assert_eq!(plan.frame_len, 24);
    assert!(plan.swap_red_blue);
    assert!(plan.opaque);
}

#[test]
fn a_frame_without_storage_is_refused() {
    let plan = plan_frame(8, &chunk(), format(spa::SPA_VIDEO_FORMAT_BGRA))
        .unwrap()
        .unwrap();
    assert_eq!(
        fill_frame(&[1, 2, 3, 4, 5, 6, 7, 8], &plan, None),
        Err("Could not allocate video frame")
    );
    assert_eq!(
        fill_frame(&[1, 2, 3, 4, 5, 6, 7, 8], &plan, Some(Vec::new())),
        Ok(Some(vec![1, 2, 3, 4, 5, 6, 7, 8]))
    );
}

#[test]
fn storage_is_there_where_its_room_was_given() {
    let mut bytes: Vec<u8> = Vec::new();
    let given = bytes.try_reserve_exact(8);
    assert_eq!(reserved_storage(bytes, given), Some(Vec::new()));

    let mut bytes: Vec<u8> = Vec::new();
    let refused = bytes.try_reserve_exact(usize::MAX);
    assert!(refused.is_err());
    assert_eq!(reserved_storage(bytes, refused), None);
}

#[test]
fn frame_len_counts_four_bytes_to_a_pixel() {
    let full_hd = FrameFormat {
        width: 1920,
        height: 1080,
        pixel_format: spa::SPA_VIDEO_FORMAT_BGRX,
    };
    assert_eq!(full_hd.frame_len(), Some(8294400));
    let huge = FrameFormat {
        width: u32::MAX,
        height: u32::MAX,
        pixel_format: spa::SPA_VIDEO_FORMAT_BGRX,
    };
    assert_eq!(huge.frame_len(), None);
    assert_eq!(FrameFormat { width: 0, ..huge }.frame_len(), Some(0));
}

#[test]
fn padding_has_no_bearing_on_a_frame() {
    let chunk = Chunk {
        stride: 6,
        size: 12,
        ..chunk()
    };
    let one = [1, 2, 3, 4, 0, 0, 5, 6, 7, 8, 0, 0];
    let other = [1, 2, 3, 4, 9, 9, 5, 6, 7, 8, 9, 9];
    assert_eq!(
        copy_frame(&one, &chunk, format(spa::SPA_VIDEO_FORMAT_RGBA)),
        copy_frame(&other, &chunk, format(spa::SPA_VIDEO_FORMAT_RGBA))
    );

    // Nor has the fourth byte of a pixel where it is unused.
    let unused = [1, 2, 3, 99, 9, 9, 5, 6, 7, 98, 9, 9];
    assert_eq!(
        copy_frame(&one, &chunk, format(spa::SPA_VIDEO_FORMAT_BGRX)),
        copy_frame(&unused, &chunk, format(spa::SPA_VIDEO_FORMAT_BGRX))
    );
    assert_ne!(
        copy_frame(&one, &chunk, format(spa::SPA_VIDEO_FORMAT_BGRA)),
        copy_frame(&unused, &chunk, format(spa::SPA_VIDEO_FORMAT_BGRA))
    );
}

#[test]
fn a_zero_stride_is_a_tight_one() {
    let memory = [1, 2, 3, 4, 5, 6, 7, 8];
    let loose = Chunk {
        stride: 0,
        ..chunk()
    };
    assert_eq!(
        copy_frame(&memory, &loose, format(spa::SPA_VIDEO_FORMAT_RGBX)),
        copy_frame(&memory, &chunk(), format(spa::SPA_VIDEO_FORMAT_RGBX))
    );
}

#[test]
fn a_copied_frame_is_its_own_copy() {
    let memory = [1, 2, 3, 4, 5, 6, 7, 8];
    let frame = copy_frame(&memory, &chunk(), format(spa::SPA_VIDEO_FORMAT_RGBX))
        .unwrap()
        .unwrap();
    let again = copy_frame(&frame, &chunk(), format(spa::SPA_VIDEO_FORMAT_BGRA))
        .unwrap()
        .unwrap();
    assert_eq!(again, frame);
}

#[test]
fn other_flags_do_not_hide_a_frame() {
    let marked = Chunk {
        flags: 4,
        ..chunk()
    };
    assert!(
        copy_frame(&[0; 8], &marked, format(spa::SPA_VIDEO_FORMAT_BGRA))
            .unwrap()
            .is_some()
    );
    let both = Chunk {
        flags: -1,
        ..chunk()
    };
    assert!(copy_frame(&[0; 8], &both, format(spa::SPA_VIDEO_FORMAT_BGRA))
        .unwrap()
        .is_none());
}
