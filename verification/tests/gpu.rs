use pipewire_capture::gpu::{
    config_attributes, context_attributes, spa_format_to_drm, warmup_pixels, GpuFrameImporter,
    GpuReply, GpuSetup, ImportAction, ImportEvent, ImportRequest, DRM_FORMAT_ABGR8888,
    DRM_FORMAT_ARGB8888, DRM_FORMAT_BGRA8888, DRM_FORMAT_BGRX8888, DRM_FORMAT_RGBA8888,
    DRM_FORMAT_RGBX8888, DRM_FORMAT_XBGR8888, DRM_FORMAT_XRGB8888, GL_FRAMEBUFFER_COMPLETE,
};

const BOTH: &str = "EGL_KHR_surfaceless_context EGL_EXT_image_dma_buf_import EGL_KHR_image";

fn request() -> ImportRequest {
    ImportRequest {
        dmabuf_fd: 9,
        width: 2,
        height: 3,
        stride: 256,
        format: DRM_FORMAT_XRGB8888,
    }
}

fn message_of(setup: GpuSetup) -> String {
    match setup {
        GpuSetup::Failed { message } => message,
        _ => panic!("the setup has not failed"),
    }
}

fn failure_of(action: ImportAction) -> String {
    match action {
        ImportAction::Fail(message) => message,
        _ => panic!("the import has not failed"),
    }
}

#[test]
fn formats_map_to_their_codes() {
    for (spa_format, code) in [
        (7, Some(DRM_FORMAT_XBGR8888)),
        (8, Some(DRM_FORMAT_XRGB8888)),
        (9, Some(DRM_FORMAT_BGRX8888)),
        (10, Some(DRM_FORMAT_RGBX8888)),
        (11, Some(DRM_FORMAT_ABGR8888)),
        (12, Some(DRM_FORMAT_ARGB8888)),
        (13, Some(DRM_FORMAT_BGRA8888)),
        (14, Some(DRM_FORMAT_RGBA8888)),
        (0, None),
        (6, None),
        (15, None),
        (u32::MAX, None),
    ] {
        assert_eq!(spa_format_to_drm(spa_format), code);
    }
}

#[test]
fn codes_spell_their_names() {
    for (code, name) in [
        (DRM_FORMAT_XRGB8888, b"XR24"),
        (DRM_FORMAT_ARGB8888, b"AR24"),
        (DRM_FORMAT_XBGR8888, b"XB24"),
        (DRM_FORMAT_ABGR8888, b"AB24"),
        (DRM_FORMAT_RGBX8888, b"RX24"),
        (DRM_FORMAT_RGBA8888, b"RA24"),
        (DRM_FORMAT_BGRX8888, b"BX24"),
        (DRM_FORMAT_BGRA8888, b"BA24"),
    ] {
        assert_eq!(&code.to_le_bytes(), name);
    }
}

#[test]
fn setup_ends_with_a_warm_importer() {
    let mut setup = GpuSetup::LoadEgl;
    for _ in 0..3 {
        setup = setup.advance(GpuReply::Done);
    }
    assert!(matches!(setup, GpuSetup::QueryExtensions));
    setup = setup.advance(GpuReply::Extensions(BOTH.to_string()));
    assert!(matches!(setup, GpuSetup::BindApi));
    for _ in 0..8 {
        setup = setup.advance(GpuReply::Done);
    }
    assert!(matches!(setup, GpuSetup::GenerateObjects));
    setup = setup.advance(GpuReply::Objects {
        texture: 4,
        fbo: 5,
    });
    setup = setup.advance(GpuReply::Status(GL_FRAMEBUFFER_COMPLETE));
    assert!(matches!(
        setup,
        GpuSetup::ReadWarmUp {
            texture: 4,
            fbo: 5
        }
    ));
    setup = setup.advance(GpuReply::Done);
    assert!(matches!(
        setup,
        GpuSetup::Ready {
            texture: 4,
            fbo: 5
        }
    ));
}

#[test]
fn setup_needs_both_extensions() {
    let query = |names: &str| {
        GpuSetup::QueryExtensions.advance(GpuReply::Extensions(names.to_string()))
    };
    assert_eq!(
        message_of(query("EGL_KHR_surfaceless_context")),
        "EGL_EXT_image_dma_buf_import extension not supported"
    );
    assert_eq!(
        message_of(query("EGL_EXT_image_dma_buf_import")),
        "EGL_KHR_surfaceless_context extension not supported"
    );
    assert!(matches!(query(BOTH), GpuSetup::BindApi));
}

#[test]
fn failed_calls_are_reported() {
    for (setup, expected) in [
        (GpuSetup::LoadEgl, "Failed to load EGL: BadAlloc"),
        (GpuSetup::Initialize, "Failed to initialize EGL: BadAlloc"),
        (
            GpuSetup::QueryExtensions,
            "Failed to query EGL extensions: BadAlloc",
        ),
        (GpuSetup::BindApi, "Failed to bind OpenGL ES API: BadAlloc"),
        (
            GpuSetup::ChooseConfig,
            "Failed to choose EGL config: BadAlloc",
        ),
        (
            GpuSetup::CreateContext,
            "Failed to create EGL context: BadAlloc",
        ),
        (
            GpuSetup::MakeCurrent,
            "Failed to make EGL context current: BadAlloc",
        ),
    ] {
        assert_eq!(
            message_of(setup.advance(GpuReply::Failed("BadAlloc".to_string()))),
            expected
        );
    }
    for (setup, expected) in [
        (GpuSetup::GetDisplay, "No EGL display available"),
        (GpuSetup::ChooseConfig, "No suitable EGL config found"),
        (
            GpuSetup::ResolveCreateImage,
            "eglCreateImageKHR not available",
        ),
        (
            GpuSetup::ResolveDestroyImage,
            "eglDestroyImageKHR not available",
        ),
        (
            GpuSetup::ResolveImageTarget,
            "glEGLImageTargetTexture2DOES not available",
        ),
    ] {
        assert_eq!(message_of(setup.advance(GpuReply::Missing)), expected);
    }
    let warm = GpuSetup::WarmUp { texture: 1, fbo: 2 };
    let incomplete = warm.advance(GpuReply::Status(0x8CDD));
    assert!(matches!(incomplete, GpuSetup::DiscardWarmUp { .. }));
    assert_eq!(
        message_of(incomplete.advance(GpuReply::Done)),
        "Warmup framebuffer incomplete: 0x8CDD"
    );
    assert!(matches!(
        GpuSetup::LoadGl.advance(GpuReply::Missing),
        GpuSetup::LoadGl
    ));
}

#[test]
fn attributes_ask_for_a_surfaceless_es2_context() {
    assert_eq!(config_attributes(), [0x3040, 4, 0x3033, 0, 0x3038]);
    assert_eq!(context_attributes(), [0x3098, 2, 0x3038]);
    assert_eq!(warmup_pixels(), vec![0u8; 64 * 64 * 4]);
}

#[test]
fn an_import_reads_the_pixels_back() {
    let mut importer = GpuFrameImporter::new(4, 5);
    assert_eq!((importer.texture, importer.fbo), (4, 5));
    match importer.import_frame(&request(), ImportEvent::Begin) {
        ImportAction::CreateImage(attributes) => assert_eq!(
            attributes,
            [
                0x3057, 2, 0x3056, 3, 0x3271, 0x34325258, 0x3272, 9, 0x3273, 0, 0x3274, 256,
                0x3038
            ]
        ),
        _ => panic!("no image was asked for"),
    }
    let created = importer.import_frame(&request(), ImportEvent::ImageCreated { is_null: false });
    assert!(matches!(created, ImportAction::AttachImage));
    let attached = importer.import_frame(
        &request(),
        ImportEvent::ImageAttached {
            status: GL_FRAMEBUFFER_COMPLETE,
        },
    );
    assert!(matches!(attached, ImportAction::ReadPixels));
    assert_eq!(importer.pixel_buffer, vec![0; 24]);
    for (i, pixel) in importer.pixel_buffer.iter_mut().enumerate() {
        *pixel = i as u8;
    }
    match importer.import_frame(&request(), ImportEvent::PixelsRead { error: 0 }) {
        ImportAction::Return(pixels) => assert_eq!(pixels, (0..24).collect::<Vec<u8>>()),
        _ => panic!("no pixels were returned"),
    }

    // A smaller frame cuts the storage.
    let smaller = ImportRequest {
        width: 1,
        height: 1,
        ..request()
    };
    importer.import_frame(
        &smaller,
        ImportEvent::ImageAttached {
            status: GL_FRAMEBUFFER_COMPLETE,
        },
    );
    assert_eq!(importer.pixel_buffer, vec![0, 1, 2, 3]);
}

#[test]
fn large_values_keep_their_bits_as_attributes() {
    let mut importer = GpuFrameImporter::new(1, 1);
    let large = ImportRequest {
        stride: u32::MAX,
        ..request()
    };
    match importer.import_frame(&large, ImportEvent::Begin) {
        ImportAction::CreateImage(attributes) => assert_eq!(attributes[11], -1),
        _ => panic!("no image was asked for"),
    }
}

#[test]
fn a_failed_import_says_why() {
    let mut importer = GpuFrameImporter::new(4, 5);
    let mut fail = |event| failure_of(importer.import_frame(&request(), event));
    assert_eq!(
        fail(ImportEvent::ImageCreated { is_null: true }),
        "Failed to create EGLImage from DMA buffer"
    );
    assert_eq!(
        fail(ImportEvent::ImageAttached { status: 0x8CD6 }),
        "Framebuffer incomplete: 0x8CD6"
    );
    assert_eq!(
        fail(ImportEvent::PixelsRead { error: 0x502 }),
        "OpenGL error: 0x502"
    );
}

#[test]
fn zero_names_no_object_to_delete() {
    assert_eq!(
        GpuFrameImporter::new(4, 5).objects_to_delete(),
        (Some(5), Some(4))
    );
    assert_eq!(
        GpuFrameImporter::new(0, 0).objects_to_delete(),
        (None, None)
    );
}

#[test]
fn a_created_image_is_attached_once() {
    for (is_null, status, attachments) in [
        (true, GL_FRAMEBUFFER_COMPLETE, 0),
        (false, 0x8CD6, 1),
        (false, GL_FRAMEBUFFER_COMPLETE, 1),
    ] {
        let mut importer = GpuFrameImporter::new(4, 5);
        let mut event = ImportEvent::Begin;
        let mut attached = 0;
        loop {
            event = match importer.import_frame(&request(), event) {
                ImportAction::CreateImage(_) => ImportEvent::ImageCreated { is_null },
                ImportAction::AttachImage => {
                    attached += 1;
                    ImportEvent::ImageAttached { status }
                }
                ImportAction::ReadPixels => ImportEvent::PixelsRead { error: 0 },
                ImportAction::Return(pixels) => {
                    assert_eq!(pixels.len(), 24);
                    break;
                }
                ImportAction::Fail(_) => break,
            };
        }
        assert_eq!(attached, attachments);
    }
}
