//! Import of DMA buffers through EGL: format codes, the order of the calls, and what fails.
use vstd::prelude::*;
use vstd::string::*;

use crate::spa::{
    Channel, SPA_VIDEO_FORMAT_ABGR, SPA_VIDEO_FORMAT_ARGB, SPA_VIDEO_FORMAT_BGRA,
    SPA_VIDEO_FORMAT_BGRX, SPA_VIDEO_FORMAT_RGBA, SPA_VIDEO_FORMAT_RGBX, SPA_VIDEO_FORMAT_XBGR,
    SPA_VIDEO_FORMAT_XRGB,
};
use crate::text::{append_hexadecimal, contains_text};

verus! {

/// DRM fourcc 'XR24'.
pub const DRM_FORMAT_XRGB8888: u32 = 0x34325258;

/// DRM fourcc 'AR24'.
pub const DRM_FORMAT_ARGB8888: u32 = 0x34325241;

/// DRM fourcc 'XB24'.
pub const DRM_FORMAT_XBGR8888: u32 = 0x34324258;

/// DRM fourcc 'AB24'.
pub const DRM_FORMAT_ABGR8888: u32 = 0x34324241;

/// DRM fourcc 'RX24'.
pub const DRM_FORMAT_RGBX8888: u32 = 0x34325852;

/// DRM fourcc 'RA24'.
pub const DRM_FORMAT_RGBA8888: u32 = 0x34324152;

/// DRM fourcc 'BX24'.
pub const DRM_FORMAT_BGRX8888: u32 = 0x34325842;

/// DRM fourcc 'BA24'.
pub const DRM_FORMAT_BGRA8888: u32 = 0x34324142;

/// `EGL_LINUX_DMA_BUF_EXT`: the target of an image that is imported from a DMA buffer.
pub const EGL_LINUX_DMA_BUF_EXT: u32 = 0x3270;

/// `EGL_LINUX_DRM_FOURCC_EXT`.
pub const EGL_LINUX_DRM_FOURCC_EXT: i32 = 0x3271;

/// `EGL_DMA_BUF_PLANE0_FD_EXT`.
pub const EGL_DMA_BUF_PLANE0_FD_EXT: i32 = 0x3272;

/// `EGL_DMA_BUF_PLANE0_OFFSET_EXT`.
pub const EGL_DMA_BUF_PLANE0_OFFSET_EXT: i32 = 0x3273;

/// `EGL_DMA_BUF_PLANE0_PITCH_EXT`.
pub const EGL_DMA_BUF_PLANE0_PITCH_EXT: i32 = 0x3274;

/// `EGL_NONE`: ends a list of attributes.
pub const EGL_NONE: i32 = 0x3038;

/// `EGL_HEIGHT`.
pub const EGL_HEIGHT: i32 = 0x3056;

/// `EGL_WIDTH`.
pub const EGL_WIDTH: i32 = 0x3057;

/// `GL_BGRA_EXT`: the order in which pixels are read back.
pub const GL_BGRA_EXT: u32 = 0x80E1;

/// `GL_FRAMEBUFFER_COMPLETE`.
pub const GL_FRAMEBUFFER_COMPLETE: u32 = 0x8CD5;

/// `GL_NO_ERROR`.
pub const GL_NO_ERROR: u32 = 0;

/// `EGL_RENDERABLE_TYPE`.
pub const EGL_RENDERABLE_TYPE: i32 = 0x3040;

/// `EGL_OPENGL_ES2_BIT`.
pub const EGL_OPENGL_ES2_BIT: i32 = 0x0004;

/// `EGL_SURFACE_TYPE`.
pub const EGL_SURFACE_TYPE: i32 = 0x3033;

/// `EGL_CONTEXT_CLIENT_VERSION`.
pub const EGL_CONTEXT_CLIENT_VERSION: i32 = 0x3098;

/// Width and height of the texture that warms the GPU up.
pub const WARMUP_DIMENSION: u32 = 64;

/// The DRM format code for an SPA video format.
pub open spec fn drm_format(spa_format: u32) -> Option<u32> {
    if spa_format == SPA_VIDEO_FORMAT_RGBX {
        Some(DRM_FORMAT_XBGR8888)
    } else if spa_format == SPA_VIDEO_FORMAT_BGRX {
        Some(DRM_FORMAT_XRGB8888)
    } else if spa_format == SPA_VIDEO_FORMAT_XRGB {
        Some(DRM_FORMAT_BGRX8888)
    } else if spa_format == SPA_VIDEO_FORMAT_XBGR {
        Some(DRM_FORMAT_RGBX8888)
    } else if spa_format == SPA_VIDEO_FORMAT_RGBA {
        Some(DRM_FORMAT_ABGR8888)
    } else if spa_format == SPA_VIDEO_FORMAT_BGRA {
        Some(DRM_FORMAT_ARGB8888)
    } else if spa_format == SPA_VIDEO_FORMAT_ARGB {
        Some(DRM_FORMAT_BGRA8888)
    } else if spa_format == SPA_VIDEO_FORMAT_ABGR {
        Some(DRM_FORMAT_RGBA8888)
    } else {
        None
    }
}

/// The channels of a DRM format, from the most significant byte of a pixel to the least.
pub open spec fn significance_order(drm_format: u32) -> Option<Seq<Channel>> {
    if drm_format == DRM_FORMAT_XRGB8888 {
        Some(seq![Channel::Unused, Channel::Red, Channel::Green, Channel::Blue])
    } else if drm_format == DRM_FORMAT_ARGB8888 {
        Some(seq![Channel::Alpha, Channel::Red, Channel::Green, Channel::Blue])
    } else if drm_format == DRM_FORMAT_XBGR8888 {
        Some(seq![Channel::Unused, Channel::Blue, Channel::Green, Channel::Red])
    } else if drm_format == DRM_FORMAT_ABGR8888 {
        Some(seq![Channel::Alpha, Channel::Blue, Channel::Green, Channel::Red])
    } else if drm_format == DRM_FORMAT_RGBX8888 {
        Some(seq![Channel::Red, Channel::Green, Channel::Blue, Channel::Unused])
    } else if drm_format == DRM_FORMAT_RGBA8888 {
        Some(seq![Channel::Red, Channel::Green, Channel::Blue, Channel::Alpha])
    } else if drm_format == DRM_FORMAT_BGRX8888 {
        Some(seq![Channel::Blue, Channel::Green, Channel::Red, Channel::Unused])
    } else if drm_format == DRM_FORMAT_BGRA8888 {
        Some(seq![Channel::Blue, Channel::Green, Channel::Red, Channel::Alpha])
    } else {
        None
    }
}

/// Converts an SPA video format to a DRM format code.
///
/// SPA names give the order of the bytes in memory. DRM names give the order from the most
/// significant byte of a little-endian pixel.
pub fn spa_format_to_drm(spa_format: u32) -> (code: Option<u32>)
    ensures
        code == drm_format(spa_format),
{
    match spa_format {
        7 => Some(DRM_FORMAT_XBGR8888),
        8 => Some(DRM_FORMAT_XRGB8888),
        9 => Some(DRM_FORMAT_BGRX8888),
        10 => Some(DRM_FORMAT_RGBX8888),
        11 => Some(DRM_FORMAT_ABGR8888),
        12 => Some(DRM_FORMAT_ARGB8888),
        13 => Some(DRM_FORMAT_BGRA8888),
        14 => Some(DRM_FORMAT_RGBA8888),
        _ => None,
    }
}

/// Law: a format keeps its layout. The DRM code for an SPA format names the same channels, in
/// reverse, since the least significant byte comes first in memory; and a format that is no
/// packed 32-bit one has no code.
pub proof fn law_drm_code_names_the_same_layout(spa_format: u32)
    ensures
        match crate::spa::memory_order(spa_format) {
            Some(channels) => drm_format(spa_format) matches Some(code) && significance_order(code)
                == Some(channels.reverse()),
            None => drm_format(spa_format) is None,
        },
{
    if let Some(channels) = crate::spa::memory_order(spa_format) {
        let code = drm_format(spa_format)->0;
        assert(significance_order(code)->0 =~= channels.reverse());
    }
}

/// Law: no two SPA formats share a DRM code.
pub proof fn law_drm_codes_are_distinct(one: u32, other: u32)
    requires
        drm_format(one) is Some,
        drm_format(one) == drm_format(other),
    ensures
        one == other,
{
}

/// The GL objects and the pixel storage of an importer.
pub struct GpuFrameImporter {
    /// The texture that images are bound to.
    pub texture: u32,
    /// The framebuffer that pixels are read from.
    pub fbo: u32,
    /// Storage for the pixels of the latest frame.
    pub pixel_buffer: Vec<u8>,
}

/// The setup of an importer: the call that comes next, or its end.
pub enum GpuSetup {
    LoadEgl,
    GetDisplay,
    Initialize,
    QueryExtensions,
    /// Bind the OpenGL ES API.
    BindApi,
    ChooseConfig,
    CreateContext,
    /// Make the context current without a surface.
    MakeCurrent,
    /// Load the OpenGL functions.
    LoadGl,
    /// Look `eglCreateImageKHR` up.
    ResolveCreateImage,
    /// Look `eglDestroyImageKHR` up.
    ResolveDestroyImage,
    /// Look `glEGLImageTargetTexture2DOES` up.
    ResolveImageTarget,
    /// Generate a texture and a framebuffer.
    GenerateObjects,
    /// Attach a small texture to the framebuffer, to have the driver initialize itself.
    WarmUp { texture: u32, fbo: u32 },
    /// Read the small texture back, wait for the GPU, unbind the texture and delete it.
    ReadWarmUp { texture: u32, fbo: u32 },
    /// Delete the small texture without reading it, since the framebuffer is incomplete.
    DiscardWarmUp { message: String },
    /// The importer is set up.
    Ready { texture: u32, fbo: u32 },
    /// The setup has failed.
    Failed { message: String },
}

/// The value of a [`GpuSetup`].
pub enum SetupView {
    LoadEgl,
    GetDisplay,
    Initialize,
    QueryExtensions,
    BindApi,
    ChooseConfig,
    CreateContext,
    MakeCurrent,
    LoadGl,
    ResolveCreateImage,
    ResolveDestroyImage,
    ResolveImageTarget,
    GenerateObjects,
    WarmUp { texture: u32, fbo: u32 },
    ReadWarmUp { texture: u32, fbo: u32 },
    DiscardWarmUp { message: Seq<char> },
    Ready { texture: u32, fbo: u32 },
    Failed { message: Seq<char> },
}

impl View for GpuSetup {
    type V = SetupView;

    open spec fn view(&self) -> SetupView {
        match self {
            GpuSetup::LoadEgl => SetupView::LoadEgl,
            GpuSetup::GetDisplay => SetupView::GetDisplay,
            GpuSetup::Initialize => SetupView::Initialize,
            GpuSetup::QueryExtensions => SetupView::QueryExtensions,
            GpuSetup::BindApi => SetupView::BindApi,
            GpuSetup::ChooseConfig => SetupView::ChooseConfig,
            GpuSetup::CreateContext => SetupView::CreateContext,
            GpuSetup::MakeCurrent => SetupView::MakeCurrent,
            GpuSetup::LoadGl => SetupView::LoadGl,
            GpuSetup::ResolveCreateImage => SetupView::ResolveCreateImage,
            GpuSetup::ResolveDestroyImage => SetupView::ResolveDestroyImage,
            GpuSetup::ResolveImageTarget => SetupView::ResolveImageTarget,
            GpuSetup::GenerateObjects => SetupView::GenerateObjects,
            GpuSetup::WarmUp { texture, fbo } => SetupView::WarmUp {
                texture: *texture,
                fbo: *fbo,
            },
            GpuSetup::ReadWarmUp { texture, fbo } => SetupView::ReadWarmUp {
                texture: *texture,
                fbo: *fbo,
            },
            GpuSetup::DiscardWarmUp { message } => SetupView::DiscardWarmUp { message: message@ },
            GpuSetup::Ready { texture, fbo } => SetupView::Ready { texture: *texture, fbo: *fbo },
            GpuSetup::Failed { message } => SetupView::Failed { message: message@ },
        }
    }
}

/// What came of a call.
pub enum GpuReply {
    /// It went well and gives nothing that the setup reads.
    Done,
    /// It failed, with what the failure says of itself.
    Failed(String),
    /// What was asked for does not exist.
    Missing,
    /// The names of the supported extensions.
    Extensions(String),
    /// The generated objects.
    Objects { texture: u32, fbo: u32 },
    /// The status of the framebuffer.
    Status(u32),
}

/// The value of a [`GpuReply`].
pub enum GpuReplyView {
    Done,
    Failed(Seq<char>),
    Missing,
    Extensions(Seq<char>),
    Objects { texture: u32, fbo: u32 },
    Status(u32),
}

impl View for GpuReply {
    type V = GpuReplyView;

    open spec fn view(&self) -> GpuReplyView {
        match self {
            GpuReply::Done => GpuReplyView::Done,
            GpuReply::Failed(cause) => GpuReplyView::Failed(cause@),
            GpuReply::Missing => GpuReplyView::Missing,
            GpuReply::Extensions(names) => GpuReplyView::Extensions(names@),
            GpuReply::Objects { texture, fbo } => GpuReplyView::Objects {
                texture: *texture,
                fbo: *fbo,
            },
            GpuReply::Status(status) => GpuReplyView::Status(*status),
        }
    }
}

impl SetupView {
    /// What follows a call that gave nothing.
    pub open spec fn successor(self) -> Option<SetupView> {
        match self {
            SetupView::LoadEgl => Some(SetupView::GetDisplay),
            SetupView::GetDisplay => Some(SetupView::Initialize),
            SetupView::Initialize => Some(SetupView::QueryExtensions),
            SetupView::BindApi => Some(SetupView::ChooseConfig),
            SetupView::ChooseConfig => Some(SetupView::CreateContext),
            SetupView::CreateContext => Some(SetupView::MakeCurrent),
            SetupView::MakeCurrent => Some(SetupView::LoadGl),
            SetupView::LoadGl => Some(SetupView::ResolveCreateImage),
            SetupView::ResolveCreateImage => Some(SetupView::ResolveDestroyImage),
            SetupView::ResolveDestroyImage => Some(SetupView::ResolveImageTarget),
            SetupView::ResolveImageTarget => Some(SetupView::GenerateObjects),
            SetupView::ReadWarmUp { texture, fbo } => Some(SetupView::Ready { texture, fbo }),
            SetupView::DiscardWarmUp { message } => Some(SetupView::Failed { message }),
            _ => None,
        }
    }

    /// How the failure of a call is reported.
    pub open spec fn failure(self) -> Option<Seq<char>> {
        match self {
            SetupView::LoadEgl => Some("Failed to load EGL: "@),
            SetupView::Initialize => Some("Failed to initialize EGL: "@),
            SetupView::QueryExtensions => Some("Failed to query EGL extensions: "@),
            SetupView::BindApi => Some("Failed to bind OpenGL ES API: "@),
            SetupView::ChooseConfig => Some("Failed to choose EGL config: "@),
            SetupView::CreateContext => Some("Failed to create EGL context: "@),
            SetupView::MakeCurrent => Some("Failed to make EGL context current: "@),
            _ => None,
        }
    }

    /// How it is reported that what a call asks for does not exist.
    pub open spec fn absence(self) -> Option<Seq<char>> {
        match self {
            SetupView::GetDisplay => Some("No EGL display available"@),
            SetupView::ChooseConfig => Some("No suitable EGL config found"@),
            SetupView::ResolveCreateImage => Some("eglCreateImageKHR not available"@),
            SetupView::ResolveDestroyImage => Some("eglDestroyImageKHR not available"@),
            SetupView::ResolveImageTarget => Some("glEGLImageTargetTexture2DOES not available"@),
            _ => None,
        }
    }

    /// The setup after a reply. One that the call cannot have leaves it as it is.
    pub open spec fn next(self, reply: GpuReplyView) -> SetupView {
        match (self, reply) {
            (_, GpuReplyView::Done) => match self.successor() {
                Some(next) => next,
                None => self,
            },
            (_, GpuReplyView::Failed(cause)) => match self.failure() {
                Some(what) => SetupView::Failed { message: what + cause },
                None => self,
            },
            (_, GpuReplyView::Missing) => match self.absence() {
                Some(message) => SetupView::Failed { message },
                None => self,
            },
            (SetupView::QueryExtensions, GpuReplyView::Extensions(names)) => if !crate::text::has_run(
                names,
                "EGL_EXT_image_dma_buf_import"@,
            ) {
                SetupView::Failed {
                    message: "EGL_EXT_image_dma_buf_import extension not supported"@,
                }
            } else if !crate::text::has_run(names, "EGL_KHR_surfaceless_context"@) {
                SetupView::Failed {
                    message: "EGL_KHR_surfaceless_context extension not supported"@,
                }
            } else {
                SetupView::BindApi
            },
            (
                SetupView::GenerateObjects,
                GpuReplyView::Objects { texture, fbo },
            ) => SetupView::WarmUp { texture, fbo },
            (
                SetupView::WarmUp { texture, fbo },
                GpuReplyView::Status(status),
            ) => if status == GL_FRAMEBUFFER_COMPLETE {
                SetupView::ReadWarmUp { texture, fbo }
            } else {
                SetupView::DiscardWarmUp {
                    message: "Warmup framebuffer incomplete: 0x"@ + crate::text::hexadecimal(
                        status as nat,
                    ),
                }
            },
            _ => self,
        }
    }

    /// How many calls are left at most.
    pub open spec fn remaining(self) -> nat {
        match self {
            SetupView::LoadEgl => 15,
            SetupView::GetDisplay => 14,
            SetupView::Initialize => 13,
            SetupView::QueryExtensions => 12,
            SetupView::BindApi => 11,
            SetupView::ChooseConfig => 10,
            SetupView::CreateContext => 9,
            SetupView::MakeCurrent => 8,
            SetupView::LoadGl => 7,
            SetupView::ResolveCreateImage => 6,
            SetupView::ResolveDestroyImage => 5,
            SetupView::ResolveImageTarget => 4,
            SetupView::GenerateObjects => 3,
            SetupView::WarmUp { .. } => 2,
            SetupView::ReadWarmUp { .. } => 1,
            SetupView::DiscardWarmUp { .. } => 1,
            SetupView::Ready { .. } => 0,
            SetupView::Failed { .. } => 0,
        }
    }
}

impl GpuSetup {
    /// A failed setup.
    fn failed(message: &'static str) -> (setup: GpuSetup)
        ensures
            setup@ == (SetupView::Failed { message: message@ }),
    {
        GpuSetup::Failed { message: message.to_owned() }
    }

    /// The setup after a call gave nothing.
    fn done(self) -> (next: GpuSetup)
        ensures
            next@ == self@.next(GpuReplyView::Done),
    {
        match self {
            GpuSetup::LoadEgl => GpuSetup::GetDisplay,
            GpuSetup::GetDisplay => GpuSetup::Initialize,
            GpuSetup::Initialize => GpuSetup::QueryExtensions,
            GpuSetup::BindApi => GpuSetup::ChooseConfig,
            GpuSetup::ChooseConfig => GpuSetup::CreateContext,
            GpuSetup::CreateContext => GpuSetup::MakeCurrent,
            GpuSetup::MakeCurrent => GpuSetup::LoadGl,
            GpuSetup::LoadGl => GpuSetup::ResolveCreateImage,
            GpuSetup::ResolveCreateImage => GpuSetup::ResolveDestroyImage,
            GpuSetup::ResolveDestroyImage => GpuSetup::ResolveImageTarget,
            GpuSetup::ResolveImageTarget => GpuSetup::GenerateObjects,
            GpuSetup::ReadWarmUp { texture, fbo } => GpuSetup::Ready { texture, fbo },
            GpuSetup::DiscardWarmUp { message } => GpuSetup::Failed { message },
            other => other,
        }
    }

    /// The setup after a call failed.
    fn call_failed(self, cause: String) -> (next: GpuSetup)
        ensures
            next@ == self@.next(GpuReplyView::Failed(cause@)),
    {
        let what: &'static str = match self {
            GpuSetup::LoadEgl => "Failed to load EGL: ",
            GpuSetup::Initialize => "Failed to initialize EGL: ",
            GpuSetup::QueryExtensions => "Failed to query EGL extensions: ",
            GpuSetup::BindApi => "Failed to bind OpenGL ES API: ",
            GpuSetup::ChooseConfig => "Failed to choose EGL config: ",
            GpuSetup::CreateContext => "Failed to create EGL context: ",
            GpuSetup::MakeCurrent => "Failed to make EGL context current: ",
            other => return other,
        };
        GpuSetup::Failed { message: what.to_owned().concat(cause.as_str()) }
    }

    /// The setup after something was found not to exist.
    fn missing(self) -> (next: GpuSetup)
        ensures
            next@ == self@.next(GpuReplyView::Missing),
    {
        match self {
            GpuSetup::GetDisplay => GpuSetup::failed("No EGL display available"),
            GpuSetup::ChooseConfig => GpuSetup::failed("No suitable EGL config found"),
            GpuSetup::ResolveCreateImage => GpuSetup::failed("eglCreateImageKHR not available"),
            GpuSetup::ResolveDestroyImage => GpuSetup::failed("eglDestroyImageKHR not available"),
            GpuSetup::ResolveImageTarget => GpuSetup::failed(
                "glEGLImageTargetTexture2DOES not available",
            ),
            other => other,
        }
    }

    /// Advances the setup by the reply to its call.
    pub fn advance(self, reply: GpuReply) -> (next: GpuSetup)
        ensures
            next@ == self@.next(reply@),
    {
        match (self, reply) {
            (setup, GpuReply::Done) => setup.done(),
            (setup, GpuReply::Failed(cause)) => setup.call_failed(cause),
            (setup, GpuReply::Missing) => setup.missing(),
            (GpuSetup::QueryExtensions, GpuReply::Extensions(names)) => {
                if !contains_text(names.as_str(), "EGL_EXT_image_dma_buf_import") {
                    GpuSetup::failed("EGL_EXT_image_dma_buf_import extension not supported")
                } else if !contains_text(names.as_str(), "EGL_KHR_surfaceless_context") {
                    GpuSetup::failed("EGL_KHR_surfaceless_context extension not supported")
                } else {
                    GpuSetup::BindApi
                }
            },
            (
                GpuSetup::GenerateObjects,
                GpuReply::Objects { texture, fbo },
            ) => GpuSetup::WarmUp { texture, fbo },
            (GpuSetup::WarmUp { texture, fbo }, GpuReply::Status(status)) => {
                match warmup(status) {
                    Ok(()) => GpuSetup::ReadWarmUp { texture, fbo },
                    Err(message) => GpuSetup::DiscardWarmUp { message },
                }
            },
            (setup, _) => setup,
        }
    }
}

/// The attributes of a configuration for OpenGL ES 2 that needs no surface.
pub fn config_attributes() -> (attributes: [i32; 5])
    ensures
        attributes@ == seq![
            EGL_RENDERABLE_TYPE,
            EGL_OPENGL_ES2_BIT,
            EGL_SURFACE_TYPE,
            0i32,
            EGL_NONE,
        ],
{
    let attributes: [i32; 5] = [
        EGL_RENDERABLE_TYPE,
        EGL_OPENGL_ES2_BIT,
        EGL_SURFACE_TYPE,
        0,
        EGL_NONE,
    ];
    assert(attributes@ =~= seq![
        EGL_RENDERABLE_TYPE,
        EGL_OPENGL_ES2_BIT,
        EGL_SURFACE_TYPE,
        0i32,
        EGL_NONE,
    ]);
    attributes
}

/// The attributes of a context for OpenGL ES 2.
pub fn context_attributes() -> (attributes: [i32; 3])
    ensures
        attributes@ == seq![EGL_CONTEXT_CLIENT_VERSION, 2i32, EGL_NONE],
{
    let attributes: [i32; 3] = [EGL_CONTEXT_CLIENT_VERSION, 2, EGL_NONE];
    assert(attributes@ =~= seq![EGL_CONTEXT_CLIENT_VERSION, 2i32, EGL_NONE]);
    attributes
}

/// Judges the framebuffer that warms the GPU up.
fn warmup(status: u32) -> (result: Result<(), String>)
    ensures
        status == GL_FRAMEBUFFER_COMPLETE ==> result is Ok,
        status != GL_FRAMEBUFFER_COMPLETE ==> (result matches Err(message) && message@
            == "Warmup framebuffer incomplete: 0x"@ + crate::text::hexadecimal(status as nat)),
{
    if status == GL_FRAMEBUFFER_COMPLETE {
        return Ok(());
    }
    let mut message: String = "Warmup framebuffer incomplete: 0x".to_owned();
    append_hexadecimal(&mut message, status);
    Err(message)
}

/// Storage for the pixels that are read back to warm the GPU up.
pub fn warmup_pixels() -> (pixels: Vec<u8>)
    ensures
        pixels@ == Seq::new(
            (WARMUP_DIMENSION * WARMUP_DIMENSION * 4) as nat,
            |i: int| 0u8,
        ),
{
    let pixels: Vec<u8> = vec![0u8; 16384];
    assert(pixels@ =~= Seq::new(16384, |i: int| 0u8));
    pixels
}

/// The DMA buffer that is to be imported.
#[derive(Clone, Copy, Debug)]
pub struct ImportRequest {
    /// Descriptor of the DMA buffer.
    pub dmabuf_fd: i32,
    /// Width of the image in pixels.
    pub width: u32,
    /// Height of the image in pixels.
    pub height: u32,
    /// Distance between the starts of two rows in bytes.
    pub stride: u32,
    /// DRM format code.
    pub format: u32,
}

impl ImportRequest {
    /// The attributes that describe the buffer to EGL.
    pub open spec fn attributes(self) -> Seq<i32> {
        seq![
            EGL_WIDTH,
            self.width as i32,
            EGL_HEIGHT,
            self.height as i32,
            EGL_LINUX_DRM_FOURCC_EXT,
            self.format as i32,
            EGL_DMA_BUF_PLANE0_FD_EXT,
            self.dmabuf_fd,
            EGL_DMA_BUF_PLANE0_OFFSET_EXT,
            0i32,
            EGL_DMA_BUF_PLANE0_PITCH_EXT,
            self.stride as i32,
            EGL_NONE,
        ]
    }

    /// Bytes in the pixels of the image.
    pub open spec fn byte_count(self) -> nat {
        (self.width * self.height * 4) as nat
    }

    /// What follows an event, given the pixel storage.
    pub open spec fn action(self, event: ImportEvent, pixels: Seq<u8>) -> ActionView {
        match event {
            ImportEvent::Begin => ActionView::CreateImage(self.attributes()),
            ImportEvent::ImageCreated { is_null } => if is_null {
                ActionView::Fail("Failed to create EGLImage from DMA buffer"@)
            } else {
                ActionView::AttachImage
            },
            ImportEvent::ImageAttached { status } => if status == GL_FRAMEBUFFER_COMPLETE {
                ActionView::ReadPixels
            } else {
                ActionView::Fail(
                    "Framebuffer incomplete: 0x"@ + crate::text::hexadecimal(status as nat),
                )
            },
            ImportEvent::PixelsRead { error } => if error == GL_NO_ERROR {
                ActionView::Return(pixels)
            } else {
                ActionView::Fail("OpenGL error: 0x"@ + crate::text::hexadecimal(error as nat))
            },
        }
    }

    /// The pixel storage after an event: it gets the size of the image where pixels are read next.
    pub open spec fn storage(self, event: ImportEvent, pixels: Seq<u8>) -> Seq<u8> {
        if self.action(event, pixels) is ReadPixels {
            resized(pixels, self.byte_count())
        } else {
            pixels
        }
    }
}

/// What has happened to an import.
pub enum ImportEvent {
    /// It was asked for.
    Begin,
    /// An image was created, or not.
    ImageCreated { is_null: bool },
    /// The image was bound to the texture and attached to the framebuffer, which then has the
    /// status.
    ImageAttached { status: u32 },
    /// The pixels were read into the pixel storage, and OpenGL then has the error.
    PixelsRead { error: u32 },
}

/// What an import does next.
pub enum ImportAction {
    /// Create an image with the attributes.
    CreateImage([i32; 13]),
    /// Bind the image to the texture, destroy it, and attach the texture to the framebuffer.
    AttachImage,
    /// Read the pixels into the pixel storage.
    ReadPixels,
    /// Unbind texture and framebuffer, and return the pixels.
    Return(Vec<u8>),
    /// Return an error.
    Fail(String),
}

/// The value of an [`ImportAction`].
pub enum ActionView {
    CreateImage(Seq<i32>),
    AttachImage,
    ReadPixels,
    Return(Seq<u8>),
    Fail(Seq<char>),
}

impl View for ImportAction {
    type V = ActionView;

    open spec fn view(&self) -> ActionView {
        match self {
            ImportAction::CreateImage(attributes) => ActionView::CreateImage(attributes@),
            ImportAction::AttachImage => ActionView::AttachImage,
            ImportAction::ReadPixels => ActionView::ReadPixels,
            ImportAction::Return(pixels) => ActionView::Return(pixels@),
            ImportAction::Fail(message) => ActionView::Fail(message@),
        }
    }
}

impl ActionView {
    /// Whether an event is what can come of the action.
    pub open spec fn answered_by(self, event: ImportEvent) -> bool {
        match self {
            ActionView::CreateImage(_) => event is ImageCreated,
            ActionView::AttachImage => event is ImageAttached,
            ActionView::ReadPixels => event is PixelsRead,
            _ => false,
        }
    }
}

/// Storage with a given number of bytes: what is held stays as far as it fits, and zeros follow.
pub open spec fn resized(bytes: Seq<u8>, len: nat) -> Seq<u8> {
    Seq::new(
        len,
        |i: int|
            if i < bytes.len() {
                bytes[i]
            } else {
                0u8
            },
    )
}

impl GpuFrameImporter {
    /// An importer with its GL objects and no pixels yet.
    pub fn new(texture: u32, fbo: u32) -> (importer: GpuFrameImporter)
        ensures
            importer.texture == texture,
            importer.fbo == fbo,
            importer.pixel_buffer@ == Seq::<u8>::empty(),
    {
        GpuFrameImporter { texture, fbo, pixel_buffer: Vec::new() }
    }

    /// Decides what follows in the import of a DMA buffer.
    ///
    /// The number of bytes in the image must fit in 32 bits by the time that its pixels are to
    /// be read.
    pub fn import_frame(&mut self, request: &ImportRequest, event: ImportEvent) -> (action:
        ImportAction)
        requires
            event is ImageAttached && event->status == GL_FRAMEBUFFER_COMPLETE
                ==> request.byte_count() <= u32::MAX,
        ensures
            final(self).texture == old(self).texture,
            final(self).fbo == old(self).fbo,
            final(self).pixel_buffer@ == request.storage(event, old(self).pixel_buffer@),
            action@ == request.action(event, old(self).pixel_buffer@),
    {
        match event {
            ImportEvent::Begin => {
                let attributes: [i32; 13] = [
                    EGL_WIDTH,
                    #[verifier::truncate]
                    (request.width as i32),
                    EGL_HEIGHT,
                    #[verifier::truncate]
                    (request.height as i32),
                    EGL_LINUX_DRM_FOURCC_EXT,
                    #[verifier::truncate]
                    (request.format as i32),
                    EGL_DMA_BUF_PLANE0_FD_EXT,
                    request.dmabuf_fd,
                    EGL_DMA_BUF_PLANE0_OFFSET_EXT,
                    0,
                    EGL_DMA_BUF_PLANE0_PITCH_EXT,
                    #[verifier::truncate]
                    (request.stride as i32),
                    EGL_NONE,
                ];
                assert(attributes@ =~= request.attributes());
                ImportAction::CreateImage(attributes)
            },
            ImportEvent::ImageCreated { is_null } => {
                if is_null {
                    ImportAction::Fail("Failed to create EGLImage from DMA buffer".to_owned())
                } else {
                    ImportAction::AttachImage
                }
            },
            ImportEvent::ImageAttached { status } => {
                if status != GL_FRAMEBUFFER_COMPLETE {
                    let mut message: String = "Framebuffer incomplete: 0x".to_owned();
                    append_hexadecimal(&mut message, status);
                    return ImportAction::Fail(message);
                }
                assert(0 <= request.width * request.height <= request.width * request.height * 4)
                    by (nonlinear_arith)
                    requires
                        0 <= request.width,
                        0 <= request.height,
                ;
                let size: usize = (request.width * request.height * 4) as usize;
                if self.pixel_buffer.len() != size {
                    self.pixel_buffer.resize(size, 0);
                }
                assert(self.pixel_buffer@ =~= resized(
                    old(self).pixel_buffer@,
                    request.byte_count(),
                )) by {
                    let before = old(self).pixel_buffer@;
                    if size > before.len() {
                        assert forall|i: int| 0 <= i < before.len() implies self.pixel_buffer@[i]
                            == before[i] by {
                            assert(self.pixel_buffer@.subrange(0, before.len() as int)[i]
                                == before[i]);
                        }
                    }
                }
                ImportAction::ReadPixels
            },
            ImportEvent::PixelsRead { error } => {
                if error != GL_NO_ERROR {
                    let mut message: String = "OpenGL error: 0x".to_owned();
                    append_hexadecimal(&mut message, error);
                    return ImportAction::Fail(message);
                }
                let pixels: Vec<u8> = self.pixel_buffer.clone();
                assert(pixels@ =~= self.pixel_buffer@);
                ImportAction::Return(pixels)
            },
        }
    }

    /// The framebuffer and the texture to delete with the importer; zero names no object.
    pub fn objects_to_delete(&self) -> (objects: (Option<u32>, Option<u32>))
        ensures
            objects.0 == (if self.fbo != 0 {
                Some(self.fbo)
            } else {
                None
            }),
            objects.1 == (if self.texture != 0 {
                Some(self.texture)
            } else {
                None
            }),
    {
        let fbo: Option<u32> = if self.fbo != 0 {
            Some(self.fbo)
        } else {
            None
        };
        let texture: Option<u32> = if self.texture != 0 {
            Some(self.texture)
        } else {
            None
        };
        (fbo, texture)
    }
}

/// Law: a reply that changes the setup brings it closer to its end, and within fifteen calls it
/// is over.
pub proof fn law_gpu_setup_makes_progress(setup: SetupView, reply: GpuReplyView)
    ensures
        setup.remaining() <= 15,
        setup.remaining() == 0 <==> (setup is Ready || setup is Failed),
        setup.next(reply) != setup ==> setup.next(reply).remaining() < setup.remaining(),
{
}

/// Law: pixel storage is given exactly the bytes of an image, and storage that has them already
/// is used as it is.
pub proof fn law_pixel_storage_fits_the_image(bytes: Seq<u8>, request: ImportRequest)
    ensures
        resized(bytes, request.byte_count()).len() == request.width * request.height * 4,
        bytes.len() == request.byte_count() ==> resized(bytes, request.byte_count()) == bytes,
{
    assert(0 <= request.width * request.height * 4) by (nonlinear_arith)
        requires
            0 <= request.width,
            0 <= request.height,
    ;
    if bytes.len() == request.byte_count() {
        assert(resized(bytes, request.byte_count()) =~= bytes);
    }
}

/// Whether a list of extensions has both that an importer needs.
pub open spec fn has_extensions(names: Seq<char>) -> bool {
    &&& crate::text::has_run(names, "EGL_EXT_image_dma_buf_import"@)
    &&& crate::text::has_run(names, "EGL_KHR_surfaceless_context"@)
}

/// Law: the setup goes on from the query of the extensions exactly where both are supported.
pub proof fn law_both_extensions_are_needed(names: Seq<char>)
    ensures
        SetupView::QueryExtensions.next(GpuReplyView::Extensions(names)) is BindApi
            <==> has_extensions(names),
        !has_extensions(names) ==> SetupView::QueryExtensions.next(
            GpuReplyView::Extensions(names),
        ) is Failed,
{
}

/// Where a setup is after the replies to its calls.
pub open spec fn setup_history(replies: Seq<GpuReplyView>) -> SetupView
    decreases replies.len(),
{
    if replies.len() == 0 {
        SetupView::LoadEgl
    } else {
        setup_history(replies.drop_last()).next(replies.last())
    }
}

/// Whether a call of a setup got the given reply.
pub open spec fn got(replies: Seq<GpuReplyView>, call: SetupView, reply: GpuReplyView) -> bool
    decreases replies.len(),
{
    replies.len() > 0 && ((setup_history(replies.drop_last()) == call && replies.last() == reply)
        || got(replies.drop_last(), call, reply))
}

/// Whether the query of the extensions gave a list with both that an importer needs.
pub open spec fn extensions_confirmed(replies: Seq<GpuReplyView>) -> bool {
    exists|names: Seq<char>|
        #[trigger] got(replies, SetupView::QueryExtensions, GpuReplyView::Extensions(names))
            && has_extensions(names)
}

/// What lies behind a setup that has not failed, by the calls that are left.
proof fn lemma_setup_history(replies: Seq<GpuReplyView>)
    ensures
        ({
            let setup = setup_history(replies);
            let left = setup.remaining();
            !(setup is Failed) && !(setup is DiscardWarmUp) ==> {
                &&& left < 12 ==> extensions_confirmed(replies)
                &&& left < 6 ==> got(replies, SetupView::ResolveCreateImage, GpuReplyView::Done)
                &&& left < 5 ==> got(replies, SetupView::ResolveDestroyImage, GpuReplyView::Done)
                &&& left < 4 ==> got(replies, SetupView::ResolveImageTarget, GpuReplyView::Done)
                &&& match setup {
                    SetupView::WarmUp { texture, fbo } => got(
                        replies,
                        SetupView::GenerateObjects,
                        GpuReplyView::Objects { texture, fbo },
                    ),
                    SetupView::ReadWarmUp { texture, fbo } => warmed_up(replies, texture, fbo),
                    SetupView::Ready { texture, fbo } => warmed_up(replies, texture, fbo) && got(
                        replies,
                        SetupView::ReadWarmUp { texture, fbo },
                        GpuReplyView::Done,
                    ),
                    _ => true,
                }
            }
        }),
    decreases replies.len(),
{
    if replies.len() > 0 {
        let earlier = replies.drop_last();
        let reply = replies.last();
        let setup = setup_history(earlier);
        lemma_setup_history(earlier);
        if extensions_confirmed(earlier) {
            let names = choose|names: Seq<char>| #[trigger]
                got(earlier, SetupView::QueryExtensions, GpuReplyView::Extensions(names))
                    && has_extensions(names);
            assert(got(replies, SetupView::QueryExtensions, GpuReplyView::Extensions(names)));
        }
        if let (SetupView::QueryExtensions, GpuReplyView::Extensions(names)) = (setup, reply) {
            assert(got(replies, SetupView::QueryExtensions, GpuReplyView::Extensions(names)));
        }
    }
}

/// Whether the generated objects went through a warm-up with a complete framebuffer.
pub open spec fn warmed_up(replies: Seq<GpuReplyView>, texture: u32, fbo: u32) -> bool {
    &&& got(replies, SetupView::GenerateObjects, GpuReplyView::Objects { texture, fbo })
    &&& got(
        replies,
        SetupView::WarmUp { texture, fbo },
        GpuReplyView::Status(GL_FRAMEBUFFER_COMPLETE),
    )
}

/// Law: whatever the replies, an importer is ready only after an extension list with both names,
/// after all three functions were found, and after its own objects went through a warm-up with a
/// complete framebuffer that was read back.
pub proof fn law_ready_importer_has_what_it_needs(replies: Seq<GpuReplyView>)
    ensures
        setup_history(replies) matches SetupView::Ready { texture, fbo } ==> {
            &&& extensions_confirmed(replies)
            &&& got(replies, SetupView::ResolveCreateImage, GpuReplyView::Done)
            &&& got(replies, SetupView::ResolveDestroyImage, GpuReplyView::Done)
            &&& got(replies, SetupView::ResolveImageTarget, GpuReplyView::Done)
            &&& warmed_up(replies, texture, fbo)
            &&& got(replies, SetupView::ReadWarmUp { texture, fbo }, GpuReplyView::Done)
        },
{
    lemma_setup_history(replies);
}

/// Law: nothing is read back from an incomplete warm-up framebuffer. Its texture is deleted, and
/// the setup fails with its status.
pub proof fn law_incomplete_warmup_is_not_read(texture: u32, fbo: u32, status: u32)
    requires
        status != GL_FRAMEBUFFER_COMPLETE,
    ensures
        ({
            let message = "Warmup framebuffer incomplete: 0x"@ + crate::text::hexadecimal(
                status as nat,
            );
            let discarding = (SetupView::WarmUp { texture, fbo }).next(
                GpuReplyView::Status(status),
            );
            &&& discarding == (SetupView::DiscardWarmUp { message })
            &&& discarding.next(GpuReplyView::Done) == (SetupView::Failed { message })
        }),
{
}

/// Whether events are those of one import from its beginning, each being what can come of the
/// action before it. `storage` is the pixel storage that each event meets: reading pixels writes
/// into it and keeps its size.
pub open spec fn is_import(
    request: ImportRequest,
    events: Seq<ImportEvent>,
    storage: Seq<Seq<u8>>,
) -> bool
    decreases events.len(),
{
    &&& events.len() > 0
    &&& storage.len() == events.len()
    &&& if events.len() == 1 {
        events.last() is Begin
    } else {
        let earlier = events.drop_last();
        let met = storage.drop_last();
        &&& is_import(request, earlier, met)
        &&& request.action(earlier.last(), met.last()).answered_by(events.last())
        &&& storage.last().len() == request.storage(earlier.last(), met.last()).len()
    }
}

/// How often an import asks for its image to be bound, destroyed and attached.
pub open spec fn attachments(
    request: ImportRequest,
    events: Seq<ImportEvent>,
    storage: Seq<Seq<u8>>,
) -> nat
    decreases events.len(),
{
    if events.len() == 0 {
        0
    } else {
        attachments(request, events.drop_last(), storage.drop_last()) + if request.action(
            events.last(),
            storage.last(),
        ) is AttachImage {
            1nat
        } else {
            0nat
        }
    }
}

/// Whether an image was created in the course of an import.
pub open spec fn image_created(events: Seq<ImportEvent>) -> bool
    decreases events.len(),
{
    events.len() > 0 && (events.last() == (ImportEvent::ImageCreated { is_null: false })
        || image_created(events.drop_last()))
}

/// How far an import has come, by its latest event.
proof fn lemma_import_course(
    request: ImportRequest,
    events: Seq<ImportEvent>,
    storage: Seq<Seq<u8>>,
)
    requires
        is_import(request, events, storage),
    ensures
        match events.last() {
            ImportEvent::Begin => events.len() == 1 && !image_created(events) && attachments(
                request,
                events,
                storage,
            ) == 0,
            ImportEvent::ImageCreated { is_null } => events.len() == 2 && image_created(events)
                == !is_null && attachments(request, events, storage) == if is_null {
                0nat
            } else {
                1nat
            },
            ImportEvent::ImageAttached { .. } => events.len() == 3 && image_created(events)
                && attachments(request, events, storage) == 1,
            ImportEvent::PixelsRead { .. } => events.len() == 4 && image_created(events)
                && attachments(request, events, storage) == 1 && storage.last().len()
                == request.byte_count(),
        },
    decreases events.len(),
{
    let earlier = events.drop_last();
    if events.len() == 1 {
        assert(!image_created(earlier));
        assert(attachments(request, earlier, storage.drop_last()) == 0);
    } else {
        lemma_import_course(request, earlier, storage.drop_last());
    }
}

/// Law: an image is destroyed exactly once where one was created, and never otherwise. An import
/// asks for its image to be bound, destroyed and attached once, as soon as there is one, and it
/// is over within four events.
pub proof fn law_created_image_is_attached_once(
    request: ImportRequest,
    events: Seq<ImportEvent>,
    storage: Seq<Seq<u8>>,
)
    requires
        is_import(request, events, storage),
    ensures
        attachments(request, events, storage) == if image_created(events) {
            1nat
        } else {
            0nat
        },
        events.len() <= 4,
{
    lemma_import_course(request, events, storage);
}

/// Law: an import that returns pixels returns all bytes of its image, and no others.
pub proof fn law_imported_pixels_fill_the_image(
    request: ImportRequest,
    events: Seq<ImportEvent>,
    storage: Seq<Seq<u8>>,
)
    requires
        is_import(request, events, storage),
    ensures
        request.action(events.last(), storage.last()) matches ActionView::Return(pixels)
            ==> pixels.len() == request.width * request.height * 4,
{
    lemma_import_course(request, events, storage);
    assert(0 <= request.width * request.height * 4) by (nonlinear_arith)
        requires
            0 <= request.width,
            0 <= request.height,
    ;
}

/// Law: each packed SPA format has the code of the DRM format with the bytes in reverse order,
/// and no other format has one.
pub proof fn law_drm_codes_in_numbers(spa_format: u32)
    ensures
        spa_format == 7 ==> drm_format(spa_format) == Some(0x34324258u32),
        spa_format == 8 ==> drm_format(spa_format) == Some(0x34325258u32),
        spa_format == 9 ==> drm_format(spa_format) == Some(0x34325842u32),
        spa_format == 10 ==> drm_format(spa_format) == Some(0x34325852u32),
        spa_format == 11 ==> drm_format(spa_format) == Some(0x34324241u32),
        spa_format == 12 ==> drm_format(spa_format) == Some(0x34325241u32),
        spa_format == 13 ==> drm_format(spa_format) == Some(0x34324142u32),
        spa_format == 14 ==> drm_format(spa_format) == Some(0x34324152u32),
        spa_format < 7 || spa_format > 14 ==> drm_format(spa_format) is None,
{
}

/// Law: replies, setups and actions are their values, case by case.
pub proof fn law_gpu_values_are_told_apart(reply: GpuReply, setup: GpuSetup, action: ImportAction)
    ensures
        match reply {
            GpuReply::Done => reply@ is Done,
            GpuReply::Failed(cause) => reply@ == GpuReplyView::Failed(cause@),
            GpuReply::Missing => reply@ is Missing,
            GpuReply::Extensions(names) => reply@ == GpuReplyView::Extensions(names@),
            GpuReply::Objects { texture, fbo } => reply@ == (GpuReplyView::Objects { texture, fbo }),
            GpuReply::Status(status) => reply@ == GpuReplyView::Status(status),
        },
        match setup {
            GpuSetup::LoadEgl => setup@ is LoadEgl,
            GpuSetup::GetDisplay => setup@ is GetDisplay,
            GpuSetup::Initialize => setup@ is Initialize,
            GpuSetup::QueryExtensions => setup@ is QueryExtensions,
            GpuSetup::BindApi => setup@ is BindApi,
            GpuSetup::ChooseConfig => setup@ is ChooseConfig,
            GpuSetup::CreateContext => setup@ is CreateContext,
            GpuSetup::MakeCurrent => setup@ is MakeCurrent,
            GpuSetup::LoadGl => setup@ is LoadGl,
            GpuSetup::ResolveCreateImage => setup@ is ResolveCreateImage,
            GpuSetup::ResolveDestroyImage => setup@ is ResolveDestroyImage,
            GpuSetup::ResolveImageTarget => setup@ is ResolveImageTarget,
            GpuSetup::GenerateObjects => setup@ is GenerateObjects,
            GpuSetup::WarmUp { texture, fbo } => setup@ == (SetupView::WarmUp { texture, fbo }),
            GpuSetup::ReadWarmUp { texture, fbo } => setup@ == (SetupView::ReadWarmUp {
                texture,
                fbo,
            }),
            GpuSetup::DiscardWarmUp { message } => setup@ == (SetupView::DiscardWarmUp {
                message: message@,
            }),
            GpuSetup::Ready { texture, fbo } => setup@ == (SetupView::Ready { texture, fbo }),
            GpuSetup::Failed { message } => setup@ == (SetupView::Failed { message: message@ }),
        },
        match action {
            ImportAction::CreateImage(attributes) => action@ == ActionView::CreateImage(
                attributes@,
            ),
            ImportAction::AttachImage => action@ is AttachImage,
            ImportAction::ReadPixels => action@ is ReadPixels,
            ImportAction::Return(pixels) => action@ == ActionView::Return(pixels@),
            ImportAction::Fail(message) => action@ == ActionView::Fail(message@),
        },
{
}

/// Law: a setup that goes well makes its calls in this order, and keeps the objects that it
/// generated. A list of extensions lets it go on where both names stand in it.
pub proof fn law_gpu_setup_in_order(names: Seq<char>, texture: u32, fbo: u32)
    ensures
        ({
            let done = GpuReplyView::Done;
            let both = crate::text::has_run(names, "EGL_EXT_image_dma_buf_import"@)
                && crate::text::has_run(names, "EGL_KHR_surfaceless_context"@);
            &&& SetupView::LoadEgl.next(done) is GetDisplay
            &&& SetupView::GetDisplay.next(done) is Initialize
            &&& SetupView::Initialize.next(done) is QueryExtensions
            &&& SetupView::QueryExtensions.next(GpuReplyView::Extensions(names)) is BindApi <==> both
            &&& SetupView::BindApi.next(done) is ChooseConfig
            &&& SetupView::ChooseConfig.next(done) is CreateContext
            &&& SetupView::CreateContext.next(done) is MakeCurrent
            &&& SetupView::MakeCurrent.next(done) is LoadGl
            &&& SetupView::LoadGl.next(done) is ResolveCreateImage
            &&& SetupView::ResolveCreateImage.next(done) is ResolveDestroyImage
            &&& SetupView::ResolveDestroyImage.next(done) is ResolveImageTarget
            &&& SetupView::ResolveImageTarget.next(done) is GenerateObjects
            &&& SetupView::GenerateObjects.next(GpuReplyView::Objects { texture, fbo }) == (
            SetupView::WarmUp { texture, fbo })
            &&& (SetupView::WarmUp { texture, fbo }).next(GpuReplyView::Status(0x8CD5)) == (
            SetupView::ReadWarmUp { texture, fbo })
            &&& (SetupView::ReadWarmUp { texture, fbo }).next(done) == (SetupView::Ready {
                texture,
                fbo,
            })
        }),
{
}

/// Law: a failed setup says which call failed and why, what does not exist, or which of the two
/// extensions is missing, the first one first. Any other status than 0x8CD5 of the warm-up
/// framebuffer is told in hexadecimal.
pub proof fn law_failed_gpu_setup_says_why(
    cause: Seq<char>,
    names: Seq<char>,
    texture: u32,
    fbo: u32,
    status: u32,
)
    ensures
        ({
            let failed = GpuReplyView::Failed(cause);
            let missing = GpuReplyView::Missing;
            let listed = SetupView::QueryExtensions.next(GpuReplyView::Extensions(names));
            let import = crate::text::has_run(names, "EGL_EXT_image_dma_buf_import"@);
            let surfaceless = crate::text::has_run(names, "EGL_KHR_surfaceless_context"@);
            &&& SetupView::LoadEgl.next(failed) == (SetupView::Failed {
                message: "Failed to load EGL: "@ + cause,
            })
            &&& SetupView::Initialize.next(failed) == (SetupView::Failed {
                message: "Failed to initialize EGL: "@ + cause,
            })
            &&& SetupView::QueryExtensions.next(failed) == (SetupView::Failed {
                message: "Failed to query EGL extensions: "@ + cause,
            })
            &&& SetupView::BindApi.next(failed) == (SetupView::Failed {
                message: "Failed to bind OpenGL ES API: "@ + cause,
            })
            &&& SetupView::ChooseConfig.next(failed) == (SetupView::Failed {
                message: "Failed to choose EGL config: "@ + cause,
            })
            &&& SetupView::CreateContext.next(failed) == (SetupView::Failed {
                message: "Failed to create EGL context: "@ + cause,
            })
            &&& SetupView::MakeCurrent.next(failed) == (SetupView::Failed {
                message: "Failed to make EGL context current: "@ + cause,
            })
            &&& SetupView::GetDisplay.next(missing) == (SetupView::Failed {
                message: "No EGL display available"@,
            })
            &&& SetupView::ChooseConfig.next(missing) == (SetupView::Failed {
                message: "No suitable EGL config found"@,
            })
            &&& SetupView::ResolveCreateImage.next(missing) == (SetupView::Failed {
                message: "eglCreateImageKHR not available"@,
            })
            &&& SetupView::ResolveDestroyImage.next(missing) == (SetupView::Failed {
                message: "eglDestroyImageKHR not available"@,
            })
            &&& SetupView::ResolveImageTarget.next(missing) == (SetupView::Failed {
                message: "glEGLImageTargetTexture2DOES not available"@,
            })
            &&& !import ==> listed == (SetupView::Failed {
                message: "EGL_EXT_image_dma_buf_import extension not supported"@,
            })
            &&& import && !surfaceless ==> listed == (SetupView::Failed {
                message: "EGL_KHR_surfaceless_context extension not supported"@,
            })
            &&& status != 0x8CD5 ==> (SetupView::WarmUp { texture, fbo }).next(
                GpuReplyView::Status(status),
            ) == (SetupView::DiscardWarmUp {
                message: "Warmup framebuffer incomplete: 0x"@ + crate::text::hexadecimal(
                    status as nat,
                ),
            })
            &&& (SetupView::DiscardWarmUp { message: cause }).next(GpuReplyView::Done) == (
            SetupView::Failed { message: cause })
        }),
{
}

/// Law: a setup waits for a reply that its call can have, and one that is over stays so.
pub proof fn law_gpu_setup_waits_for_its_reply(setup: SetupView, reply: GpuReplyView)
    ensures
        setup.next(reply) != setup ==> match reply {
            GpuReplyView::Done => !(setup is QueryExtensions || setup is GenerateObjects || setup
                is WarmUp || setup is Ready || setup is Failed),
            GpuReplyView::Failed(_) => setup is LoadEgl || setup is Initialize || setup
                is QueryExtensions || setup is BindApi || setup is ChooseConfig || setup
                is CreateContext || setup is MakeCurrent,
            GpuReplyView::Missing => setup is GetDisplay || setup is ChooseConfig || setup
                is ResolveCreateImage || setup is ResolveDestroyImage || setup
                is ResolveImageTarget,
            GpuReplyView::Extensions(_) => setup is QueryExtensions,
            GpuReplyView::Objects { .. } => setup is GenerateObjects,
            GpuReplyView::Status(_) => setup is WarmUp,
        },
{
}

/// Law: an image is described by its width, height, format, descriptor, a zero offset and its
/// stride, each behind its EGL name, and the list is closed.
pub proof fn law_image_attributes_in_numbers(request: ImportRequest)
    ensures
        request.attributes() == seq![
            0x3057i32,
            request.width as i32,
            0x3056i32,
            request.height as i32,
            0x3271i32,
            request.format as i32,
            0x3272i32,
            request.dmabuf_fd,
            0x3273i32,
            0i32,
            0x3274i32,
            request.stride as i32,
            0x3038i32,
        ],
        request.byte_count() == request.width * request.height * 4,
{
    assert(0 <= request.width * request.height * 4) by (nonlinear_arith)
        requires
            0 <= request.width,
            0 <= request.height,
    ;
    assert(request.attributes() =~= seq![
        0x3057i32,
        request.width as i32,
        0x3056i32,
        request.height as i32,
        0x3271i32,
        request.format as i32,
        0x3272i32,
        request.dmabuf_fd,
        0x3273i32,
        0i32,
        0x3274i32,
        request.stride as i32,
        0x3038i32,
    ]);
}

/// Law: an import creates an image, attaches it, and reads its pixels, as long as there is an
/// image, the framebuffer has the status 0x8CD5, and OpenGL has no error. It returns the pixels
/// that were read, all of them and as they are; otherwise it says what went wrong, with the number
/// in hexadecimal.
pub proof fn law_import_in_order(
    request: ImportRequest,
    is_null: bool,
    status: u32,
    error: u32,
    pixels: Seq<u8>,
)
    ensures
        request.action(ImportEvent::Begin, pixels) == ActionView::CreateImage(request.attributes()),
        request.action(ImportEvent::ImageCreated { is_null }, pixels) == if is_null {
            ActionView::Fail("Failed to create EGLImage from DMA buffer"@)
        } else {
            ActionView::AttachImage
        },
        request.action(ImportEvent::ImageAttached { status }, pixels) == if status == 0x8CD5 {
            ActionView::ReadPixels
        } else {
            ActionView::Fail(
                "Framebuffer incomplete: 0x"@ + crate::text::hexadecimal(status as nat),
            )
        },
        request.action(ImportEvent::PixelsRead { error }, pixels) == if error == 0 {
            ActionView::Return(pixels)
        } else {
            ActionView::Fail("OpenGL error: 0x"@ + crate::text::hexadecimal(error as nat))
        },
{
}

/// Law: pixel storage changes only before pixels are read, to the bytes of the image: what it held
/// stays as far as it fits, and zeros follow.
pub proof fn law_storage_is_cut_or_padded(
    request: ImportRequest,
    event: ImportEvent,
    pixels: Seq<u8>,
    i: int,
)
    ensures
        ({
            let after = request.storage(event, pixels);
            let reads = event matches ImportEvent::ImageAttached { status } && status == 0x8CD5;
            &&& !reads ==> after == pixels
            &&& reads ==> after.len() == request.width * request.height * 4
            &&& reads && 0 <= i < after.len() ==> after[i] == if i < pixels.len() {
                pixels[i]
            } else {
                0u8
            }
        }),
{
    assert(0 <= request.width * request.height * 4) by (nonlinear_arith)
        requires
            0 <= request.width,
            0 <= request.height,
    ;
}

/// Law: the constants of EGL, OpenGL and the warm-up have the values that their headers give.
pub proof fn law_gpu_constants_in_numbers()
    ensures
        EGL_LINUX_DMA_BUF_EXT == 0x3270,
        EGL_NONE == 0x3038,
        EGL_RENDERABLE_TYPE == 0x3040,
        EGL_OPENGL_ES2_BIT == 4,
        EGL_SURFACE_TYPE == 0x3033,
        EGL_CONTEXT_CLIENT_VERSION == 0x3098,
        GL_BGRA_EXT == 0x80E1,
        GL_FRAMEBUFFER_COMPLETE == 0x8CD5,
        GL_NO_ERROR == 0,
        WARMUP_DIMENSION == 64,
{
}

} // verus!
