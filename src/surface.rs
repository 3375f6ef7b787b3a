//! Choice of the swapchain's parameters from what the surface reports.
use vstd::prelude::*;

verus! {

/// Width and height of a two-dimensional image area, in pixels.
#[derive(Clone, Copy, Debug, PartialEq, Eq, Structural)]
pub struct Extent2D {
    pub width: u32,
    pub height: u32,
}

/// A colour format together with its colour space, as raw API values.
#[derive(Clone, Copy, Debug, PartialEq, Eq, Structural)]
pub struct SurfaceFormat {
    pub format: i32,
    pub color_space: i32,
}

/// What a surface reports about the image chains it can present.
///
/// `max_image_count == 0` means that there is no upper bound. Transforms are
/// bit sets of the API's surface-transform flags.
#[derive(Clone, Copy, Debug, PartialEq, Eq, Structural)]
pub struct SurfaceCapabilities {
    pub min_image_count: u32,
    pub max_image_count: u32,
    pub current_extent: Extent2D,
    pub supported_transforms: u32,
    pub current_transform: u32,
}

/// How presented images are queued for display.
#[derive(Clone, Copy, Debug, PartialEq, Eq, Structural)]
pub enum PresentMode {
    Immediate,
    /// Low-latency replacement of the queued image (triple-buffer style).
    Mailbox,
    /// First-in first-out queue; every implementation supports it.
    Fifo,
    FifoRelaxed,
    /// A mode this library does not name, by its raw API value.
    Other(i32),
}

/// Reported width and height that mean "the surface takes the chain's size".
pub const UNDEFINED_EXTENT: u32 = 0xFFFF_FFFF;

/// Resolution used when the surface leaves it to the application.
pub const DEFAULT_WIDTH: u32 = 800;

pub const DEFAULT_HEIGHT: u32 = 600;

/// The identity bit of the surface-transform flags.
pub const TRANSFORM_IDENTITY: u32 = 1;

impl SurfaceCapabilities {
    /// A report that a conforming implementation can give: a bounded
    /// maximum is never below the minimum.
    pub open spec fn wf(self) -> bool {
        self.max_image_count == 0 || self.min_image_count <= self.max_image_count
    }
}

impl PresentMode {
    pub open spec fn raw_spec(self) -> int {
        match self {
            PresentMode::Immediate => 0,
            PresentMode::Mailbox => 1,
            PresentMode::Fifo => 2,
            PresentMode::FifoRelaxed => 3,
            PresentMode::Other(v) => v as int,
        }
    }

    /// Reads a raw API value; the four standard values get their names.
    pub fn from_raw(v: i32) -> (r: PresentMode)
        ensures
            0 <= v <= 3 ==> r.raw_spec() == v,
            0 <= v <= 3 ==> !(r is Other),
            !(0 <= v <= 3) ==> r == PresentMode::Other(v),
    {
        match v {
            0 => PresentMode::Immediate,
            1 => PresentMode::Mailbox,
            2 => PresentMode::Fifo,
            3 => PresentMode::FifoRelaxed,
            _ => PresentMode::Other(v),
        }
    }

    /// The raw API value of the mode.
    pub fn to_raw(self) -> (r: i32)
        ensures
            r as int == self.raw_spec(),
    {
        match self {
            PresentMode::Immediate => 0,
            PresentMode::Mailbox => 1,
            PresentMode::Fifo => 2,
            PresentMode::FifoRelaxed => 3,
            PresentMode::Other(v) => v,
        }
    }
}

/// `min + 1` (saturated at the type's bound), lowered to `max` when the
/// surface has a bound and the request exceeds it.
pub open spec fn image_count_spec(c: SurfaceCapabilities) -> int {
    let wanted: int = if c.min_image_count == u32::MAX {
        u32::MAX as int
    } else {
        c.min_image_count + 1
    };
    if c.max_image_count > 0 && wanted > c.max_image_count {
        c.max_image_count as int
    } else {
        wanted
    }
}

pub open spec fn extent_is_undefined(e: Extent2D) -> bool {
    e.width == UNDEFINED_EXTENT && e.height == UNDEFINED_EXTENT
}

pub open spec fn resolution_spec(c: SurfaceCapabilities) -> Extent2D {
    if extent_is_undefined(c.current_extent) {
        Extent2D { width: DEFAULT_WIDTH, height: DEFAULT_HEIGHT }
    } else {
        c.current_extent
    }
}

pub open spec fn pre_transform_spec(c: SurfaceCapabilities) -> u32 {
    if c.supported_transforms & TRANSFORM_IDENTITY == TRANSFORM_IDENTITY {
        TRANSFORM_IDENTITY
    } else {
        c.current_transform
    }
}

pub open spec fn present_mode_spec(modes: Seq<PresentMode>) -> PresentMode {
    if modes.contains(PresentMode::Mailbox) {
        PresentMode::Mailbox
    } else {
        PresentMode::Fifo
    }
}

/// Number of images to ask the swapchain for.
pub fn desired_image_count(caps: &SurfaceCapabilities) -> (r: u32)
    ensures
        r as int == image_count_spec(*caps),
{
    let wanted: u32 = if caps.min_image_count == u32::MAX {
        u32::MAX
    } else {
        caps.min_image_count + 1
    };
    if caps.max_image_count > 0 && wanted > caps.max_image_count {
        caps.max_image_count
    } else {
        wanted
    }
}

/// Resolution of the chain: the reported extent, or the default when the
/// surface reports the undefined sentinel in both dimensions.
pub fn surface_resolution(caps: &SurfaceCapabilities) -> (r: Extent2D)
    ensures
        r == resolution_spec(*caps),
{
    if caps.current_extent.width == UNDEFINED_EXTENT && caps.current_extent.height
        == UNDEFINED_EXTENT {
        Extent2D { width: DEFAULT_WIDTH, height: DEFAULT_HEIGHT }
    } else {
        caps.current_extent
    }
}

/// Identity when the surface supports it, else the surface's current transform.
pub fn choose_pre_transform(caps: &SurfaceCapabilities) -> (r: u32)
    ensures
        r == pre_transform_spec(*caps),
{
    if caps.supported_transforms & TRANSFORM_IDENTITY == TRANSFORM_IDENTITY {
        TRANSFORM_IDENTITY
    } else {
        caps.current_transform
    }
}

/// Mailbox when it is among the supported modes, else FIFO.
pub fn choose_present_mode(modes: &Vec<PresentMode>) -> (r: PresentMode)
    ensures
        r == present_mode_spec(modes@),
{
    let mut i: usize = 0;
    while i < modes.len()
        invariant
            0 <= i <= modes.len(),
            forall|j: int| 0 <= j < i ==> modes@[j] != PresentMode::Mailbox,
        decreases modes.len() - i,
    {
        if modes[i] == PresentMode::Mailbox {
            assert(modes@[i as int] == PresentMode::Mailbox);
            return PresentMode::Mailbox;
        }
        i = i + 1;
    }
    assert(!modes@.contains(PresentMode::Mailbox));
    PresentMode::Fifo
}

/// Every parameter of the presentable image chain that the surface decides.
#[derive(Clone, Copy, Debug, PartialEq, Eq, Structural)]
pub struct SwapchainConfig {
    pub format: SurfaceFormat,
    pub image_count: u32,
    pub extent: Extent2D,
    pub pre_transform: u32,
    pub present_mode: PresentMode,
}

/// Why the image chain cannot be configured.
#[derive(Clone, Copy, Debug, PartialEq, Eq, Structural)]
pub enum SurfaceError {
    /// The surface reports no format at all.
    NoSurfaceFormat,
}

pub open spec fn swapchain_config_spec(
    formats: Seq<SurfaceFormat>,
    caps: SurfaceCapabilities,
    modes: Seq<PresentMode>,
) -> SwapchainConfig
    recommends
        formats.len() > 0,
{
    SwapchainConfig {
        format: formats[0],
        image_count: image_count_spec(caps) as u32,
        extent: resolution_spec(caps),
        pre_transform: pre_transform_spec(caps),
        present_mode: present_mode_spec(modes),
    }
}

/// Configures the chain: the first reported format (no ranking), the image
/// count, the resolution, the pre-transform and the present mode.
pub fn choose_swapchain_config(
    formats: &Vec<SurfaceFormat>,
    caps: &SurfaceCapabilities,
    modes: &Vec<PresentMode>,
) -> (r: Result<SwapchainConfig, SurfaceError>)
    ensures
        formats@.len() == 0 <==> r == Err::<SwapchainConfig, SurfaceError>(
            SurfaceError::NoSurfaceFormat,
        ),
        formats@.len() > 0 ==> r == Ok::<SwapchainConfig, SurfaceError>(
            swapchain_config_spec(formats@, *caps, modes@),
        ),
{
    if formats.len() == 0 {
        return Err(SurfaceError::NoSurfaceFormat);
    }
    Ok(
        SwapchainConfig {
            format: formats[0],
            image_count: desired_image_count(caps),
            extent: surface_resolution(caps),
            pre_transform: choose_pre_transform(caps),
            present_mode: choose_present_mode(modes),
        },
    )
}

/// For every conforming capability report the image count lies between the
/// minimum and the maximum when the maximum is bounded, and is never below
/// the minimum otherwise.
pub proof fn lemma_image_count_within_bounds(caps: SurfaceCapabilities)
    requires
        caps.wf(),
    ensures
        caps.min_image_count <= image_count_spec(caps),
        caps.max_image_count > 0 ==> image_count_spec(caps) <= caps.max_image_count,
        image_count_spec(caps) <= u32::MAX,
{
}

/// The undefined sentinel gives exactly the default resolution; any other
/// reported extent is used unchanged.
pub proof fn lemma_resolution_rule(caps: SurfaceCapabilities)
    ensures
        extent_is_undefined(caps.current_extent) ==> resolution_spec(caps) == (Extent2D {
            width: DEFAULT_WIDTH,
            height: DEFAULT_HEIGHT,
        }),
        !extent_is_undefined(caps.current_extent) ==> resolution_spec(caps)
            == caps.current_extent,
{
}

/// Mailbox is chosen exactly when it is supported; otherwise FIFO, which is
/// always available, so the choice never fails. A list holding only FIFO
/// gives FIFO.
pub proof fn lemma_present_mode_choice(modes: Seq<PresentMode>)
    ensures
        modes.contains(PresentMode::Mailbox) ==> present_mode_spec(modes) == PresentMode::Mailbox,
        !modes.contains(PresentMode::Mailbox) ==> present_mode_spec(modes) == PresentMode::Fifo,
        modes == seq![PresentMode::Fifo] ==> present_mode_spec(modes) == PresentMode::Fifo,
{
    if modes == seq![PresentMode::Fifo] {
        assert(!modes.contains(PresentMode::Mailbox)) by {
            if modes.contains(PresentMode::Mailbox) {
                let j = choose|j: int| 0 <= j < modes.len() && modes[j] == PresentMode::Mailbox;
                assert(modes[j] == PresentMode::Fifo);
            }
        }
    }
}

} // verus!
