//! Swapchain configuration: the deterministic choice of surface format,
//! present mode, extent, image count and queue sharing from a snapshot of
//! the surface's capabilities.
//!
//! The application queries the platform for the raw capability data, hands
//! it over as plain values, and creates the actual swapchain from the
//! configuration computed here.

use vstd::prelude::*;

verus! {

/// Raw value of the 8-bit BGRA sRGB pixel format.
pub const FORMAT_B8G8R8A8_SRGB: u32 = 50;

/// Raw value of the standard non-linear sRGB color space.
pub const COLOR_SPACE_SRGB_NONLINEAR: u32 = 0;

/// A pixel extent in width and height.
#[derive(Clone, Copy, Debug, PartialEq, Eq, Structural)]
pub struct Extent {
    pub width: u32,
    pub height: u32,
}

/// A surface format: a pixel format paired with a color space, both as the
/// platform's raw values.
#[derive(Clone, Copy, Debug, PartialEq, Eq, Structural)]
pub struct SurfaceFormat {
    pub format: u32,
    pub color_space: u32,
}

/// How presentable images are queued for display.
#[derive(Clone, Copy, Debug, PartialEq, Eq, Structural)]
pub enum PresentMode {
    /// Present immediately, possibly tearing.
    Immediate,
    /// Triple-buffered queueing: no tearing, submission never blocks.
    Mailbox,
    /// Blocking vertical sync; always available.
    Fifo,
    /// Vertical sync that tears when a frame is late.
    FifoRelaxed,
}

/// How the graphics and present queue families share swapchain images.
#[derive(Clone, Copy, Debug, PartialEq, Eq, Structural)]
pub enum SharingMode {
    /// One queue family owns the images.
    Exclusive,
    /// The listed queue families access the images concurrently.
    Concurrent,
}

/// A snapshot of the surface's capabilities, taken fresh before each
/// swapchain build.
#[derive(Clone, Copy, Debug, PartialEq, Eq, Structural)]
pub struct SurfaceCaps {
    /// Fewest images the surface supports.
    pub min_image_count: u32,
    /// Most images the surface supports; `0` means unbounded.
    pub max_image_count: u32,
    /// The extent the surface fixes, or `None` when the window system lets
    /// the application choose within the bounds below.
    pub current_extent: Option<Extent>,
    /// Smallest extent the surface allows.
    pub min_extent: Extent,
    /// Largest extent the surface allows.
    pub max_extent: Extent,
}

/// Everything the application needs to create the swapchain.
#[derive(Clone, Debug)]
pub struct SwapchainConfig {
    pub format: SurfaceFormat,
    pub present_mode: PresentMode,
    pub extent: Extent,
    pub image_count: u32,
    pub sharing: SharingMode,
    /// Queue families named in the sharing declaration: empty under
    /// exclusive sharing, graphics then present under concurrent sharing.
    pub queue_families: Vec<u32>,
}

/// The format preferred whenever the surface offers it.
pub open spec fn preferred_surface_format() -> SurfaceFormat {
    SurfaceFormat { format: FORMAT_B8G8R8A8_SRGB, color_space: COLOR_SPACE_SRGB_NONLINEAR }
}

/// Whether some offered format is the preferred one.
pub open spec fn has_preferred_format(formats: Seq<SurfaceFormat>) -> bool {
    exists|i: int| 0 <= i < formats.len() && formats[i] == preferred_surface_format()
}

/// `x` clamped into `[lo, hi]`, with `lo` winning on an empty range.
pub open spec fn clamp_u32(x: u32, lo: u32, hi: u32) -> u32 {
    if x < lo {
        lo
    } else if x > hi {
        hi
    } else {
        x
    }
}

/// The extent the builder settles on: the surface's fixed extent when there
/// is one, otherwise the requested extent clamped per axis into the
/// surface's bounds.
pub open spec fn spec_choose_extent(caps: SurfaceCaps, requested: Extent) -> Extent {
    match caps.current_extent {
        Some(fixed) => fixed,
        None => Extent {
            width: clamp_u32(requested.width, caps.min_extent.width, caps.max_extent.width),
            height: clamp_u32(requested.height, caps.min_extent.height, caps.max_extent.height),
        },
    }
}

/// The image count the builder settles on: one more than the surface's
/// minimum, capped at the maximum unless the maximum is `0` (unbounded).
pub open spec fn spec_image_count(caps: SurfaceCaps) -> int {
    let desired = caps.min_image_count + 1;
    if caps.max_image_count != 0 && desired > caps.max_image_count {
        caps.max_image_count as int
    } else {
        desired
    }
}

/// The present mode the builder settles on: mailbox when offered, else the
/// always-available blocking vertical sync.
pub open spec fn spec_choose_present_mode(modes: Seq<PresentMode>) -> PresentMode {
    if modes.contains(PresentMode::Mailbox) {
        PresentMode::Mailbox
    } else {
        PresentMode::Fifo
    }
}

/// The surface format the builder settles on: the preferred format when
/// offered, else the first offered format.
pub open spec fn spec_choose_format(formats: Seq<SurfaceFormat>) -> SurfaceFormat {
    if has_preferred_format(formats) {
        preferred_surface_format()
    } else {
        formats[0]
    }
}

/// What a correctly built configuration looks like for the given inputs.
pub open spec fn config_matches(
    c: SwapchainConfig,
    caps: SurfaceCaps,
    formats: Seq<SurfaceFormat>,
    modes: Seq<PresentMode>,
    requested: Extent,
    graphics_family: u32,
    present_family: u32,
) -> bool {
    &&& c.format == spec_choose_format(formats)
    &&& c.present_mode == spec_choose_present_mode(modes)
    &&& c.extent == spec_choose_extent(caps, requested)
    &&& c.image_count == spec_image_count(caps)
    &&& (graphics_family == present_family ==> c.sharing == SharingMode::Exclusive
        && c.queue_families@ == Seq::<u32>::empty())
    &&& (graphics_family != present_family ==> c.sharing == SharingMode::Concurrent
        && c.queue_families@ == seq![graphics_family, present_family])
}

/// Picks the surface format, preferring 8-bit BGRA in the standard
/// non-linear color space and falling back to the first offered format.
pub fn choose_surface_format(formats: &Vec<SurfaceFormat>) -> (r: SurfaceFormat)
    requires
        formats@.len() > 0,
    ensures
        r == spec_choose_format(formats@),
{
    let n = formats.len();
    let mut i: usize = 0;
    while i < n
        invariant
            n == formats@.len(),
            0 <= i <= n,
            forall|j: int| 0 <= j < i ==> formats@[j] != preferred_surface_format(),
        decreases n - i,
    {
        let f = formats[i];
        if f.format == FORMAT_B8G8R8A8_SRGB && f.color_space == COLOR_SPACE_SRGB_NONLINEAR {
            assert(formats@[i as int] == preferred_surface_format());
            return f;
        }
        i += 1;
    }
    assert(!has_preferred_format(formats@));
    formats[0]
}

/// Picks the present mode, preferring mailbox-style triple buffering and
/// falling back to blocking vertical sync.
pub fn choose_present_mode(modes: &Vec<PresentMode>) -> (r: PresentMode)
    ensures
        r == spec_choose_present_mode(modes@),
{
    let n = modes.len();
    let mut i: usize = 0;
    while i < n
        invariant
            n == modes@.len(),
            0 <= i <= n,
            forall|j: int| 0 <= j < i ==> modes@[j] != PresentMode::Mailbox,
        decreases n - i,
    {
        if matches!(modes[i], PresentMode::Mailbox) {
            assert(modes@.contains(PresentMode::Mailbox));
            return PresentMode::Mailbox;
        }
        i += 1;
    }
    assert(!modes@.contains(PresentMode::Mailbox)) by {
        if modes@.contains(PresentMode::Mailbox) {
            let k = choose|k: int| 0 <= k < modes@.len() && modes@[k] == PresentMode::Mailbox;
            assert(modes@[k] != PresentMode::Mailbox);
        }
    }
    PresentMode::Fifo
}

/// Resolves the drawable extent: the surface's fixed extent when reported,
/// otherwise the requested window extent clamped per axis.
pub fn choose_extent(caps: &SurfaceCaps, requested: Extent) -> (r: Extent)
    ensures
        r == spec_choose_extent(*caps, requested),
{
    match caps.current_extent {
        Some(fixed) => fixed,
        None => {
            let w = clamp_u32_exec(requested.width, caps.min_extent.width, caps.max_extent.width);
            let h = clamp_u32_exec(
                requested.height,
                caps.min_extent.height,
                caps.max_extent.height,
            );
            Extent { width: w, height: h }
        },
    }
}

/// Clamps one axis of an extent into the surface's bounds.
fn clamp_u32_exec(x: u32, lo: u32, hi: u32) -> (r: u32)
    ensures
        r == clamp_u32(x, lo, hi),
{
    if x < lo {
        lo
    } else if x > hi {
        hi
    } else {
        x
    }
}

/// Picks the number of swapchain images: one above the surface's minimum,
/// clamped to its maximum when that maximum is bounded.
pub fn choose_image_count(caps: &SurfaceCaps) -> (r: u32)
    requires
        caps.min_image_count < u32::MAX,
    ensures
        r == spec_image_count(*caps),
{
    let desired = caps.min_image_count + 1;
    if caps.max_image_count != 0 && desired > caps.max_image_count {
        caps.max_image_count
    } else {
        desired
    }
}

/// Builds the whole swapchain configuration from one capability snapshot.
///
/// Requires at least one offered format, which device selection guarantees
/// before any swapchain is built.
pub fn build(
    caps: &SurfaceCaps,
    formats: &Vec<SurfaceFormat>,
    modes: &Vec<PresentMode>,
    requested: Extent,
    graphics_family: u32,
    present_family: u32,
) -> (c: SwapchainConfig)
    requires
        formats@.len() > 0,
        caps.min_image_count < u32::MAX,
    ensures
        config_matches(c, *caps, formats@, modes@, requested, graphics_family, present_family),
{
    let format = choose_surface_format(formats);
    let present_mode = choose_present_mode(modes);
    let extent = choose_extent(caps, requested);
    let image_count = choose_image_count(caps);
    let mut queue_families: Vec<u32> = Vec::new();
    let sharing = if graphics_family == present_family {
        SharingMode::Exclusive
    } else {
        queue_families.push(graphics_family);
        queue_families.push(present_family);
        SharingMode::Concurrent
    };
    if graphics_family != present_family {
        assert(queue_families@ =~= seq![graphics_family, present_family]);
    } else {
        assert(queue_families@ =~= Seq::<u32>::empty());
    }
    SwapchainConfig { format, present_mode, extent, image_count, sharing, queue_families }
}

/// Rebuilding from an unchanged capability snapshot and an unchanged
/// requested extent settles on the same configuration: in particular the
/// same image count and the same extent both times.
pub proof fn lemma_rebuild_same_inputs_same_config(
    c1: SwapchainConfig,
    c2: SwapchainConfig,
    caps: SurfaceCaps,
    formats: Seq<SurfaceFormat>,
    modes: Seq<PresentMode>,
    requested: Extent,
    graphics_family: u32,
    present_family: u32,
)
    requires
        config_matches(c1, caps, formats, modes, requested, graphics_family, present_family),
        config_matches(c2, caps, formats, modes, requested, graphics_family, present_family),
    ensures
        c1.image_count == c2.image_count,
        c1.extent == c2.extent,
        c1.format == c2.format,
        c1.present_mode == c2.present_mode,
        c1.sharing == c2.sharing,
        c1.queue_families@ == c2.queue_families@,
{
}

} // verus!
