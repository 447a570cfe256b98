//! Choices that shape the swapchain: the surface format, the present mode,
//! the image extent, the number of images, and how the images are shared
//! between the graphics queue and the present queue.

use crate::config::{WINDOW_HEIGHT, WINDOW_WIDTH};
use crate::queues::QueueFamilyIndices;
use vstd::prelude::*;

verus! {

/// The surface format the bootstrap prefers: 8-bit BGRA with sRGB encoding.
pub const FORMAT_B8G8R8A8_SRGB: i32 = 50;

/// The colour space the bootstrap prefers: non-linear sRGB.
pub const COLOR_SPACE_SRGB_NONLINEAR: i32 = 0;

/// Present mode that replaces queued images as newer ones arrive.
pub const PRESENT_MODE_MAILBOX: i32 = 1;

/// Present mode that queues images first in, first out; always available.
pub const PRESENT_MODE_FIFO: i32 = 2;

/// A width and height in pixels.
#[derive(Clone, Copy, Debug, PartialEq, Eq, Structural)]
pub struct Extent2D {
    pub width: u32,
    pub height: u32,
}

/// A surface format as the driver reports it: a pixel format code and a
/// colour space code.
#[derive(Clone, Copy, Debug, PartialEq, Eq, Structural)]
pub struct SurfaceFormat {
    pub format: i32,
    pub color_space: i32,
}

/// What the surface reports of its capabilities, reduced to the parts the
/// choices read.
#[derive(Clone, Copy, Debug, PartialEq, Eq, Structural)]
pub struct SurfaceCapabilities {
    pub min_image_count: u32,
    pub max_image_count: u32,
    pub current_extent: Extent2D,
    pub min_image_extent: Extent2D,
    pub max_image_extent: Extent2D,
}

/// What the surface supports of a physical device: its capabilities, the
/// formats it offers and the present modes it offers.
#[derive(Clone, Debug)]
pub struct SwapChainSupportDetails {
    pub capabilities: SurfaceCapabilities,
    pub formats: Vec<SurfaceFormat>,
    pub present_modes: Vec<i32>,
}

/// The format the choice looks for first.
pub open spec fn preferred_format(f: SurfaceFormat) -> bool {
    f.format == FORMAT_B8G8R8A8_SRGB && f.color_space == COLOR_SPACE_SRGB_NONLINEAR
}

/// Some format at index `i` or later is the preferred one.
pub open spec fn has_preferred_format_from(formats: Seq<SurfaceFormat>, i: int) -> bool {
    exists|j: int| i <= j < formats.len() && preferred_format(#[trigger] formats[j])
}

/// The format chosen from index `i` onward: the first preferred one, or the
/// overall first format when none is preferred.
pub open spec fn choose_format_from(formats: Seq<SurfaceFormat>, i: int) -> SurfaceFormat
    decreases formats.len() - i,
{
    if i < 0 || i >= formats.len() {
        formats[0]
    } else if preferred_format(formats[i]) {
        formats[i]
    } else {
        choose_format_from(formats, i + 1)
    }
}

/// The surface format the choice settles on.
pub open spec fn chosen_surface_format(formats: Seq<SurfaceFormat>) -> SurfaceFormat {
    choose_format_from(formats, 0)
}

pub proof fn lemma_choose_format_from_props(formats: Seq<SurfaceFormat>, i: int)
    requires
        0 < formats.len(),
        0 <= i <= formats.len(),
    ensures
        preferred_format(choose_format_from(formats, i)) || choose_format_from(formats, i)
            == formats[0],
        has_preferred_format_from(formats, i) ==> preferred_format(choose_format_from(formats, i)),
    decreases formats.len() - i,
{
    if i < formats.len() && !preferred_format(formats[i]) {
        lemma_choose_format_from_props(formats, i + 1);
        assert(has_preferred_format_from(formats, i) ==> has_preferred_format_from(
            formats,
            i + 1,
        )) by {
            if has_preferred_format_from(formats, i) {
                let j = choose|j: int| i <= j < formats.len() && preferred_format(
                    #[trigger] formats[j],
                );
                assert(preferred_format(formats[j]));
            }
        }
    }
}

/// The first format that is 8-bit BGRA in non-linear sRGB, or the first
/// reported format when none is.
pub fn choose_swap_surface_format(available_formats: &Vec<SurfaceFormat>) -> (r: SurfaceFormat)
    requires
        available_formats@.len() > 0,
    ensures
        r == chosen_surface_format(available_formats@),
        preferred_format(r) || r == available_formats@[0],
        has_preferred_format_from(available_formats@, 0) ==> preferred_format(r),
{
    proof {
        lemma_choose_format_from_props(available_formats@, 0);
    }
    let mut i: usize = 0;
    while i < available_formats.len()
        invariant
            0 <= i <= available_formats@.len(),
            available_formats@.len() > 0,
            choose_format_from(available_formats@, i as int) == chosen_surface_format(
                available_formats@,
            ),
        decreases available_formats@.len() - i,
    {
        let f = available_formats[i];
        if f.format == FORMAT_B8G8R8A8_SRGB && f.color_space == COLOR_SPACE_SRGB_NONLINEAR {
            return f;
        }
        i = i + 1;
    }
    available_formats[0]
}

/// The present mode the choice settles on: mailbox when offered, else FIFO.
pub open spec fn chosen_present_mode(modes: Seq<i32>) -> i32 {
    if modes.contains(PRESENT_MODE_MAILBOX) {
        PRESENT_MODE_MAILBOX
    } else {
        PRESENT_MODE_FIFO
    }
}

/// Mailbox when the surface offers it, else FIFO.
pub fn choose_swap_present_mode(available_present_modes: &Vec<i32>) -> (r: i32)
    ensures
        r == chosen_present_mode(available_present_modes@),
{
    let mut i: usize = 0;
    while i < available_present_modes.len()
        invariant
            0 <= i <= available_present_modes@.len(),
            forall|j: int| 0 <= j < i ==> available_present_modes@[j] != PRESENT_MODE_MAILBOX,
        decreases available_present_modes@.len() - i,
    {
        if available_present_modes[i] == PRESENT_MODE_MAILBOX {
            proof {
                assert(available_present_modes@.contains(PRESENT_MODE_MAILBOX));
            }
            return PRESENT_MODE_MAILBOX;
        }
        i = i + 1;
    }
    proof {
        assert(!available_present_modes@.contains(PRESENT_MODE_MAILBOX));
    }
    PRESENT_MODE_FIFO
}

/// `x` forced into the range `lo ..= hi`.
pub open spec fn clamped(x: int, lo: int, hi: int) -> int {
    if x < lo {
        lo
    } else if x > hi {
        hi
    } else {
        x
    }
}

/// Relies on num::clamp: a value below `min` gives `min`, one above `max`
/// gives `max`, any other itself. It may panic when `min > max`, so that
/// case is kept out.
#[verifier::external_body]
fn clamp_u32(input: u32, min: u32, max: u32) -> (r: u32)
    requires
        min <= max,
    ensures
        r == clamped(input as int, min as int, max as int),
{
    num::clamp(input, min, max)
}

/// The extent the swapchain is built with.
pub open spec fn chosen_swap_extent(caps: SurfaceCapabilities) -> Extent2D {
    if caps.current_extent.width != u32::MAX {
        caps.current_extent
    } else {
        Extent2D {
            width: clamped(
                WINDOW_WIDTH as int,
                caps.min_image_extent.width as int,
                caps.max_image_extent.width as int,
            ) as u32,
            height: clamped(
                WINDOW_HEIGHT as int,
                caps.min_image_extent.height as int,
                caps.max_image_extent.height as int,
            ) as u32,
        }
    }
}

/// The surface's current extent when it is fixed; otherwise the window size
/// forced into the extent range the surface allows.
pub fn choose_swap_extent(caps: &SurfaceCapabilities) -> (r: Extent2D)
    requires
        caps.current_extent.width == u32::MAX ==> caps.min_image_extent.width
            <= caps.max_image_extent.width && caps.min_image_extent.height
            <= caps.max_image_extent.height,
    ensures
        r == chosen_swap_extent(*caps),
{
    if caps.current_extent.width != u32::MAX {
        caps.current_extent
    } else {
        Extent2D {
            width: clamp_u32(
                WINDOW_WIDTH,
                caps.min_image_extent.width,
                caps.max_image_extent.width,
            ),
            height: clamp_u32(
                WINDOW_HEIGHT,
                caps.min_image_extent.height,
                caps.max_image_extent.height,
            ),
        }
    }
}

/// The number of images asked of the swapchain: one more than the minimum
/// the surface demands, capped at the surface's maximum when it states one
/// (zero meaning no bound).
pub open spec fn chosen_image_count(min_count: u32, max_count: u32) -> int {
    if max_count > 0 && min_count + 1 > max_count {
        max_count as int
    } else {
        min_count as int + 1
    }
}

pub fn choose_image_count(min_count: u32, max_count: u32) -> (r: u32)
    requires
        min_count < u32::MAX,
    ensures
        r == chosen_image_count(min_count, max_count),
{
    let desired: u32 = min_count + 1;
    if max_count > 0 && desired > max_count {
        max_count
    } else {
        desired
    }
}

/// How the swapchain images are shared between queues.
#[derive(Clone, Copy, Debug, PartialEq, Eq, Structural)]
pub enum ImageSharing {
    Exclusive,
    Concurrent,
}

/// Concurrent sharing across the two distinct queue families when graphics
/// and presentation live in different families; exclusive ownership and no
/// family list when they coincide.
pub fn swapchain_sharing_mode(indices: &QueueFamilyIndices) -> (r: (ImageSharing, Vec<u32>))
    requires
        indices.complete(),
    ensures
        ({
            let g = indices.graphics_family.unwrap();
            let p = indices.present_family.unwrap();
            &&& (g != p ==> r.0 == ImageSharing::Concurrent && r.1@ == seq![g, p])
            &&& (g == p ==> r.0 == ImageSharing::Exclusive && r.1@.len() == 0)
        }),
{
    let g = indices.graphics_family.unwrap();
    let p = indices.present_family.unwrap();
    if g != p {
        let mut shared: Vec<u32> = Vec::new();
        shared.push(g);
        shared.push(p);
        proof {
            assert(shared@ =~= seq![g, p]);
        }
        (ImageSharing::Concurrent, shared)
    } else {
        (ImageSharing::Exclusive, Vec::new())
    }
}

} // verus!
