//! Swapchain configuration decisions.
//!
//! The platform layer queries the device and surface and hands the plain
//! capability values in; these functions make the choices the engine is
//! responsible for: surface format, present mode, extent, and queue
//! families.

use vstd::prelude::*;

use crate::gpu::ImageFormat;
use crate::queue::QueueFamilyIndices;

verus! {

/// Window dimensions requested when the surface reports no fixed extent.
pub const WIDTH: u32 = 1280;

pub const HEIGHT: u32 = 720;

/// How presented images are queued.
#[derive(Clone, Copy, Debug, PartialEq, Eq)]
pub enum PresentMode {
    Mailbox,
    Immediate,
    Fifo,
}

/// Which present modes the surface supports; first-in-first-out is always
/// available.
#[derive(Clone, Copy, Debug, PartialEq, Eq)]
pub struct SupportedPresentModes {
    pub mailbox: bool,
    pub immediate: bool,
    pub fifo: bool,
}

/// Color spaces a surface format can be offered in.
#[derive(Clone, Copy, Debug, PartialEq, Eq, Structural)]
pub enum ColorSpace {
    SrgbNonLinear,
    DisplayP3NonLinear,
    ExtendedSrgbLinear,
}

/// Capabilities of one queue family, as queried from the device.
#[derive(Clone, Copy, Debug, PartialEq, Eq)]
pub struct QueueFamilyProps {
    pub supports_graphics: bool,
    pub supports_present: bool,
}

/// The format the engine prefers when the surface offers it.
pub open spec fn preferred_format() -> (ImageFormat, ColorSpace) {
    (ImageFormat::B8G8R8A8Unorm, ColorSpace::SrgbNonLinear)
}

/// Picks the surface format: the preferred 8-bit BGRA format in the sRGB
/// color space when offered, the first offer otherwise.
pub fn choose_swap_surface_format(available_formats: &Vec<(ImageFormat, ColorSpace)>) -> (r: (
    ImageFormat,
    ColorSpace,
))
    requires
        available_formats@.len() > 0,
    ensures
        available_formats@.contains(preferred_format()) ==> r == preferred_format(),
        !available_formats@.contains(preferred_format()) ==> r == available_formats@[0],
{
    let mut i: usize = 0;
    while i < available_formats.len()
        invariant
            i <= available_formats@.len(),
            forall|k: int| 0 <= k < i ==> available_formats@[k] != preferred_format(),
        decreases available_formats@.len() - i,
    {
        let (format, color_space) = available_formats[i];
        if format == ImageFormat::B8G8R8A8Unorm && color_space == ColorSpace::SrgbNonLinear {
            proof {
                assert(available_formats@[i as int] == preferred_format());
                assert(available_formats@.contains(preferred_format()));
            }
            return (format, color_space);
        }
        i += 1;
    }
    proof {
        assert(forall|k: int|
            0 <= k < available_formats@.len() ==> available_formats@[k] != preferred_format());
        assert(!available_formats@.contains(preferred_format()));
    }
    available_formats[0]
}

/// Picks the present mode: mailbox when supported, immediate otherwise,
/// first-in-first-out as the guaranteed fallback.
pub fn choose_swap_present_mode(available_present_modes: SupportedPresentModes) -> (r: PresentMode)
    ensures
        r == (if available_present_modes.mailbox {
            PresentMode::Mailbox
        } else if available_present_modes.immediate {
            PresentMode::Immediate
        } else {
            PresentMode::Fifo
        }),
{
    if available_present_modes.mailbox {
        PresentMode::Mailbox
    } else if available_present_modes.immediate {
        PresentMode::Immediate
    } else {
        PresentMode::Fifo
    }
}

/// One dimension of the fallback extent: the requested size clamped into
/// the surface's supported range.
pub open spec fn clamped_extent(min: u32, max: u32, requested: u32) -> u32 {
    if (if requested < max {
        requested
    } else {
        max
    }) > min {
        if requested < max {
            requested
        } else {
            max
        }
    } else {
        min
    }
}

/// Picks the swapchain extent: the surface's current extent when it has
/// one, otherwise the requested window size clamped into the supported
/// range, dimension by dimension.
pub fn choose_swap_extent(
    current_extent: Option<[u32; 2]>,
    min_image_extent: [u32; 2],
    max_image_extent: [u32; 2],
) -> (r: [u32; 2])
    ensures
        current_extent is Some ==> r == current_extent.unwrap(),
        current_extent is None ==> r@ == seq![
            clamped_extent(min_image_extent[0], max_image_extent[0], WIDTH),
            clamped_extent(min_image_extent[1], max_image_extent[1], HEIGHT),
        ],
{
    match current_extent {
        Some(extent) => extent,
        None => {
            let mut actual_extent = [WIDTH, HEIGHT];
            let capped_w = if WIDTH < max_image_extent[0] {
                WIDTH
            } else {
                max_image_extent[0]
            };
            actual_extent[0] = if capped_w > min_image_extent[0] {
                capped_w
            } else {
                min_image_extent[0]
            };
            let capped_h = if HEIGHT < max_image_extent[1] {
                HEIGHT
            } else {
                max_image_extent[1]
            };
            actual_extent[1] = if capped_h > min_image_extent[1] {
                capped_h
            } else {
                min_image_extent[1]
            };
            proof {
                assert(actual_extent@ =~= seq![
                    clamped_extent(min_image_extent[0], max_image_extent[0], WIDTH),
                    clamped_extent(min_image_extent[1], max_image_extent[1], HEIGHT),
                ]);
            }
            actual_extent
        },
    }
}

/// How the swapchain images are shared between queues.
#[derive(Clone, Copy, Debug, PartialEq, Eq)]
pub enum SharingMode {
    Exclusive,
    Concurrent,
}

/// Picks the image sharing mode: concurrent when graphics and
/// presentation use different queue families, exclusive otherwise.
pub fn choose_sharing_mode(indices: &QueueFamilyIndices) -> (r: SharingMode)
    ensures
        r == (if indices.graphics_family != indices.present_family {
            SharingMode::Concurrent
        } else {
            SharingMode::Exclusive
        }),
{
    if indices.graphics_family != indices.present_family {
        SharingMode::Concurrent
    } else {
        SharingMode::Exclusive
    }
}

/// Picks how many images the swapchain gets: one above the supported
/// minimum, capped at the supported maximum where the surface has one.
pub fn swapchain_image_count(min_image_count: u32, max_image_count: Option<u32>) -> (r: u32)
    requires
        min_image_count < u32::MAX,
    ensures
        r == (match max_image_count {
            Some(max) => if min_image_count + 1 > max {
                max
            } else {
                (min_image_count + 1) as u32
            },
            None => (min_image_count + 1) as u32,
        }),
{
    let desired = min_image_count + 1;
    match max_image_count {
        Some(max) => if desired > max {
            max
        } else {
            desired
        },
        None => desired,
    }
}

/// The scan `find_queue_families` performs from position `i` onwards:
/// each family that supports graphics or presentation overwrites the
/// respective index, and the scan stops at the first position where both
/// are found.
pub open spec fn find_queue_families_spec(
    fams: Seq<QueueFamilyProps>,
    i: int,
    cur: QueueFamilyIndices,
) -> QueueFamilyIndices
    decreases fams.len() - i,
{
    if i < 0 || i >= fams.len() {
        cur
    } else {
        let g = if fams[i].supports_graphics {
            QueueFamilyIndices { graphics_family: i as i32, ..cur }
        } else {
            cur
        };
        let p = if fams[i].supports_present {
            QueueFamilyIndices { present_family: i as i32, ..g }
        } else {
            g
        };
        if p.graphics_family >= 0 && p.present_family >= 0 {
            p
        } else {
            find_queue_families_spec(fams, i + 1, p)
        }
    }
}

/// Scans the device's queue families for one that supports graphics and
/// one that supports presentation, stopping as soon as both are found.
pub fn find_queue_families(families: &Vec<QueueFamilyProps>) -> (r: QueueFamilyIndices)
    requires
        families@.len() <= i32::MAX,
    ensures
        r == find_queue_families_spec(families@, 0, QueueFamilyIndices {
            graphics_family: -1i32,
            present_family: -1i32,
        }),
{
    let ghost init = QueueFamilyIndices { graphics_family: -1i32, present_family: -1i32 };
    let mut indices = QueueFamilyIndices::new();
    let mut i: usize = 0;
    while i < families.len()
        invariant_except_break
            i <= families@.len(),
            families@.len() <= i32::MAX,
            !(indices.graphics_family >= 0 && indices.present_family >= 0),
            find_queue_families_spec(families@, 0, init) == find_queue_families_spec(
                families@,
                i as int,
                indices,
            ),
        ensures
            indices == find_queue_families_spec(families@, 0, init),
        decreases families@.len() - i,
    {
        let ghost prev = indices;
        if families[i].supports_graphics {
            indices.graphics_family = i as i32;
        }
        if families[i].supports_present {
            indices.present_family = i as i32;
        }
        proof {
            let g = if families@[i as int].supports_graphics {
                QueueFamilyIndices { graphics_family: i as i32, ..prev }
            } else {
                prev
            };
            let p = if families@[i as int].supports_present {
                QueueFamilyIndices { present_family: i as i32, ..g }
            } else {
                g
            };
            assert(indices == p);
        }
        if indices.graphics_family >= 0 && indices.present_family >= 0 {
            break;
        }
        i += 1;
    }
    indices
}

} // verus!
