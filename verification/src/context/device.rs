//! Choosing a physical device and its queue families, and the swapchain
//! settings for a surface.

use vstd::prelude::*;
use crate::vk;

verus! {

/// The queue families of a device that serve graphics, compute and
/// presentation.
#[derive(Clone, Copy, Debug, PartialEq, Eq, Structural)]
pub struct QueueFamilies {
    pub graphics: Option<u32>,
    pub compute: Option<u32>,
    pub present: Option<u32>,
}

impl QueueFamilies {
    pub open spec fn spec_is_complete(&self) -> bool {
        self.graphics is Some && self.compute is Some && self.present is Some
    }

    /// All three kinds of queue have a family.
    pub fn is_complete(&self) -> (complete: bool)
        ensures
            complete == self.spec_is_complete(),
    {
        self.graphics.is_some() && self.compute.is_some() && self.present.is_some()
    }
}

/// The families after looking at family `index`: it becomes the graphics
/// (compute) family if it supports graphics (compute), and the present
/// family if presentation to the surface is supported from it.
pub open spec fn family_step(q: QueueFamilies, index: u32, queue_flags: u32, present: bool) -> QueueFamilies {
    QueueFamilies {
        graphics: if queue_flags & vk::QUEUE_GRAPHICS == vk::QUEUE_GRAPHICS { Some(index) } else { q.graphics },
        compute: if queue_flags & vk::QUEUE_COMPUTE == vk::QUEUE_COMPUTE { Some(index) } else { q.compute },
        present: if present { Some(index) } else { q.present },
    }
}

/// The families after looking at the first `n` families in order; without
/// a surface no family presents.
pub open spec fn families_after(flags: Seq<u32>, present: Seq<bool>, has_surface: bool, n: nat) -> QueueFamilies
    decreases n,
{
    if n == 0 {
        QueueFamilies { graphics: None, compute: None, present: None }
    } else {
        let m = (n - 1) as nat;
        family_step(families_after(flags, present, has_surface, m), m as u32, flags[m as int],
            has_surface && present[m as int])
    }
}

/// The search is done once graphics and compute have a family, and so has
/// presentation where there is a surface.
pub open spec fn families_done(q: QueueFamilies, has_surface: bool) -> bool {
    q.graphics is Some && q.compute is Some && (q.present is Some || !has_surface)
}

/// How many families the search looks at: up to the first after which it
/// is done, or all.
pub open spec fn scan_end(flags: Seq<u32>, present: Seq<bool>, has_surface: bool, n: nat) -> nat
    decreases flags.len() - n,
{
    if n >= flags.len() {
        flags.len()
    } else if families_done(families_after(flags, present, has_surface, n + 1), has_surface) {
        n + 1
    } else {
        scan_end(flags, present, has_surface, n + 1)
    }
}

/// The queue families of a device, from the flags of each of its queue
/// families and whether each can present to the surface; where there is no
/// surface, no family presents, whatever `present_support` says. Families are looked at in order; a later family
/// replaces an earlier one, until the search is done.
pub fn get_queue_family_indices(queue_flags: &Vec<u32>, present_support: &Vec<bool>, has_surface: bool) -> (families: QueueFamilies)
    requires
        present_support@.len() == queue_flags@.len(),
        queue_flags@.len() <= u32::MAX,
    ensures
        families == families_after(queue_flags@, present_support@, has_surface, scan_end(queue_flags@, present_support@, has_surface, 0)),
{
    let mut queue_family_indices = QueueFamilies { graphics: None, compute: None, present: None };
    let mut current_index: u32 = 0;
    let mut i: usize = 0;
    while i < queue_flags.len()
        invariant
            0 <= i <= queue_flags.len(),
            present_support@.len() == queue_flags@.len(),
            queue_flags@.len() <= u32::MAX,
            current_index == i,
            queue_family_indices == families_after(queue_flags@, present_support@, has_surface, i as nat),
            scan_end(queue_flags@, present_support@, has_surface, 0) == scan_end(queue_flags@, present_support@, has_surface, i as nat),
        decreases queue_flags.len() - i,
    {
        let flags = queue_flags[i];
        if flags & vk::QUEUE_GRAPHICS == vk::QUEUE_GRAPHICS {
            queue_family_indices.graphics = Some(current_index);
        }
        if flags & vk::QUEUE_COMPUTE == vk::QUEUE_COMPUTE {
            queue_family_indices.compute = Some(current_index);
        }
        if has_surface && present_support[i] {
            queue_family_indices.present = Some(current_index);
        }
        if queue_family_indices.graphics.is_some() && queue_family_indices.compute.is_some()
            && (queue_family_indices.present.is_some() || !has_surface) {
            return queue_family_indices;
        }
        current_index = current_index + 1;
        i = i + 1;
    }
    queue_family_indices
}

/// A device is suitable if its required extensions are supported and its
/// queue families are complete; without a surface, presentation is not
/// needed.
pub open spec fn device_suitable(families: QueueFamilies, extensions_supported: bool, has_surface: bool) -> bool {
    if has_surface {
        families.spec_is_complete() && extensions_supported
    } else {
        families.graphics is Some && families.compute is Some && extensions_supported
    }
}

pub fn is_physical_device_suitable(families: &QueueFamilies, extensions_supported: bool, has_surface: bool) -> (suitable: bool)
    ensures
        suitable == device_suitable(*families, extensions_supported, has_surface),
{
    if has_surface {
        families.is_complete() && extensions_supported
    } else {
        families.graphics.is_some() && families.compute.is_some() && extensions_supported
    }
}

/// What is known of a physical device when choosing one.
#[derive(Clone, Copy, Debug, PartialEq, Eq, Structural)]
pub struct DeviceCandidate {
    pub queue_families: QueueFamilies,
    pub extensions_supported: bool,
}

/// The first suitable device, by position, or none.
pub fn pick_physical_device(candidates: &Vec<DeviceCandidate>, has_surface: bool) -> (picked: Option<usize>)
    ensures
        match picked {
            Some(i) => i < candidates@.len()
                && device_suitable(candidates@[i as int].queue_families, candidates@[i as int].extensions_supported, has_surface)
                && forall|j: int| 0 <= j < i ==> !device_suitable(#[trigger] candidates@[j].queue_families,
                    candidates@[j].extensions_supported, has_surface),
            None => forall|j: int| 0 <= j < candidates@.len() ==> !device_suitable(#[trigger] candidates@[j].queue_families,
                candidates@[j].extensions_supported, has_surface),
        },
{
    let mut i: usize = 0;
    while i < candidates.len()
        invariant
            0 <= i <= candidates.len(),
            forall|j: int| 0 <= j < i ==> !device_suitable(#[trigger] candidates@[j].queue_families,
                candidates@[j].extensions_supported, has_surface),
        decreases candidates.len() - i,
    {
        let c = candidates[i];
        if is_physical_device_suitable(&c.queue_families, c.extensions_supported, has_surface) {
            return Some(i);
        }
        i = i + 1;
    }
    None
}

/// Where the search for `required[i..]` ends in `available`, starting at
/// `pos`: each required name is looked for from just after where the
/// previous one was found. `None` if one is not found.
pub open spec fn extensions_found_from(required: Seq<Seq<char>>, available: Seq<Seq<char>>, i: nat, pos: nat) -> bool
    decreases required.len() - i, available.len() - pos,
{
    if i >= required.len() {
        true
    } else if pos >= available.len() {
        false
    } else if available[pos as int] == required[i as int] {
        extensions_found_from(required, available, i + 1, pos + 1)
    } else {
        extensions_found_from(required, available, i, pos + 1)
    }
}

/// Whether the required extensions are found among the available ones.
/// The available names are searched once, front to back: each required
/// name must be found after the one before it.
pub fn are_extensions_supported(available: &Vec<String>, required: &Vec<String>) -> (supported: bool)
    ensures
        supported == extensions_found_from(required@.map_values(|s: String| s@), available@.map_values(|s: String| s@), 0, 0),
{
    let ghost req = required@.map_values(|s: String| s@);
    let ghost avail = available@.map_values(|s: String| s@);
    let mut i: usize = 0;
    let mut pos: usize = 0;
    while i < required.len()
        invariant
            0 <= i <= required.len(),
            0 <= pos <= available.len(),
            req == required@.map_values(|s: String| s@),
            avail == available@.map_values(|s: String| s@),
            extensions_found_from(req, avail, 0, 0) == extensions_found_from(req, avail, i as nat, pos as nat),
        decreases required.len() - i,
    {
        let mut found = false;
        while pos < available.len()
            invariant_except_break
                !found,
            invariant
                0 <= i < required.len(),
                0 <= pos <= available.len(),
                req == required@.map_values(|s: String| s@),
                avail == available@.map_values(|s: String| s@),
                !found ==> extensions_found_from(req, avail, 0, 0) == extensions_found_from(req, avail, i as nat, pos as nat),
                found ==> extensions_found_from(req, avail, 0, 0) == extensions_found_from(req, avail, (i + 1) as nat, pos as nat),
            ensures
                !found ==> pos == available.len()
                    && extensions_found_from(req, avail, 0, 0) == extensions_found_from(req, avail, i as nat, pos as nat),
                found ==> extensions_found_from(req, avail, 0, 0) == extensions_found_from(req, avail, (i + 1) as nat, pos as nat),
            decreases available.len() - pos,
        {
            let ghost p = pos as nat;
            let hit = available[pos] == required[i];
            proof {
                assert(avail[p as int] == available@[p as int]@);
                assert(req[i as int] == required@[i as int]@);
                assert(hit == (avail[p as int] == req[i as int]));
                assert(extensions_found_from(req, avail, i as nat, p) == if hit {
                    extensions_found_from(req, avail, (i + 1) as nat, p + 1)
                } else {
                    extensions_found_from(req, avail, i as nat, p + 1)
                });
            }
            pos = pos + 1;
            if hit {
                found = true;
                break;
            }
        }
        if !found {
            return false;
        }
        i = i + 1;
    }
    true
}

/// The distinct families that queues are created on: graphics, compute,
/// and presentation where it has one.
pub fn unique_family_indices(families: &QueueFamilies) -> (indices: Vec<u32>)
    requires
        families.graphics is Some,
        families.compute is Some,
    ensures
        indices@.no_duplicates(),
        indices@.to_set() == set![families.graphics->Some_0, families.compute->Some_0]
            + (match families.present { Some(p) => set![p], None => Set::empty() }),
{
    let graphics = match families.graphics { Some(g) => g, None => vstd::pervasive::unreached() };
    let compute = match families.compute { Some(c) => c, None => vstd::pervasive::unreached() };
    let mut indices: Vec<u32> = Vec::new();
    indices.push(graphics);
    if compute != graphics {
        indices.push(compute);
    }
    if let Some(present) = families.present {
        if present != graphics && present != compute {
            indices.push(present);
        }
    }
    proof {
        let expected = set![graphics, compute] + (match families.present { Some(p) => set![p], None => Set::empty() });
        assert(indices@.to_set() =~= expected) by {
            assert forall|x: u32| indices@.to_set().contains(x) <==> expected.contains(x) by {
                if expected.contains(x) {
                    if x == graphics {
                        assert(indices@[0] == x);
                    } else if x == compute {
                        assert(indices@[1] == x);
                    } else {
                        assert(indices@[indices@.len() - 1] == x);
                    }
                }
                if indices@.to_set().contains(x) {
                    let k = choose|k: int| 0 <= k < indices@.len() && indices@[k] == x;
                }
            }
        }
    }
    indices
}

#[derive(Clone, Copy, Debug, PartialEq, Eq, Structural)]
pub struct SurfaceFormat {
    pub format: i32,
    pub color_space: i32,
}

pub open spec fn preferred_format(f: SurfaceFormat) -> bool {
    f.format == vk::FORMAT_R8G8B8A8_SRGB && f.color_space == vk::COLOR_SPACE_SRGB_NONLINEAR
}

/// The first sRGB RGBA8 format in the sRGB color space, or else the first
/// format offered. The surface must offer one.
pub fn choose_swapchain_format(formats: &Vec<SurfaceFormat>) -> (chosen: SurfaceFormat)
    requires
        formats@.len() > 0,
    ensures
        (exists|i: int| 0 <= i < formats@.len() && preferred_format(#[trigger] formats@[i])) ==> {
            &&& preferred_format(chosen)
            &&& exists|i: int| 0 <= i < formats@.len() && formats@[i] == chosen
                && forall|j: int| 0 <= j < i ==> !preferred_format(#[trigger] formats@[j])
        },
        (forall|i: int| 0 <= i < formats@.len() ==> !preferred_format(#[trigger] formats@[i])) ==> chosen == formats@[0],
{
    let mut i: usize = 0;
    while i < formats.len()
        invariant
            0 <= i <= formats.len(),
            forall|j: int| 0 <= j < i ==> !preferred_format(#[trigger] formats@[j]),
        decreases formats.len() - i,
    {
        let f = formats[i];
        if f.format == vk::FORMAT_R8G8B8A8_SRGB && f.color_space == vk::COLOR_SPACE_SRGB_NONLINEAR {
            return f;
        }
        i = i + 1;
    }
    formats[0]
}

/// Immediate presentation where offered, else FIFO, which every surface
/// supports.
pub fn choose_present_mode(present_modes: &Vec<i32>) -> (mode: i32)
    ensures
        mode == (if present_modes@.contains(vk::PRESENT_MODE_IMMEDIATE) { vk::PRESENT_MODE_IMMEDIATE } else { vk::PRESENT_MODE_FIFO }),
{
    let mut i: usize = 0;
    while i < present_modes.len()
        invariant
            0 <= i <= present_modes.len(),
            forall|j: int| 0 <= j < i ==> present_modes@[j] != vk::PRESENT_MODE_IMMEDIATE,
        decreases present_modes.len() - i,
    {
        if present_modes[i] == vk::PRESENT_MODE_IMMEDIATE {
            assert(present_modes@[i as int] == vk::PRESENT_MODE_IMMEDIATE);
            return vk::PRESENT_MODE_IMMEDIATE;
        }
        i = i + 1;
    }
    vk::PRESENT_MODE_FIFO
}

pub open spec fn clamped(input: u32, min: u32, max: u32) -> u32 {
    if input < min { min } else if input > max { max } else { input }
}

/// `num::clamp` on `u32`: the input, raised to `min` or lowered to `max`.
/// Its bounds must be in order.
#[verifier::external_body]
fn clamp_u32(input: u32, min: u32, max: u32) -> (r: u32)
    requires
        min <= max,
    ensures
        r == clamped(input, min, max),
{
    num::clamp(input, min, max)
}

#[derive(Clone, Copy, Debug, PartialEq, Eq, Structural)]
pub struct Extent2D {
    pub width: u32,
    pub height: u32,
}

/// The swapchain extent: the window size, clamped to what the surface
/// allows.
pub fn swapchain_extent(window: Extent2D, min_extent: Extent2D, max_extent: Extent2D) -> (extent: Extent2D)
    requires
        min_extent.width <= max_extent.width,
        min_extent.height <= max_extent.height,
    ensures
        extent.width == clamped(window.width, min_extent.width, max_extent.width),
        extent.height == clamped(window.height, min_extent.height, max_extent.height),
{
    Extent2D {
        width: clamp_u32(window.width, min_extent.width, max_extent.width),
        height: clamp_u32(window.height, min_extent.height, max_extent.height),
    }
}


/// How a swapchain is created: its surface format, present mode, extent,
/// and two images (double buffering), used as color attachments.
#[derive(Clone, Copy, Debug, PartialEq, Eq, Structural)]
pub struct SwapchainSettings {
    pub format: SurfaceFormat,
    pub present_mode: i32,
    pub extent: Extent2D,
    pub min_image_count: u32,
    pub image_array_layers: u32,
    pub image_usage: u32,
}

/// The swapchain settings for a surface offering `formats` and
/// `present_modes` within the extents given, for a window of the given
/// size.
pub fn swapchain_settings(
    formats: &Vec<SurfaceFormat>,
    present_modes: &Vec<i32>,
    window: Extent2D,
    min_extent: Extent2D,
    max_extent: Extent2D,
) -> (settings: SwapchainSettings)
    requires
        formats@.len() > 0,
        min_extent.width <= max_extent.width,
        min_extent.height <= max_extent.height,
    ensures
        (exists|i: int| 0 <= i < formats@.len() && preferred_format(#[trigger] formats@[i])) ==> preferred_format(settings.format),
        (forall|i: int| 0 <= i < formats@.len() ==> !preferred_format(#[trigger] formats@[i])) ==> settings.format == formats@[0],
        settings.present_mode == (if present_modes@.contains(vk::PRESENT_MODE_IMMEDIATE) { vk::PRESENT_MODE_IMMEDIATE } else { vk::PRESENT_MODE_FIFO }),
        settings.extent.width == clamped(window.width, min_extent.width, max_extent.width),
        settings.extent.height == clamped(window.height, min_extent.height, max_extent.height),
        settings.min_image_count == 2,
        settings.image_array_layers == 1,
        settings.image_usage == vk::IMAGE_USAGE_COLOR_ATTACHMENT,
{
    SwapchainSettings {
        format: choose_swapchain_format(formats),
        present_mode: choose_present_mode(present_modes),
        extent: swapchain_extent(window, min_extent, max_extent),
        min_image_count: 2,
        image_array_layers: 1,
        image_usage: vk::IMAGE_USAGE_COLOR_ATTACHMENT,
    }
}


/// Each chosen family serves what it was chosen for: the graphics family
/// supports graphics, the compute family compute, and the present family
/// can present, which needs a surface; each is one of the families looked
/// at.
pub proof fn law_chosen_families_support_their_queues(flags: Seq<u32>, present: Seq<bool>, has_surface: bool, n: nat)
    requires
        n <= flags.len(),
        present.len() == flags.len(),
        flags.len() <= u32::MAX,
    ensures
        ({
            let q = families_after(flags, present, has_surface, n);
            &&& q.graphics matches Some(g) ==> g < n && flags[g as int] & vk::QUEUE_GRAPHICS == vk::QUEUE_GRAPHICS
            &&& q.compute matches Some(c) ==> c < n && flags[c as int] & vk::QUEUE_COMPUTE == vk::QUEUE_COMPUTE
            &&& q.present matches Some(p) ==> has_surface && p < n && present[p as int]
        }),
    decreases n,
{
    if n > 0 {
        law_chosen_families_support_their_queues(flags, present, has_surface, (n - 1) as nat);
        let m = (n - 1) as nat;
        assert((m as u32) as int == m as int);
    }
}

/// The search for families looks at no family past the end, and stops at
/// the first point where it is done.
pub proof fn law_family_search_stops_when_done(flags: Seq<u32>, present: Seq<bool>, has_surface: bool, n: nat)
    requires
        n <= flags.len(),
    ensures
        n <= scan_end(flags, present, has_surface, n) <= flags.len(),
        scan_end(flags, present, has_surface, n) < flags.len() ==> families_done(
            families_after(flags, present, has_surface, scan_end(flags, present, has_surface, n)), has_surface),
    decreases flags.len() - n,
{
    if n < flags.len() && !families_done(families_after(flags, present, has_surface, n + 1), has_surface) {
        law_family_search_stops_when_done(flags, present, has_surface, n + 1);
    }
}

/// Where the extensions are reported supported, each required extension is
/// among the available ones.
pub proof fn law_supported_extensions_are_available(required: Seq<Seq<char>>, available: Seq<Seq<char>>, i: nat, pos: nat)
    requires
        extensions_found_from(required, available, i, pos),
    ensures
        forall|k: int| i <= k < required.len() ==> available.contains(#[trigger] required[k]),
    decreases required.len() - i, available.len() - pos,
{
    if i < required.len() && pos < available.len() {
        if available[pos as int] == required[i as int] {
            law_supported_extensions_are_available(required, available, i + 1, pos + 1);
            assert(available[pos as int] == required[i as int]);
        } else {
            law_supported_extensions_are_available(required, available, i, pos + 1);
        }
    }
}

/// A clamped value lies within its bounds, and is the input where the
/// input already does.
pub proof fn law_clamped_within_bounds(input: u32, min: u32, max: u32)
    requires
        min <= max,
    ensures
        min <= clamped(input, min, max) <= max,
        min <= input <= max ==> clamped(input, min, max) == input,
{
}

} // verus!
