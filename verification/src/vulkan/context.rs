use vstd::prelude::*;

verus! {

/// The queue family indices the renderer runs on: one family with a graphics
/// queue and one that can present to the surface.
#[derive(Debug, Clone, Copy, PartialEq, Eq, Structural)]
pub struct QueueFamiliesIndices {
    pub graphics_index: u32,
    pub present_index: u32,
}

/// What the device reports about one queue family.
#[derive(Debug, Clone, Copy, PartialEq, Eq, Structural)]
pub struct QueueFamilyInfo {
    pub queue_count: u32,
    pub supports_graphics: bool,
    pub supports_present: bool,
}

/// What the device reports about one memory type.
#[derive(Debug, Clone, Copy, PartialEq, Eq, Structural)]
pub struct MemoryTypeInfo {
    pub property_flags: u32,
}

/// One candidate format with the features the device reports for it under
/// linear and optimal tiling.
#[derive(Debug, Clone, Copy, PartialEq, Eq, Structural)]
pub struct FormatFeatures {
    pub format: u32,
    pub linear_tiling_features: u32,
    pub optimal_tiling_features: u32,
}

/// How an image's texels are laid out in memory.
#[derive(Debug, Clone, Copy, PartialEq, Eq, Structural)]
pub enum Tiling {
    Linear,
    Optimal,
}

/// What a physical device reports, reduced to what the selection reads.
/// `priority` ranks the device type: discrete before integrated before
/// anything else.
#[derive(Debug, Clone, Copy, PartialEq, Eq, Structural)]
pub struct DeviceInfo {
    pub extensions_supported: bool,
    pub has_surface_formats: bool,
    pub has_present_modes: bool,
    pub sampler_anisotropy: bool,
    pub geometry_shader: bool,
    pub priority: u32,
    pub families_found: bool,
}

/// Device type code of a discrete GPU.
pub const DEVICE_TYPE_DISCRETE_GPU: u32 = 2;

/// Device type code of an integrated GPU.
pub const DEVICE_TYPE_INTEGRATED_GPU: u32 = 1;

/// Ranks a device type for selection: discrete GPUs first, then integrated
/// GPUs, then everything else.
pub fn device_type_priority(device_type: u32) -> (r: u32)
    ensures
        device_type == DEVICE_TYPE_DISCRETE_GPU ==> r == 0,
        device_type == DEVICE_TYPE_INTEGRATED_GPU ==> r == 1,
        device_type != DEVICE_TYPE_DISCRETE_GPU && device_type != DEVICE_TYPE_INTEGRATED_GPU
            ==> r == 2,
{
    if device_type == DEVICE_TYPE_DISCRETE_GPU {
        0
    } else if device_type == DEVICE_TYPE_INTEGRATED_GPU {
        1
    } else {
        2
    }
}

/// Whether a device can run the renderer at all: swapchain extension, at
/// least one surface format and present mode, the sampler-anisotropy and
/// geometry-shader features, and usable queue families.
pub open spec fn spec_device_suitable(d: DeviceInfo) -> bool {
    &&& d.extensions_supported
    &&& d.has_surface_formats
    &&& d.has_present_modes
    &&& d.sampler_anisotropy
    &&& d.geometry_shader
    &&& d.families_found
}

/// Picks the physical device: among the suitable ones, the device with the
/// best (lowest) priority, and among equally good ones the first. Returns
/// its index, or nothing when no device is suitable — a fatal configuration
/// error that aborts startup.
pub fn pick_physical_device(devices: &Vec<DeviceInfo>) -> (r: Option<usize>)
    ensures
        r is None <==> forall|i: int|
            0 <= i < devices@.len() ==> !spec_device_suitable(#[trigger] devices@[i]),
        r is Some ==> r.unwrap() < devices@.len() && spec_device_suitable(
            devices@[r.unwrap() as int],
        ),
        r is Some ==> forall|j: int|
            0 <= j < devices@.len() && spec_device_suitable(#[trigger] devices@[j]) ==> devices@[
                r.unwrap() as int
            ].priority <= devices@[j].priority,
        r is Some ==> forall|j: int|
            0 <= j < r.unwrap() && spec_device_suitable(#[trigger] devices@[j]) ==> devices@[
                r.unwrap() as int
            ].priority < devices@[j].priority,
{
    let n = devices.len();
    let mut best: Option<usize> = None;
    let mut k: usize = 0;
    while k < n
        invariant
            k <= n,
            n == devices@.len(),
            best is None <==> forall|i: int|
                0 <= i < k ==> !spec_device_suitable(#[trigger] devices@[i]),
            best is Some ==> best.unwrap() < k && spec_device_suitable(
                devices@[best.unwrap() as int],
            ),
            best is Some ==> forall|j: int|
                0 <= j < k && spec_device_suitable(#[trigger] devices@[j]) ==> devices@[
                    best.unwrap() as int
                ].priority <= devices@[j].priority,
            best is Some ==> forall|j: int|
                0 <= j < best.unwrap() && spec_device_suitable(#[trigger] devices@[j])
                    ==> devices@[best.unwrap() as int].priority < devices@[j].priority,
        decreases n - k,
    {
        let d = devices[k];
        let suitable = d.extensions_supported && d.has_surface_formats && d.has_present_modes
            && d.sampler_anisotropy && d.geometry_shader && d.families_found;
        if suitable {
            match best {
                Some(b) => {
                    if d.priority < devices[b].priority {
                        best = Some(k);
                    }
                },
                None => {
                    best = Some(k);
                },
            }
        }
        k = k + 1;
    }
    best
}

/// Whether queue family `f` offers a graphics queue.
pub open spec fn spec_graphics_family(f: QueueFamilyInfo) -> bool {
    f.queue_count > 0 && f.supports_graphics
}

/// Whether queue family `f` can present to the surface.
pub open spec fn spec_present_family(f: QueueFamilyInfo) -> bool {
    f.queue_count > 0 && f.supports_present
}

/// Finds the first queue family with a graphics queue and the first that can
/// present to the surface. Returns nothing when either is missing — the
/// device is then unsuitable.
pub fn find_queue_families(families: &Vec<QueueFamilyInfo>) -> (r: Option<QueueFamiliesIndices>)
    requires
        families@.len() <= u32::MAX,
    ensures
        r is Some <==> (exists|i: int|
            0 <= i < families@.len() && spec_graphics_family(#[trigger] families@[i])) && (
        exists|i: int| 0 <= i < families@.len() && spec_present_family(#[trigger] families@[i])),
        r is Some ==> {
            let g = r.unwrap().graphics_index as int;
            &&& g < families@.len()
            &&& spec_graphics_family(families@[g])
            &&& forall|i: int| 0 <= i < g ==> !spec_graphics_family(#[trigger] families@[i])
        },
        r is Some ==> {
            let p = r.unwrap().present_index as int;
            &&& p < families@.len()
            &&& spec_present_family(families@[p])
            &&& forall|i: int| 0 <= i < p ==> !spec_present_family(#[trigger] families@[i])
        },
{
    let n = families.len();
    let mut graphics: Option<u32> = None;
    let mut present: Option<u32> = None;
    let mut k: usize = 0;
    while k < n
        invariant
            k <= n,
            n == families@.len(),
            n <= u32::MAX,
            graphics is None ==> forall|i: int|
                0 <= i < k ==> !spec_graphics_family(#[trigger] families@[i]),
            graphics is Some ==> {
                let g = graphics.unwrap() as int;
                &&& g < k
                &&& spec_graphics_family(families@[g])
                &&& forall|i: int| 0 <= i < g ==> !spec_graphics_family(#[trigger] families@[i])
            },
            present is None ==> forall|i: int|
                0 <= i < k ==> !spec_present_family(#[trigger] families@[i]),
            present is Some ==> {
                let p = present.unwrap() as int;
                &&& p < k
                &&& spec_present_family(families@[p])
                &&& forall|i: int| 0 <= i < p ==> !spec_present_family(#[trigger] families@[i])
            },
        decreases n - k,
    {
        let f = families[k];
        if f.queue_count > 0 {
            if f.supports_graphics && graphics.is_none() {
                graphics = Some(k as u32);
            }
            if f.supports_present && present.is_none() {
                present = Some(k as u32);
            }
        }
        k = k + 1;
    }
    match (graphics, present) {
        (Some(graphics_index), Some(present_index)) => Some(
            QueueFamiliesIndices { graphics_index, present_index },
        ),
        _ => None,
    }
}

/// Whether memory type `i` is allowed by the requirements bitmask and offers
/// all required property flags.
pub open spec fn spec_memory_type_ok(
    memory_type_bits: u32,
    flags: u32,
    required_properties: u32,
    i: u32,
) -> bool {
    &&& memory_type_bits & (1u32 << i) != 0
    &&& flags & required_properties == required_properties
}

/// Finds the first memory type that the requirements allow and that supports
/// all required properties. Returns nothing when no type fits — a fatal
/// configuration error.
pub fn find_memory_type(
    memory_type_bits: u32,
    memory_types: &Vec<MemoryTypeInfo>,
    required_properties: u32,
) -> (r: Option<u32>)
    requires
        memory_types@.len() <= 32,
    ensures
        r is None <==> forall|i: int|
            0 <= i < memory_types@.len() ==> !spec_memory_type_ok(
                memory_type_bits,
                (#[trigger] memory_types@[i]).property_flags,
                required_properties,
                i as u32,
            ),
        r is Some ==> {
            let i = r.unwrap() as int;
            &&& i < memory_types@.len()
            &&& spec_memory_type_ok(
                memory_type_bits,
                memory_types@[i].property_flags,
                required_properties,
                i as u32,
            )
            &&& forall|j: int|
                0 <= j < i ==> !spec_memory_type_ok(
                    memory_type_bits,
                    (#[trigger] memory_types@[j]).property_flags,
                    required_properties,
                    j as u32,
                )
        },
{
    let n = memory_types.len();
    let mut k: usize = 0;
    while k < n
        invariant
            k <= n,
            n == memory_types@.len(),
            n <= 32,
            forall|i: int|
                0 <= i < k ==> !spec_memory_type_ok(
                    memory_type_bits,
                    (#[trigger] memory_types@[i]).property_flags,
                    required_properties,
                    i as u32,
                ),
        decreases n - k,
    {
        let allowed = memory_type_bits & (1u32 << (k as u32)) != 0;
        let supported = memory_types[k].property_flags & required_properties
            == required_properties;
        if allowed && supported {
            return Some(k as u32);
        }
        k = k + 1;
    }
    None
}

/// The tiling features of `f` that matter under `tiling`.
pub open spec fn spec_tiling_features(f: FormatFeatures, tiling: Tiling) -> u32 {
    match tiling {
        Tiling::Linear => f.linear_tiling_features,
        Tiling::Optimal => f.optimal_tiling_features,
    }
}

/// Whether candidate `f` supports all requested features under `tiling`.
pub open spec fn spec_format_supported(f: FormatFeatures, tiling: Tiling, features: u32) -> bool {
    spec_tiling_features(f, tiling) & features == features
}

/// Finds the first candidate format that supports all requested features
/// under the given tiling.
pub fn find_supported_format(candidates: &Vec<FormatFeatures>, tiling: Tiling, features: u32) -> (r:
    Option<u32>)
    ensures
        r is None <==> forall|i: int|
            0 <= i < candidates@.len() ==> !spec_format_supported(
                #[trigger] candidates@[i],
                tiling,
                features,
            ),
        r is Some ==> exists|i: int|
            0 <= i < candidates@.len() && spec_format_supported(
                #[trigger] candidates@[i],
                tiling,
                features,
            ) && r.unwrap() == candidates@[i].format && forall|j: int|
                0 <= j < i ==> !spec_format_supported(#[trigger] candidates@[j], tiling, features),
{
    let n = candidates.len();
    let mut k: usize = 0;
    while k < n
        invariant
            k <= n,
            n == candidates@.len(),
            forall|i: int|
                0 <= i < k ==> !spec_format_supported(#[trigger] candidates@[i], tiling, features),
        decreases n - k,
    {
        let c = candidates[k];
        let feats = match tiling {
            Tiling::Linear => c.linear_tiling_features,
            Tiling::Optimal => c.optimal_tiling_features,
        };
        if feats & features == features {
            return Some(c.format);
        }
        k = k + 1;
    }
    None
}

/// Sample-count flag of 64 samples per pixel.
pub const SAMPLE_COUNT_64: u32 = 64;

/// Returns the highest sample-count flag of the combined color and depth
/// framebuffer limits, falling back to single sampling. The two flag words
/// are combined by their numeric minimum, as the renderer's device query
/// does; on the contiguous masks devices report this equals their
/// intersection.
pub fn get_max_usable_sample_count(color_sample_counts: u32, depth_sample_counts: u32) -> (r: u32)
    ensures
        r == spec_max_sample_count(if color_sample_counts <= depth_sample_counts {
            color_sample_counts
        } else {
            depth_sample_counts
        }),
{
    let sample_counts = if color_sample_counts <= depth_sample_counts {
        color_sample_counts
    } else {
        depth_sample_counts
    };
    if sample_counts & 64 == 64 {
        64
    } else if sample_counts & 32 == 32 {
        32
    } else if sample_counts & 16 == 16 {
        16
    } else if sample_counts & 8 == 8 {
        8
    } else if sample_counts & 4 == 4 {
        4
    } else if sample_counts & 2 == 2 {
        2
    } else {
        1
    }
}

/// The highest sample-count flag contained in `sample_counts`, as the
/// cascade from 64 samples down to 1 picks it.
pub open spec fn spec_max_sample_count(sample_counts: u32) -> u32 {
    if sample_counts & 64 == 64 {
        64u32
    } else if sample_counts & 32 == 32 {
        32u32
    } else if sample_counts & 16 == 16 {
        16u32
    } else if sample_counts & 8 == 8 {
        8u32
    } else if sample_counts & 4 == 4 {
        4u32
    } else if sample_counts & 2 == 2 {
        2u32
    } else {
        1u32
    }
}

} // verus!
