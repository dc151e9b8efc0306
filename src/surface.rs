use vstd::prelude::*;

verus! {

/// Raw value of the 8-bit RGBA unorm colour format.
pub const FORMAT_R8G8B8A8_UNORM: i32 = 37;

/// Raw value of the 8-bit RGBA sRGB colour format.
pub const FORMAT_R8G8B8A8_SRGB: i32 = 43;

/// Raw value of the 8-bit BGRA unorm colour format.
pub const FORMAT_B8G8R8A8_UNORM: i32 = 44;

/// Raw value of the 8-bit BGRA sRGB colour format.
pub const FORMAT_B8G8R8A8_SRGB: i32 = 50;

/// Raw value of the 32-bit float depth format.
pub const FORMAT_D32_SFLOAT: i32 = 126;

/// Raw value of the 24-bit depth, 8-bit stencil format.
pub const FORMAT_D24_UNORM_S8_UINT: i32 = 129;

/// Raw value of the 32-bit float depth, 8-bit stencil format.
pub const FORMAT_D32_SFLOAT_S8_UINT: i32 = 130;

/// Raw value of the non-linear sRGB colour space.
pub const COLOR_SPACE_SRGB_NONLINEAR: i32 = 0;

/// Raw value of the present mode that never waits for vertical blank.
pub const PRESENT_MODE_IMMEDIATE: i32 = 0;

/// Raw value of optimal image tiling.
pub const TILING_OPTIMAL: i32 = 0;

/// Raw value of linear image tiling.
pub const TILING_LINEAR: i32 = 1;

/// Format feature bit: usable as a colour attachment.
pub const FEATURE_COLOR_ATTACHMENT: u32 = 0x80;

/// Format feature bit: usable as a depth/stencil attachment.
pub const FEATURE_DEPTH_STENCIL_ATTACHMENT: u32 = 0x200;

/// A surface reports this width and height as its current extent when the
/// swapchain decides the extent.
pub const EXTENT_UNDEFINED: u32 = 0xFFFF_FFFF;

/// Number of window images asked for when the surface sets no upper bound.
pub const PREFERRED_WINDOW_IMAGE_COUNT: u32 = 3;

/// A two-dimensional size in pixels.
#[derive(Clone, Copy, Debug, PartialEq, Eq, Structural)]
pub struct Extent {
    pub width: u32,
    pub height: u32,
}

/// What the platform surface reports about the swapchains it accepts.
#[derive(Clone, Copy, Debug, PartialEq, Eq, Structural)]
pub struct SurfaceCapabilities {
    pub min_image_count: u32,
    /// Zero means that there is no upper bound.
    pub max_image_count: u32,
    pub current_extent: Extent,
    pub min_image_extent: Extent,
    pub max_image_extent: Extent,
}

/// A pixel format together with its colour space, as raw values.
#[derive(Clone, Copy, Debug, PartialEq, Eq, Structural)]
pub struct SurfaceFormat {
    pub format: i32,
    pub color_space: i32,
}

/// The feature bits a device offers for one format, per tiling.
#[derive(Clone, Copy, Debug, PartialEq, Eq, Structural)]
pub struct FormatProperties {
    pub linear_tiling_features: u32,
    pub optimal_tiling_features: u32,
}

/// Why a surface cannot be used for the window swapchain.
#[derive(Clone, Copy, Debug, PartialEq, Eq, Structural)]
pub enum SurfaceError {
    /// The device offers no format or no present mode for the surface.
    Incompatible,
    /// None of the offered formats is an 8-bit unorm format in sRGB space.
    NoSuitableFormat,
    /// The surface does not offer the immediate present mode.
    NoSuitablePresentMode,
}

/// Everything the window swapchain is built from.
#[derive(Debug)]
pub struct Detail {
    pub capabilities: SurfaceCapabilities,
    pub format: SurfaceFormat,
    pub present_modes: Vec<i32>,
    pub image_count: u32,
}

pub open spec fn clamp_spec(lo: u32, hi: u32, v: u32) -> u32 {
    if v > hi {
        if lo > hi { lo } else { hi }
    } else {
        if lo > v { lo } else { v }
    }
}

/// `max(lo, min(hi, v))`.
pub fn clamp_u32(lo: u32, hi: u32, v: u32) -> (r: u32)
    ensures
        r == clamp_spec(lo, hi, v),
{
    let m = if v > hi { hi } else { v };
    if lo > m { lo } else { m }
}

pub open spec fn allowed_extent_spec(caps: SurfaceCapabilities, wanted: Extent) -> Extent {
    if caps.current_extent.height == EXTENT_UNDEFINED {
        Extent {
            width: clamp_spec(caps.min_image_extent.width, caps.max_image_extent.width, wanted.width),
            height: clamp_spec(caps.min_image_extent.height, caps.max_image_extent.height, wanted.height),
        }
    } else {
        caps.current_extent
    }
}

pub open spec fn image_count_spec(caps: SurfaceCapabilities) -> u32 {
    if caps.max_image_count > 0 && caps.max_image_count < PREFERRED_WINDOW_IMAGE_COUNT {
        caps.max_image_count
    } else {
        PREFERRED_WINDOW_IMAGE_COUNT
    }
}

pub open spec fn is_suitable_surface_format(f: SurfaceFormat) -> bool {
    (f.format == FORMAT_R8G8B8A8_UNORM || f.format == FORMAT_B8G8R8A8_UNORM)
        && f.color_space == COLOR_SPACE_SRGB_NONLINEAR
}

pub open spec fn has_features(offered: u32, wanted: u32) -> bool {
    offered & wanted == wanted
}

pub open spec fn supports(p: FormatProperties, tiling: i32, features: u32) -> bool {
    if tiling == TILING_LINEAR {
        has_features(p.linear_tiling_features, features)
    } else if tiling == TILING_OPTIMAL {
        has_features(p.optimal_tiling_features, features)
    } else {
        false
    }
}

pub open spec fn memory_type_fits(type_bits: u32, flags: u32, required: u32, i: int) -> bool {
    &&& 0 <= i < 32
    &&& type_bits & (1u32 << (i as u32)) == (1u32 << (i as u32))
    &&& has_features(flags, required)
}

impl SurfaceCapabilities {
    /// The extent a swapchain gets when `wanted` is asked for: the surface's
    /// current extent where it fixes one, else `wanted` clamped per axis to
    /// the surface's minimum and maximum extent.
    pub fn get_allowed_extend(&self, wanted: Extent) -> (r: Extent)
        ensures
            r == allowed_extent_spec(*self, wanted),
    {
        if self.current_extent.height == EXTENT_UNDEFINED {
            Extent {
                width: clamp_u32(self.min_image_extent.width, self.max_image_extent.width, wanted.width),
                height: clamp_u32(
                    self.min_image_extent.height,
                    self.max_image_extent.height,
                    wanted.height,
                ),
            }
        } else {
            self.current_extent
        }
    }

    /// Number of window images asked for: three, lowered to the surface's
    /// maximum where it sets one below that.
    pub fn get_image_count(&self) -> (r: u32)
        ensures
            r == image_count_spec(*self),
            0 < r <= PREFERRED_WINDOW_IMAGE_COUNT,
    {
        if self.max_image_count > 0 && self.max_image_count < PREFERRED_WINDOW_IMAGE_COUNT {
            self.max_image_count
        } else {
            PREFERRED_WINDOW_IMAGE_COUNT
        }
    }
}

/// The first offered format that is 8-bit RGBA or BGRA unorm in the
/// non-linear sRGB colour space.
pub fn select_surface_format(formats: &Vec<SurfaceFormat>) -> (r: Option<SurfaceFormat>)
    ensures
        match r {
            Some(f) => exists|i: int|
                0 <= i < formats@.len() && formats@[i] == f && is_suitable_surface_format(f)
                    && forall|j: int| 0 <= j < i ==> !is_suitable_surface_format(#[trigger] formats@[j]),
            None => forall|j: int|
                0 <= j < formats@.len() ==> !is_suitable_surface_format(#[trigger] formats@[j]),
        },
{
    let mut i: usize = 0;
    while i < formats.len()
        invariant
            i <= formats@.len(),
            forall|j: int| 0 <= j < i ==> !is_suitable_surface_format(#[trigger] formats@[j]),
        decreases formats@.len() - i,
    {
        let f = formats[i];
        if (f.format == FORMAT_R8G8B8A8_UNORM || f.format == FORMAT_B8G8R8A8_UNORM)
            && f.color_space == COLOR_SPACE_SRGB_NONLINEAR
        {
            return Some(f);
        }
        i += 1;
    }
    None
}

/// The present mode used for the window: immediate, so that the window never
/// holds back the headset's frames.
pub fn select_present_mode(present_modes: &Vec<i32>) -> (r: Result<i32, SurfaceError>)
    ensures
        present_modes@.contains(PRESENT_MODE_IMMEDIATE) ==> r == Ok::<i32, SurfaceError>(PRESENT_MODE_IMMEDIATE),
        !present_modes@.contains(PRESENT_MODE_IMMEDIATE) ==> r == Err::<i32, SurfaceError>(SurfaceError::NoSuitablePresentMode),
{
    let mut i: usize = 0;
    while i < present_modes.len()
        invariant
            i <= present_modes@.len(),
            forall|j: int| 0 <= j < i ==> present_modes@[j] != PRESENT_MODE_IMMEDIATE,
        decreases present_modes@.len() - i,
    {
        if present_modes[i] == PRESENT_MODE_IMMEDIATE {
            return Ok(PRESENT_MODE_IMMEDIATE);
        }
        i += 1;
    }
    Err(SurfaceError::NoSuitablePresentMode)
}

pub open spec fn first_suitable_format_exists(formats: Seq<SurfaceFormat>) -> bool {
    exists|i: int| 0 <= i < formats.len() && is_suitable_surface_format(#[trigger] formats[i])
}

impl Detail {
    /// Checks what the device offers for the surface and picks the format
    /// and image count of the window swapchain.
    pub fn new(
        capabilities: SurfaceCapabilities,
        formats: &Vec<SurfaceFormat>,
        present_modes: Vec<i32>,
    ) -> (r: Result<Detail, SurfaceError>)
        ensures
            (formats@.len() == 0 || present_modes@.len() == 0) ==> r == Err::<Detail, SurfaceError>(SurfaceError::Incompatible),
            (formats@.len() > 0 && present_modes@.len() > 0 && !first_suitable_format_exists(formats@))
                ==> r == Err::<Detail, SurfaceError>(SurfaceError::NoSuitableFormat),
            (formats@.len() > 0 && present_modes@.len() > 0 && first_suitable_format_exists(formats@))
                ==> r is Ok,
            r matches Ok(d) ==> {
                &&& d.capabilities == capabilities
                &&& d.present_modes@ == present_modes@
                &&& d.image_count == image_count_spec(capabilities)
                &&& exists|i: int|
                    0 <= i < formats@.len() && formats@[i] == d.format
                        && is_suitable_surface_format(d.format)
                        && forall|j: int| 0 <= j < i ==> !is_suitable_surface_format(#[trigger] formats@[j])
            },
    {
        if formats.len() == 0 || present_modes.len() == 0 {
            return Err(SurfaceError::Incompatible);
        }
        match select_surface_format(formats) {
            None => Err(SurfaceError::NoSuitableFormat),
            Some(format) => {
                let image_count = capabilities.get_image_count();
                Ok(Detail { capabilities, format, present_modes, image_count })
            },
        }
    }
}

/// The first candidate format whose properties, for the given tiling, offer
/// all of `features`. `properties[i]` belongs to `candidates[i]`.
pub fn find_supported_format(
    candidates: &Vec<i32>,
    properties: &Vec<FormatProperties>,
    tiling: i32,
    features: u32,
) -> (r: Option<i32>)
    requires
        candidates@.len() == properties@.len(),
    ensures
        match r {
            Some(f) => exists|i: int|
                0 <= i < candidates@.len() && candidates@[i] == f && supports(properties@[i], tiling, features)
                    && forall|j: int| 0 <= j < i ==> !supports(#[trigger] properties@[j], tiling, features),
            None => forall|j: int|
                0 <= j < properties@.len() ==> !supports(#[trigger] properties@[j], tiling, features),
        },
{
    let mut i: usize = 0;
    while i < candidates.len()
        invariant
            i <= candidates@.len(),
            candidates@.len() == properties@.len(),
            forall|j: int| 0 <= j < i ==> !supports(#[trigger] properties@[j], tiling, features),
        decreases candidates@.len() - i,
    {
        let p = properties[i];
        let ok = if tiling == TILING_LINEAR {
            p.linear_tiling_features & features == features
        } else if tiling == TILING_OPTIMAL {
            p.optimal_tiling_features & features == features
        } else {
            false
        };
        if ok {
            return Some(candidates[i]);
        }
        i += 1;
    }
    None
}

/// Colour formats tried, in order, for the headset swapchain.
pub fn color_format_candidates() -> (r: Vec<i32>)
    ensures
        r@ == seq![FORMAT_B8G8R8A8_SRGB, FORMAT_R8G8B8A8_SRGB],
{
    vec![FORMAT_B8G8R8A8_SRGB, FORMAT_R8G8B8A8_SRGB]
}

/// Depth formats tried, in order, for the depth attachments.
pub fn depth_stencil_format_candidates() -> (r: Vec<i32>)
    ensures
        r@ == seq![FORMAT_D32_SFLOAT, FORMAT_D32_SFLOAT_S8_UINT, FORMAT_D24_UNORM_S8_UINT],
{
    vec![FORMAT_D32_SFLOAT, FORMAT_D32_SFLOAT_S8_UINT, FORMAT_D24_UNORM_S8_UINT]
}

/// The first memory type index `i` that `memory_type_bits` allows (bit `i`
/// set) and whose property flags hold all of `required`. `type_flags[i]` are
/// the property flags of memory type `i`.
pub fn find_memory_type_index(memory_type_bits: u32, required: u32, type_flags: &Vec<u32>) -> (r: Option<u32>)
    requires
        type_flags@.len() <= 32,
    ensures
        match r {
            Some(i) => i < type_flags@.len()
                && memory_type_fits(memory_type_bits, type_flags@[i as int], required, i as int)
                && forall|j: int| 0 <= j < i ==> !memory_type_fits(memory_type_bits, #[trigger] type_flags@[j], required, j),
            None => forall|j: int|
                0 <= j < type_flags@.len() ==> !memory_type_fits(memory_type_bits, #[trigger] type_flags@[j], required, j),
        },
{
    let mut i: usize = 0;
    while i < type_flags.len()
        invariant
            i <= type_flags@.len() <= 32,
            forall|j: int| 0 <= j < i ==> !memory_type_fits(memory_type_bits, #[trigger] type_flags@[j], required, j),
        decreases type_flags@.len() - i,
    {
        let bit: u32 = 1u32 << (i as u32);
        if memory_type_bits & bit == bit && type_flags[i] & required == required {
            return Some(i as u32);
        }
        i += 1;
    }
    None
}

} // verus!
