//! Target selection: which Basis Universal transcode target to ask for,
//! given the GPU's compressed-format support, and which GPU texture format
//! the transcoded data is then uploaded as.

use vstd::prelude::*;

verus! {

/// The compressed texture families a GPU supports, as a set of flag bits
/// (the bit layout of bevy's `CompressedImageFormats`).
#[derive(Clone, Copy, Debug)]
pub struct CompressedImageFormats(u32);

impl CompressedImageFormats {
    /// No support for compressed textures.
    pub const NONE: u32 = 0;

    /// The flag for ASTC LDR textures.
    pub const ASTC_LDR: u32 = 1;

    /// The flag for ASTC HDR textures.
    pub const ASTC_HDR: u32 = 2;

    /// The flag for block compressed (BC1 to BC7) textures.
    pub const BC: u32 = 4;

    /// The flag for ETC2 and EAC textures.
    pub const ETC2: u32 = 8;

    /// The raw flag bits.
    pub closed spec fn spec_bits(self) -> u32 {
        self.0
    }

    /// Every flag of `flags` is set.
    pub open spec fn spec_contains(self, flags: u32) -> bool {
        self.spec_bits() & flags == flags
    }

    /// Builds a set from raw flag bits, keeping bits that name no family.
    pub fn from_bits_retain(bits: u32) -> (r: CompressedImageFormats)
        ensures
            r.spec_bits() == bits,
    {
        CompressedImageFormats(bits)
    }

    /// Returns the raw flag bits.
    pub fn bits(&self) -> (r: u32)
        ensures
            r == self.spec_bits(),
    {
        self.0
    }

    /// Returns whether every flag of `flags` is set.
    pub fn contains(&self, flags: u32) -> (r: bool)
        ensures
            r == self.spec_contains(flags),
    {
        self.0 & flags == flags
    }
}

/// The transcode targets of the Basis Universal transcoder
/// (`basist::transcoder_texture_format`).
#[derive(Clone, Copy, Debug, PartialEq, Eq, Structural)]
pub enum TargetFormat {
    Etc1Rgb,
    Etc2Rgba,
    Bc1Rgb,
    Bc3Rgba,
    Bc4R,
    Bc5Rg,
    Bc7Rgba,
    Pvrtc1_4Rgb,
    Pvrtc1_4Rgba,
    Astc4x4Rgba,
    AtcRgb,
    AtcRgba,
    Rgba32,
    Rgb565,
    Bgr565,
    Rgba4444,
}

/// The `basist::transcoder_texture_format` value of a target.
pub open spec fn target_code(t: TargetFormat) -> u32 {
    match t {
        TargetFormat::Etc1Rgb => 0,
        TargetFormat::Etc2Rgba => 1,
        TargetFormat::Bc1Rgb => 2,
        TargetFormat::Bc3Rgba => 3,
        TargetFormat::Bc4R => 4,
        TargetFormat::Bc5Rg => 5,
        TargetFormat::Bc7Rgba => 6,
        TargetFormat::Pvrtc1_4Rgb => 8,
        TargetFormat::Pvrtc1_4Rgba => 9,
        TargetFormat::Astc4x4Rgba => 10,
        TargetFormat::AtcRgb => 11,
        TargetFormat::AtcRgba => 12,
        TargetFormat::Rgba32 => 13,
        TargetFormat::Rgb565 => 14,
        TargetFormat::Bgr565 => 15,
        TargetFormat::Rgba4444 => 16,
    }
}

/// The values that name a transcode target: 0 to 16, except 7.
pub open spec fn is_target_code(code: u32) -> bool {
    code <= 16 && code != 7
}

/// The target named by a `basist::transcoder_texture_format` value.
pub open spec fn code_target(code: u32) -> Option<TargetFormat> {
    match code {
        0 => Some(TargetFormat::Etc1Rgb),
        1 => Some(TargetFormat::Etc2Rgba),
        2 => Some(TargetFormat::Bc1Rgb),
        3 => Some(TargetFormat::Bc3Rgba),
        4 => Some(TargetFormat::Bc4R),
        5 => Some(TargetFormat::Bc5Rg),
        6 => Some(TargetFormat::Bc7Rgba),
        8 => Some(TargetFormat::Pvrtc1_4Rgb),
        9 => Some(TargetFormat::Pvrtc1_4Rgba),
        10 => Some(TargetFormat::Astc4x4Rgba),
        11 => Some(TargetFormat::AtcRgb),
        12 => Some(TargetFormat::AtcRgba),
        13 => Some(TargetFormat::Rgba32),
        14 => Some(TargetFormat::Rgb565),
        15 => Some(TargetFormat::Bgr565),
        16 => Some(TargetFormat::Rgba4444),
        _ => None,
    }
}

/// Every target has a value, which names it back; the values that name a
/// target are exactly those of `is_target_code`.
pub proof fn lemma_target_code_roundtrip(t: TargetFormat, code: u32)
    ensures
        is_target_code(target_code(t)),
        code_target(target_code(t)) == Some(t),
        code_target(code) is Some <==> is_target_code(code),
        code_target(code) matches Some(u) ==> target_code(u) == code,
{
}

impl TargetFormat {
    /// The `basist::transcoder_texture_format` value of this target.
    pub fn code(self) -> (r: u32)
        ensures
            r == target_code(self),
            is_target_code(r),
    {
        match self {
            TargetFormat::Etc1Rgb => 0,
            TargetFormat::Etc2Rgba => 1,
            TargetFormat::Bc1Rgb => 2,
            TargetFormat::Bc3Rgba => 3,
            TargetFormat::Bc4R => 4,
            TargetFormat::Bc5Rg => 5,
            TargetFormat::Bc7Rgba => 6,
            TargetFormat::Pvrtc1_4Rgb => 8,
            TargetFormat::Pvrtc1_4Rgba => 9,
            TargetFormat::Astc4x4Rgba => 10,
            TargetFormat::AtcRgb => 11,
            TargetFormat::AtcRgba => 12,
            TargetFormat::Rgba32 => 13,
            TargetFormat::Rgb565 => 14,
            TargetFormat::Bgr565 => 15,
            TargetFormat::Rgba4444 => 16,
        }
    }

    /// The target named by a `basist::transcoder_texture_format` value.
    pub fn from_code(code: u32) -> (r: Option<TargetFormat>)
        ensures
            r == code_target(code),
    {
        match code {
            0 => Some(TargetFormat::Etc1Rgb),
            1 => Some(TargetFormat::Etc2Rgba),
            2 => Some(TargetFormat::Bc1Rgb),
            3 => Some(TargetFormat::Bc3Rgba),
            4 => Some(TargetFormat::Bc4R),
            5 => Some(TargetFormat::Bc5Rg),
            6 => Some(TargetFormat::Bc7Rgba),
            8 => Some(TargetFormat::Pvrtc1_4Rgb),
            9 => Some(TargetFormat::Pvrtc1_4Rgba),
            10 => Some(TargetFormat::Astc4x4Rgba),
            11 => Some(TargetFormat::AtcRgb),
            12 => Some(TargetFormat::AtcRgba),
            13 => Some(TargetFormat::Rgba32),
            14 => Some(TargetFormat::Rgb565),
            15 => Some(TargetFormat::Bgr565),
            16 => Some(TargetFormat::Rgba4444),
            _ => None,
        }
    }
}

/// ASTC block footprints.
#[derive(Clone, Copy, Debug, PartialEq, Eq, Structural)]
pub enum AstcBlock {
    B4x4,
    B5x4,
    B5x5,
    B6x5,
    B6x6,
    B8x5,
    B8x6,
    B8x8,
    B10x5,
    B10x6,
    B10x8,
    B10x10,
    B12x10,
    B12x12,
}

/// ASTC channel types.
#[derive(Clone, Copy, Debug, PartialEq, Eq, Structural)]
pub enum AstcChannel {
    Unorm,
    UnormSrgb,
    Hdr,
}

/// The GPU texture formats that transcoded textures are uploaded as
/// (the part of wgpu's `TextureFormat` that this library produces).
#[derive(Clone, Copy, Debug, PartialEq, Eq, Structural)]
pub enum TextureFormat {
    Bc7RgbaUnorm,
    Bc7RgbaUnormSrgb,
    Etc2Rgba8Unorm,
    Etc2Rgba8UnormSrgb,
    Astc { block: AstcBlock, channel: AstcChannel },
    Rgba8Unorm,
    Rgba8UnormSrgb,
}

/// The format stores color in the sRGB color space.
pub open spec fn is_srgb_format(f: TextureFormat) -> bool {
    match f {
        TextureFormat::Bc7RgbaUnormSrgb => true,
        TextureFormat::Etc2Rgba8UnormSrgb => true,
        TextureFormat::Astc { block: _, channel } => channel == AstcChannel::UnormSrgb,
        TextureFormat::Rgba8UnormSrgb => true,
        _ => false,
    }
}

/// The transcode target asked for, by the GPU's compressed-format support:
/// BC7 before ETC2 before ASTC 4x4, and uncompressed RGBA8 when none of
/// these families is supported.
pub open spec fn selected_target(formats: CompressedImageFormats) -> TargetFormat {
    if formats.spec_contains(CompressedImageFormats::BC) {
        TargetFormat::Bc7Rgba
    } else if formats.spec_contains(CompressedImageFormats::ETC2) {
        TargetFormat::Etc2Rgba
    } else if formats.spec_contains(CompressedImageFormats::ASTC_LDR) {
        TargetFormat::Astc4x4Rgba
    } else {
        TargetFormat::Rgba32
    }
}

/// The GPU format of data transcoded to `target`; `is_srgb` picks the sRGB
/// variant. Targets outside BC7, ETC2, ASTC 4x4 and RGBA32 have none.
pub open spec fn gpu_format(target: TargetFormat, is_srgb: bool) -> Option<TextureFormat> {
    match target {
        TargetFormat::Bc7Rgba => Some(
            if is_srgb {
                TextureFormat::Bc7RgbaUnormSrgb
            } else {
                TextureFormat::Bc7RgbaUnorm
            },
        ),
        TargetFormat::Etc2Rgba => Some(
            if is_srgb {
                TextureFormat::Etc2Rgba8UnormSrgb
            } else {
                TextureFormat::Etc2Rgba8Unorm
            },
        ),
        TargetFormat::Astc4x4Rgba => Some(
            TextureFormat::Astc {
                block: AstcBlock::B4x4,
                channel: if is_srgb {
                    AstcChannel::UnormSrgb
                } else {
                    AstcChannel::Unorm
                },
            },
        ),
        TargetFormat::Rgba32 => Some(
            if is_srgb {
                TextureFormat::Rgba8UnormSrgb
            } else {
                TextureFormat::Rgba8Unorm
            },
        ),
        _ => None,
    }
}

/// Picks the best transcode target for the GPU's compressed-format support,
/// falling back to uncompressed RGBA8 ([`CompressedImageFormats::NONE`]).
pub fn select_target_format(formats: CompressedImageFormats) -> (r: TargetFormat)
    ensures
        r == selected_target(formats),
{
    if formats.contains(CompressedImageFormats::BC) {
        TargetFormat::Bc7Rgba
    } else if formats.contains(CompressedImageFormats::ETC2) {
        TargetFormat::Etc2Rgba
    } else if formats.contains(CompressedImageFormats::ASTC_LDR) {
        TargetFormat::Astc4x4Rgba
    } else {
        TargetFormat::Rgba32
    }
}

/// Maps the transcode target to the GPU texture format; `is_srgb` selects
/// the sRGB variant (the transcode targets are color-space agnostic).
pub fn wgpu_format(target: TargetFormat, is_srgb: bool) -> (r: Option<TextureFormat>)
    ensures
        r == gpu_format(target, is_srgb),
{
    match target {
        TargetFormat::Bc7Rgba => Some(
            if is_srgb {
                TextureFormat::Bc7RgbaUnormSrgb
            } else {
                TextureFormat::Bc7RgbaUnorm
            },
        ),
        TargetFormat::Etc2Rgba => Some(
            if is_srgb {
                TextureFormat::Etc2Rgba8UnormSrgb
            } else {
                TextureFormat::Etc2Rgba8Unorm
            },
        ),
        TargetFormat::Astc4x4Rgba => Some(
            TextureFormat::Astc {
                block: AstcBlock::B4x4,
                channel: if is_srgb {
                    AstcChannel::UnormSrgb
                } else {
                    AstcChannel::Unorm
                },
            },
        ),
        TargetFormat::Rgba32 => Some(
            if is_srgb {
                TextureFormat::Rgba8UnormSrgb
            } else {
                TextureFormat::Rgba8Unorm
            },
        ),
        _ => None,
    }
}

/// Whatever the GPU supports, the selected target has a GPU format, in the
/// color space that `is_srgb` asks for.
pub proof fn lemma_selected_target_has_gpu_format(formats: CompressedImageFormats, is_srgb: bool)
    ensures
        gpu_format(selected_target(formats), is_srgb) is Some,
        is_srgb_format(gpu_format(selected_target(formats), is_srgb).unwrap()) == is_srgb,
{
}

/// A compressed target is selected only when the GPU supports its family:
/// BC7 needs BC, ETC2 needs ETC2, ASTC 4x4 needs ASTC LDR.
pub proof fn lemma_selected_target_is_supported(formats: CompressedImageFormats)
    ensures
        selected_target(formats) == TargetFormat::Bc7Rgba ==> formats.spec_contains(
            CompressedImageFormats::BC,
        ),
        selected_target(formats) == TargetFormat::Etc2Rgba ==> formats.spec_contains(
            CompressedImageFormats::ETC2,
        ),
        selected_target(formats) == TargetFormat::Astc4x4Rgba ==> formats.spec_contains(
            CompressedImageFormats::ASTC_LDR,
        ),
{
}

/// `is_srgb` only chooses the color space: a target has a GPU format with
/// `is_srgb` exactly when it has one without, and the format is sRGB exactly
/// when `is_srgb` is set.
pub proof fn lemma_srgb_selects_color_space(target: TargetFormat, is_srgb: bool)
    ensures
        gpu_format(target, is_srgb) is Some <==> gpu_format(target, !is_srgb) is Some,
        gpu_format(target, is_srgb) matches Some(f) ==> is_srgb_format(f) == is_srgb,
{
}

/// The target follows the GPU's support, flag by flag: BC support always
/// gives BC7; without BC, ETC2 support gives ETC2; without both, ASTC LDR
/// support gives ASTC 4x4; and uncompressed RGBA32 is chosen only when none
/// of the three is supported. (Flags are read from the raw bits: BC is bit
/// 2, ETC2 bit 3, ASTC LDR bit 0.)
pub proof fn lemma_target_follows_gpu_support(formats: CompressedImageFormats)
    ensures
        formats.spec_bits() & 4 != 0 ==> selected_target(formats) == TargetFormat::Bc7Rgba,
        formats.spec_bits() & 4 == 0 && formats.spec_bits() & 8 != 0 ==> selected_target(formats)
            == TargetFormat::Etc2Rgba,
        formats.spec_bits() & 4 == 0 && formats.spec_bits() & 8 == 0 && formats.spec_bits() & 1
            != 0 ==> selected_target(formats) == TargetFormat::Astc4x4Rgba,
        selected_target(formats) == TargetFormat::Rgba32 <==> (formats.spec_bits() & 4 == 0
            && formats.spec_bits() & 8 == 0 && formats.spec_bits() & 1 == 0),
        selected_target(formats) == TargetFormat::Bc7Rgba || selected_target(formats)
            == TargetFormat::Etc2Rgba || selected_target(formats) == TargetFormat::Astc4x4Rgba
            || selected_target(formats) == TargetFormat::Rgba32,
{
    let b = formats.spec_bits();
    assert((b & 4u32 == 4u32) <==> (b & 4u32 != 0u32)) by (bit_vector);
    assert((b & 8u32 == 8u32) <==> (b & 8u32 != 0u32)) by (bit_vector);
    assert((b & 1u32 == 1u32) <==> (b & 1u32 != 0u32)) by (bit_vector);
}

} // verus!
