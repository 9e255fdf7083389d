//! Shaping what the Basis Universal transcoder returns into a
//! texture image: every mip level packed into one buffer in mip-major order.

use vstd::prelude::*;

use crate::formats::{code_target, gpu_format, TargetFormat, TextureFormat};

verus! {

/// The dimensions of a transcoded texture.
#[derive(Clone, Copy, Debug, PartialEq, Eq, Structural)]
pub struct TextureInfo {
    pub width: u32,
    pub height: u32,
    /// The number of mip levels.
    pub levels: u32,
}

/// One transcoded mip level, tightly packed.
#[derive(Debug)]
pub struct LevelData {
    pub width: u32,
    pub height: u32,
    pub data: Vec<u8>,
}

/// A mip level as values.
pub struct LevelDataView {
    pub width: u32,
    pub height: u32,
    pub data: Seq<u8>,
}

impl View for LevelData {
    type V = LevelDataView;

    open spec fn view(&self) -> LevelDataView {
        LevelDataView { width: self.width, height: self.height, data: self.data@ }
    }
}

/// The result of transcoding a KTX2 texture.
#[derive(Debug)]
pub struct TranscodedTexture {
    pub info: TextureInfo,
    /// The `basist::transcoder_texture_format` value every level was
    /// transcoded to.
    pub format: u32,
    /// Mip levels 0 to `info.levels`, in order.
    pub levels: Vec<LevelData>,
}

/// A transcoded texture as values.
pub struct TranscodedTextureView {
    pub info: TextureInfo,
    pub format: u32,
    pub levels: Seq<LevelDataView>,
}

impl View for TranscodedTexture {
    type V = TranscodedTextureView;

    open spec fn view(&self) -> TranscodedTextureView {
        TranscodedTextureView {
            info: self.info,
            format: self.format,
            levels: self.levels@.map_values(|l: LevelData| l@),
        }
    }
}

/// How texel data is laid out across mip levels and array layers.
#[derive(Clone, Copy, Debug, PartialEq, Eq, Structural)]
pub enum TextureDataOrder {
    LayerMajor,
    MipMajor,
}

/// The dimensionality of a texture.
#[derive(Clone, Copy, Debug, PartialEq, Eq, Structural)]
pub enum TextureDimension {
    D1,
    D2,
    D3,
}

/// A texture image ready for upload: its data and its texture descriptor.
#[derive(Debug)]
pub struct TextureImage {
    pub data: Vec<u8>,
    pub data_order: TextureDataOrder,
    pub width: u32,
    pub height: u32,
    pub depth_or_array_layers: u32,
    pub mip_level_count: u32,
    pub format: TextureFormat,
    pub dimension: TextureDimension,
}

/// Why a KTX2 texture could not be turned into an image.
#[derive(Clone, Copy, Debug, PartialEq, Eq, Structural)]
pub enum TranscodeError {
    /// The transcoder rejected the data.
    TranscodeFailed,
    /// The transcoded format (a `basist::transcoder_texture_format` value)
    /// has no GPU format.
    UnsupportedFormat { format: u32 },
}

/// The GPU format of data in the transcoded format with the given value.
pub open spec fn texture_format_of(format: u32, is_srgb: bool) -> Option<TextureFormat> {
    match code_target(format) {
        Some(target) => gpu_format(target, is_srgb),
        None => None,
    }
}

/// The bytes of every mip level, concatenated from level 0 on.
pub open spec fn packed_levels(levels: Seq<LevelDataView>) -> Seq<u8> {
    levels.map_values(|l: LevelDataView| l.data).flatten()
}

/// `image` is the 2D image of `texture`: all of its levels packed in
/// mip-major order, its size with one layer, its mip level count, and the
/// GPU format of its transcoded format.
pub open spec fn is_image_of(image: TextureImage, texture: TranscodedTextureView, is_srgb: bool) -> bool {
    &&& image.data@ == packed_levels(texture.levels)
    &&& image.data_order == TextureDataOrder::MipMajor
    &&& image.width == texture.info.width
    &&& image.height == texture.info.height
    &&& image.depth_or_array_layers == 1
    &&& image.mip_level_count == texture.info.levels
    &&& texture_format_of(texture.format, is_srgb) == Some(image.format)
    &&& image.dimension == TextureDimension::D2
}

/// `r` is what assembling an image from `texture` gives: its image, or
/// `UnsupportedFormat` when its transcoded format has no GPU format.
pub open spec fn transcoded_image(
    r: Result<TextureImage, TranscodeError>,
    texture: TranscodedTextureView,
    is_srgb: bool,
) -> bool {
    if texture_format_of(texture.format, is_srgb) is None {
        r == Err::<TextureImage, TranscodeError>(
            TranscodeError::UnsupportedFormat { format: texture.format },
        )
    } else {
        r matches Ok(image) && is_image_of(image, texture, is_srgb)
    }
}

/// The bytes of each level, in order.
pub open spec fn level_bytes(levels: Seq<LevelDataView>) -> Seq<Seq<u8>> {
    levels.map_values(|l: LevelDataView| l.data)
}

/// The number of bytes in levels `0` to `i - 1`.
pub open spec fn bytes_before(levels: Seq<LevelDataView>, i: int) -> int
    decreases i,
{
    if i <= 0 {
        0
    } else {
        bytes_before(levels, i - 1) + levels[i - 1].data.len()
    }
}

proof fn lemma_bytes_before_monotone(levels: Seq<LevelDataView>, i: int, j: int)
    requires
        0 <= i <= j <= levels.len(),
    ensures
        0 <= bytes_before(levels, i) <= bytes_before(levels, j),
    decreases j,
{
    if i < j {
        lemma_bytes_before_monotone(levels, i, j - 1);
    } else if i > 0 {
        lemma_bytes_before_monotone(levels, i - 1, i - 1);
    }
}

proof fn lemma_bytes_before_drop_last(levels: Seq<LevelDataView>, i: int)
    requires
        0 <= i < levels.len(),
    ensures
        bytes_before(levels.drop_last(), i) == bytes_before(levels, i),
    decreases i,
{
    if i > 0 {
        lemma_bytes_before_drop_last(levels, i - 1);
    }
}

proof fn lemma_flatten_alt_segments(levels: Seq<LevelDataView>)
    ensures
        level_bytes(levels).flatten_alt().len() == bytes_before(
            levels,
            levels.len() as int,
        ),
        forall|i: int|
            #![trigger levels[i]]
            0 <= i < levels.len() ==> level_bytes(levels).flatten_alt().subrange(
                bytes_before(levels, i),
                bytes_before(levels, i) + levels[i].data.len(),
            ) == levels[i].data,
    decreases levels.len(),
{
    if levels.len() > 0 {
        let n = levels.len() as int;
        let init = levels.drop_last();
        lemma_flatten_alt_segments(init);
        let ss = level_bytes(levels);
        assert(ss.drop_last() =~= level_bytes(init));
        let front = level_bytes(init).flatten_alt();
        assert(ss.flatten_alt() == front + levels[n - 1].data);
        lemma_bytes_before_drop_last(levels, n - 1);
        assert forall|i: int| #![trigger levels[i]] 0 <= i < n implies ss.flatten_alt().subrange(
            bytes_before(levels, i),
            bytes_before(levels, i) + levels[i].data.len(),
        ) == levels[i].data by {
            lemma_bytes_before_monotone(levels, i, n - 1);
            if i < n - 1 {
                lemma_bytes_before_monotone(levels, i + 1, n - 1);
                lemma_bytes_before_drop_last(levels, i);
                lemma_bytes_before_drop_last(levels, i + 1);
                assert(init[i] == levels[i]);
                assert(ss.flatten_alt().subrange(
                    bytes_before(levels, i),
                    bytes_before(levels, i) + levels[i].data.len(),
                ) =~= front.subrange(
                    bytes_before(init, i),
                    bytes_before(init, i) + init[i].data.len(),
                ));
            } else {
                assert(ss.flatten_alt().subrange(
                    bytes_before(levels, i),
                    bytes_before(levels, i) + levels[i].data.len(),
                ) =~= levels[i].data);
            }
        }
    }
}

/// An image holds every level of its texture, whatever their number:
/// level `i` lies at offset `bytes_before(levels, i)`, right after levels
/// `0` to `i - 1`, and the data is exactly as long as all levels together.
pub proof fn lemma_image_holds_every_level(image: TextureImage, texture: TranscodedTextureView, is_srgb: bool)
    requires
        is_image_of(image, texture, is_srgb),
    ensures
        image.data@.len() == bytes_before(texture.levels, texture.levels.len() as int),
        forall|i: int|
            #![trigger texture.levels[i]]
            0 <= i < texture.levels.len() ==> image.data@.subrange(
                bytes_before(texture.levels, i),
                bytes_before(texture.levels, i) + texture.levels[i].data.len(),
            ) == texture.levels[i].data,
{
    let ss = level_bytes(texture.levels);
    ss.lemma_flatten_and_flatten_alt_are_equivalent();
    lemma_flatten_alt_segments(texture.levels);
    assert forall|i: int| #![trigger texture.levels[i]] 0 <= i < texture.levels.len() implies image.data@.subrange(
        bytes_before(texture.levels, i),
        bytes_before(texture.levels, i) + texture.levels[i].data.len(),
    ) == texture.levels[i].data by {
        assert(ss.flatten_alt().subrange(
            bytes_before(texture.levels, i),
            bytes_before(texture.levels, i) + texture.levels[i].data.len(),
        ) == texture.levels[i].data);
    }
}

/// Assembles an image from a transcoded texture, packing every mip level
/// into one buffer in mip-major order.
pub fn build_image(texture: TranscodedTexture, is_srgb: bool) -> (r: Result<TextureImage, TranscodeError>)
    ensures
        transcoded_image(r, texture@, is_srgb),
{
    let format = match TargetFormat::from_code(texture.format) {
        Some(target) => crate::formats::wgpu_format(target, is_srgb),
        None => None,
    };
    let format = match format {
        Some(f) => f,
        None => {
            return Err(TranscodeError::UnsupportedFormat { format: texture.format });
        },
    };
    let ghost levels = texture@.levels.map_values(|l: LevelDataView| l.data);
    let mut data: Vec<u8> = Vec::new();
    let n: usize = texture.levels.len();
    let mut i: usize = 0;
    while i < n
        invariant
            n == texture.levels@.len(),
            levels == texture@.levels.map_values(|l: LevelDataView| l.data),
            i <= n,
            data@ == levels.take(i as int).flatten_alt(),
        decreases n - i,
    {
        let level = &texture.levels[i];
        let ghost before = data@;
        let mut j: usize = 0;
        while j < level.data.len()
            invariant
                j <= level.data@.len(),
                data@ == before + level.data@.take(j as int),
            decreases level.data@.len() - j,
        {
            data.push(level.data[j]);
            j = j + 1;
            assert(data@ =~= before + level.data@.take(j as int));
        }
        assert(level.data@.take(j as int) =~= level.data@);
        assert(levels.take(i + 1).drop_last() =~= levels.take(i as int));
        assert(levels.take(i + 1).last() == level.data@);
        i = i + 1;
    }
    proof {
        assert(levels.take(n as int) =~= levels);
        levels.lemma_flatten_and_flatten_alt_are_equivalent();
    }
    Ok(
        TextureImage {
            data,
            data_order: TextureDataOrder::MipMajor,
            width: texture.info.width,
            height: texture.info.height,
            depth_or_array_layers: 1,
            mip_level_count: texture.info.levels,
            format,
            dimension: TextureDimension::D2,
        },
    )
}

/// Finishes transcoding a KTX2 Basis Universal texture into an image,
/// given what the transcoder returned for the target chosen by
/// [`crate::formats::select_target_format`] (`None` when it rejected the
/// data).
pub fn transcode_ktx2_image(texture: Option<TranscodedTexture>, is_srgb: bool) -> (r: Result<TextureImage, TranscodeError>)
    ensures
        texture is None ==> r == Err::<TextureImage, TranscodeError>(TranscodeError::TranscodeFailed),
        texture matches Some(t) ==> transcoded_image(r, t@, is_srgb),
{
    match texture {
        None => Err(TranscodeError::TranscodeFailed),
        Some(texture) => build_image(texture, is_srgb),
    }
}

} // verus!
