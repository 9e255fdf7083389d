//! The glTF extension handler: for each texture, whether it is ours, where
//! its image bytes come from, and what becomes of them.

use vstd::prelude::*;
use vstd::utf8::{decode_utf8, encode_utf8, valid_utf8};

use crate::formats::{
    gpu_format, lemma_selected_target_has_gpu_format, lemma_target_code_roundtrip,
    select_target_format, selected_target, target_code, CompressedImageFormats, TargetFormat,
};
use crate::ktx2::{has_prefix, is_ktx2, ktx2_magic, starts_with};
use crate::transcode::{
    is_image_of, texture_format_of, transcode_ktx2_image, TextureImage, TranscodeError,
    TranscodedTexture, TranscodedTextureView,
};
use crate::uri::{data_uri_decoded, decode_data_uri, percent_decode_uri, percent_decoded};

verus! {

/// The prefix of a `data:` URI.
pub const DATA_URI_PREFIX: [u8; 5] = [0x64, 0x61, 0x74, 0x61, 0x3A];

/// The prefix of a `data:` URI as a sequence.
pub open spec fn data_uri_prefix() -> Seq<u8> {
    seq![0x64u8, 0x61u8, 0x74u8, 0x61u8, 0x3Au8]
}

/// Where a glTF image's bytes are stored.
#[derive(Debug)]
pub enum ImageSource {
    /// A byte range of one of the document's buffers.
    View { buffer: usize, offset: usize, length: usize },
    /// A (percent-encoded) URI: a `data:` URI or a path relative to the glTF file.
    Uri { uri: String },
}

/// The `KHR_texture_basisu` extension of a texture: its `source` image
/// index, when the extension holds a non-negative integer there.
#[derive(Clone, Copy, Debug)]
pub struct BasisuExtension {
    pub source: Option<u64>,
}

/// Where the bytes of a texture's image were found.
#[derive(Debug)]
pub enum ImageBytes {
    /// The bytes, from a buffer view or a `data:` URI.
    Resolved { bytes: Vec<u8> },
    /// A path, relative to the glTF file, whose contents are the bytes.
    External { uri: String },
    /// No image bytes can be had.
    Unresolved,
}

/// Where the bytes of an image were found, as values.
pub enum ImageBytesView {
    Resolved { bytes: Seq<u8> },
    External { uri: Seq<char> },
    Unresolved,
}

impl View for ImageBytes {
    type V = ImageBytesView;

    open spec fn view(&self) -> ImageBytesView {
        match self {
            ImageBytes::Resolved { bytes } => ImageBytesView::Resolved { bytes: bytes@ },
            ImageBytes::External { uri } => ImageBytesView::External { uri: uri@ },
            ImageBytes::Unresolved => ImageBytesView::Unresolved,
        }
    }
}

/// The bytes behind an image URI (the UTF-8 bytes of its text): after
/// percent-decoding, which must leave UTF-8, a `data:` URI holds them in
/// base64, and any other URI is a path to read them from.
pub open spec fn uri_image_bytes(uri: Seq<u8>) -> ImageBytesView {
    let decoded = percent_decoded(uri);
    if !valid_utf8(decoded) {
        ImageBytesView::Unresolved
    } else if has_prefix(decoded, data_uri_prefix()) {
        match data_uri_decoded(decoded) {
            Some(bytes) => ImageBytesView::Resolved { bytes },
            None => ImageBytesView::Unresolved,
        }
    } else {
        ImageBytesView::External { uri: decode_utf8(decoded) }
    }
}

/// The bytes of image `source` of a document with these images and
/// buffers.
pub open spec fn image_bytes_of(source: Option<u64>, images: Seq<ImageSource>, buffers: Seq<Vec<u8>>) -> ImageBytesView {
    match source {
        None => ImageBytesView::Unresolved,
        Some(index) => if index >= images.len() {
            ImageBytesView::Unresolved
        } else {
            match images[index as int] {
                ImageSource::View { buffer, offset, length } => if buffer >= buffers.len() {
                    ImageBytesView::Unresolved
                } else {
                    ImageBytesView::Resolved {
                        bytes: buffers[buffer as int]@.subrange(offset as int, offset + length),
                    }
                },
                ImageSource::Uri { uri } => uri_image_bytes(encode_utf8(uri@)),
            }
        },
    }
}

/// When image `source` is a view into an existing buffer, the view lies
/// within that buffer.
pub open spec fn view_in_bounds(source: Option<u64>, images: Seq<ImageSource>, buffers: Seq<Vec<u8>>) -> bool {
    match source {
        None => true,
        Some(index) => index < images.len() ==> match images[index as int] {
            ImageSource::View { buffer, offset, length } => buffer < buffers.len() ==> offset
                + length <= buffers[buffer as int]@.len(),
            ImageSource::Uri { .. } => true,
        },
    }
}

/// Why a `KHR_texture_basisu` texture was not loaded.
#[derive(Debug, PartialEq, Eq, Structural)]
pub enum TextureLoadError {
    /// The image the extension refers to could not be found or read.
    UnresolvedImage,
    /// The image is not a KTX2 file.
    NotKtx2,
    /// The KTX2 data could not be turned into an image.
    Transcode { error: TranscodeError },
}

/// What the loader is to do next with a texture.
#[derive(Debug)]
pub enum TextureLoadAction {
    /// The texture does not use `KHR_texture_basisu`: leave it, unchanged,
    /// to the default loader.
    UseDefaultLoader,
    /// Resolve `uri` against the glTF file's path, read the asset there,
    /// and hand the bytes (or `None` when that fails) to
    /// [`GltfBasisuDecoderExtensionHandler::on_image_read`].
    ReadExternal { uri: String },
    /// Transcode the KTX2 data `bytes` to `target` with the Basis Universal
    /// transcoder, and hand the result (or `None` when it rejects the data)
    /// to [`GltfBasisuDecoderExtensionHandler::on_transcoded`].
    Transcode { bytes: Vec<u8>, target: TargetFormat },
    /// Use `image` as the texture's image.
    Install { image: TextureImage },
    /// Report `error`; the texture gets no image from this handler.
    Report { error: TextureLoadError },
}

/// `action` is what becomes of a texture whose image bytes are `bytes`
/// (`None` when they could not be had): a KTX2 file is transcoded to the
/// target chosen for the GPU's compressed-format support; anything else is
/// reported.
pub open spec fn is_action_for_bytes(
    action: TextureLoadAction,
    bytes: Option<Seq<u8>>,
    formats: CompressedImageFormats,
) -> bool {
    match bytes {
        None => action == TextureLoadAction::Report { error: TextureLoadError::UnresolvedImage },
        Some(b) => if !has_prefix(b, ktx2_magic()) {
            action == TextureLoadAction::Report { error: TextureLoadError::NotKtx2 }
        } else {
            action matches TextureLoadAction::Transcode { bytes, target } && bytes@ == b && target
                == selected_target(formats)
        },
    }
}

/// `action` is what becomes of a texture once the transcoder returned
/// `texture` (`None` when it rejected the data): the image assembled from
/// it is installed, and a failure is reported.
pub open spec fn is_action_for_transcoded(
    action: TextureLoadAction,
    texture: Option<TranscodedTextureView>,
    is_srgb: bool,
) -> bool {
    match texture {
        None => action == TextureLoadAction::Report {
            error: TextureLoadError::Transcode { error: TranscodeError::TranscodeFailed },
        },
        Some(t) => if texture_format_of(t.format, is_srgb) is None {
            action == TextureLoadAction::Report {
                error: TextureLoadError::Transcode {
                    error: TranscodeError::UnsupportedFormat { format: t.format },
                },
            }
        } else {
            action matches TextureLoadAction::Install { image } && is_image_of(image, t, is_srgb)
        },
    }
}

/// `action` is what becomes of a texture with the given extension in a
/// document with these images and buffers.
pub open spec fn is_action_for_texture(
    action: TextureLoadAction,
    extension: Option<BasisuExtension>,
    images: Seq<ImageSource>,
    buffers: Seq<Vec<u8>>,
    formats: CompressedImageFormats,
) -> bool {
    match extension {
        None => action == TextureLoadAction::UseDefaultLoader,
        Some(ext) => match image_bytes_of(ext.source, images, buffers) {
            ImageBytesView::Unresolved => is_action_for_bytes(action, None, formats),
            ImageBytesView::Resolved { bytes } => is_action_for_bytes(action, Some(bytes), formats),
            ImageBytesView::External { uri } => action matches TextureLoadAction::ReadExternal {
                uri: u,
            } && u@ == uri,
        },
    }
}

/// Only data that starts with the KTX2 file identifier is handed to the
/// transcoder, and always with a target that has a GPU format.
pub proof fn lemma_only_ktx2_is_transcoded(
    action: TextureLoadAction,
    bytes: Option<Seq<u8>>,
    formats: CompressedImageFormats,
    is_srgb: bool,
)
    requires
        is_action_for_bytes(action, bytes, formats),
        action is Transcode,
    ensures
        bytes matches Some(b) && has_prefix(b, ktx2_magic()),
        gpu_format(action->Transcode_target, is_srgb) is Some,
{
    lemma_selected_target_has_gpu_format(formats, is_srgb);
}

/// When the transcoder returns data in the target it was asked for, and
/// that target was chosen for the GPU, the installed image has the GPU
/// format of that target.
pub proof fn lemma_installed_format_is_selected_format(
    action: TextureLoadAction,
    texture: TranscodedTextureView,
    formats: CompressedImageFormats,
    is_srgb: bool,
)
    requires
        is_action_for_transcoded(action, Some(texture), is_srgb),
        texture.format == target_code(selected_target(formats)),
    ensures
        action matches TextureLoadAction::Install { image } && Some(image.format) == gpu_format(
            selected_target(formats),
            is_srgb,
        ),
{
    lemma_target_code_roundtrip(selected_target(formats), texture.format);
    lemma_selected_target_has_gpu_format(formats, is_srgb);
}

/// The handler leaves a texture to the default loader exactly when the
/// texture does not use `KHR_texture_basisu`.
pub proof fn lemma_default_loader_iff_no_extension(
    action: TextureLoadAction,
    extension: Option<BasisuExtension>,
    images: Seq<ImageSource>,
    buffers: Seq<Vec<u8>>,
    formats: CompressedImageFormats,
)
    requires
        is_action_for_texture(action, extension, images, buffers, formats),
    ensures
        action is UseDefaultLoader <==> extension is None,
        action is Transcode ==> extension is Some,
{
}

/// Every image byte string that starts with the 12-byte KTX2 file
/// identifier is handed to the transcoder unchanged, with the target chosen
/// for the GPU; `NotKtx2` is reported exactly when the identifier is
/// missing, and `UnresolvedImage` exactly when there are no bytes.
pub proof fn lemma_every_ktx2_file_is_transcoded(
    action: TextureLoadAction,
    bytes: Option<Seq<u8>>,
    formats: CompressedImageFormats,
)
    requires
        is_action_for_bytes(action, bytes, formats),
    ensures
        match bytes {
            Some(b) => b.len() >= 12 && b[0] == 0xABu8 && b[1] == 0x4Bu8 && b[2] == 0x54u8 && b[3]
                == 0x58u8 && b[4] == 0x20u8 && b[5] == 0x32u8 && b[6] == 0x30u8 && b[7] == 0xBBu8
                && b[8] == 0x0Du8 && b[9] == 0x0Au8 && b[10] == 0x1Au8 && b[11] == 0x0Au8 ==> (
            action matches TextureLoadAction::Transcode { bytes: given, target } && given@ == b
                && target == selected_target(formats)),
            None => true,
        },
        action == (TextureLoadAction::Report { error: TextureLoadError::NotKtx2 }) <==> match bytes {
            Some(b) => !(b.len() >= 12 && b[0] == 0xABu8 && b[1] == 0x4Bu8 && b[2] == 0x54u8 && b[3]
                == 0x58u8 && b[4] == 0x20u8 && b[5] == 0x32u8 && b[6] == 0x30u8 && b[7] == 0xBBu8
                && b[8] == 0x0Du8 && b[9] == 0x0Au8 && b[10] == 0x1Au8 && b[11] == 0x0Au8),
            None => false,
        },
        action == (TextureLoadAction::Report { error: TextureLoadError::UnresolvedImage }) <==> bytes
            is None,
{
    if let Some(b) = bytes {
        let m = ktx2_magic();
        if has_prefix(b, m) {
            assert forall|k: int| 0 <= k < 12 implies b[k] == m[k] by {
                assert(b.subrange(0, 12)[k] == b[k]);
            }
        } else if b.len() >= 12 {
            if b[0] == 0xABu8 && b[1] == 0x4Bu8 && b[2] == 0x54u8 && b[3] == 0x58u8 && b[4] == 0x20u8
                && b[5] == 0x32u8 && b[6] == 0x30u8 && b[7] == 0xBBu8 && b[8] == 0x0Du8 && b[9]
                == 0x0Au8 && b[10] == 0x1Au8 && b[11] == 0x0Au8 {
                assert(b.subrange(0, 12) =~= m);
            }
        }
    }
}

/// An image URI is read as a data URI only when its percent-decoded text
/// starts with the five bytes `data:`: text that is valid UTF-8 and does
/// not start with them names a file, resolved to `External` with exactly
/// that decoded text (for a URI image of the document as for a bare URI);
/// text that does start with them never names a file; and text that is not
/// UTF-8 is unresolved.
pub proof fn lemma_only_data_prefix_is_a_data_uri(
    uri: Seq<u8>,
    index: u64,
    images: Seq<ImageSource>,
    buffers: Seq<Vec<u8>>,
)
    ensures
        ({
            let text = percent_decoded(uri);
            valid_utf8(text) && !(text.len() >= 5 && text[0] == 0x64u8 && text[1] == 0x61u8
                && text[2] == 0x74u8 && text[3] == 0x61u8 && text[4] == 0x3Au8) ==> uri_image_bytes(
                uri,
            ) == (ImageBytesView::External { uri: decode_utf8(text) })
        }),
        ({
            let text = percent_decoded(uri);
            text.len() >= 5 && text[0] == 0x64u8 && text[1] == 0x61u8 && text[2] == 0x74u8
                && text[3] == 0x61u8 && text[4] == 0x3Au8 ==> !(uri_image_bytes(uri) is External)
        }),
        !valid_utf8(percent_decoded(uri)) ==> uri_image_bytes(uri) is Unresolved,
        index < images.len() ==> match images[index as int] {
            ImageSource::Uri { uri: u } => {
                let text = percent_decoded(encode_utf8(u@));
                valid_utf8(text) && !(text.len() >= 5 && text[0] == 0x64u8 && text[1] == 0x61u8
                    && text[2] == 0x74u8 && text[3] == 0x61u8 && text[4] == 0x3Au8)
                    ==> image_bytes_of(Some(index), images, buffers) == (ImageBytesView::External {
                    uri: decode_utf8(text),
                })
            },
            ImageSource::View { .. } => true,
        },
{
    let p = data_uri_prefix();
    assert forall|text: Seq<u8>| has_prefix(text, p) <==> (text.len() >= 5 && text[0] == 0x64u8
        && text[1] == 0x61u8 && text[2] == 0x74u8 && text[3] == 0x61u8 && text[4] == 0x3Au8) by {
        if has_prefix(text, p) {
            assert forall|k: int| 0 <= k < 5 implies text[k] == p[k] by {
                assert(text.subrange(0, 5)[k] == text[k]);
            }
        }
        if text.len() >= 5 && text[0] == 0x64u8 && text[1] == 0x61u8 && text[2] == 0x74u8
            && text[3] == 0x61u8 && text[4] == 0x3Au8 {
            assert(text.subrange(0, 5) =~= p);
        }
    }
}

/// Handler that loads `KHR_texture_basisu` textures for each glTF texture
/// that declares the extension.
#[derive(Clone, Copy, Debug, Default)]
pub struct GltfBasisuDecoderExtensionHandler;

impl GltfBasisuDecoderExtensionHandler {
    /// Resolves the bytes of image `source`: from a buffer view, from a
    /// `data:` URI, or (left to the caller to read) from an external URI.
    pub fn image_bytes(source: Option<u64>, images: &[ImageSource], buffer_data: &[Vec<u8>]) -> (r: ImageBytes)
        requires
            view_in_bounds(source, images@, buffer_data@),
        ensures
            r@ == image_bytes_of(source, images@, buffer_data@),
    {
        let index: u64 = match source {
            Some(index) => index,
            None => {
                return ImageBytes::Unresolved;
            },
        };
        if index >= images.len() as u64 {
            return ImageBytes::Unresolved;
        }
        match &images[index as usize] {
            ImageSource::View { buffer, offset, length } => {
                if *buffer >= buffer_data.len() {
                    return ImageBytes::Unresolved;
                }
                let data = buffer_data[*buffer].as_slice();
                let data_len: usize = data.len();
                assert(*offset + *length <= data_len);
                let range = vstd::slice::slice_subrange(data, *offset, *offset + *length);
                ImageBytes::Resolved { bytes: vstd::slice::slice_to_vec(range) }
            },
            ImageSource::Uri { uri } => {
                let decoded = match percent_decode_uri(uri.as_str()) {
                    Some(decoded) => decoded,
                    None => {
                        return ImageBytes::Unresolved;
                    },
                };
                let text = decoded.as_str();
                let bytes = text.as_bytes();
                proof {
                    vstd::utf8::decode_utf8_encode_utf8(percent_decoded(encode_utf8(uri@)));
                    assert(bytes@ == percent_decoded(encode_utf8(uri@)));
                }
                let prefix: &[u8] = &DATA_URI_PREFIX;
                assert(prefix@ =~= data_uri_prefix());
                if starts_with(bytes, prefix) {
                    match decode_data_uri(text) {
                        Some(bytes) => ImageBytes::Resolved { bytes },
                        None => ImageBytes::Unresolved,
                    }
                } else {
                    ImageBytes::External { uri: decoded }
                }
            },
        }
    }

    /// What becomes of a texture whose image bytes are `bytes`.
    fn load_bytes(&self, bytes: Option<Vec<u8>>, supported_compressed_formats: CompressedImageFormats) -> (r: TextureLoadAction)
        ensures
            is_action_for_bytes(
                r,
                match bytes {
                    Some(b) => Some(b@),
                    None => None,
                },
                supported_compressed_formats,
            ),
    {
        let bytes = match bytes {
            Some(bytes) => bytes,
            None => {
                return TextureLoadAction::Report { error: TextureLoadError::UnresolvedImage };
            },
        };
        if !is_ktx2(bytes.as_slice()) {
            return TextureLoadAction::Report { error: TextureLoadError::NotKtx2 };
        }
        let target = select_target_format(supported_compressed_formats);
        TextureLoadAction::Transcode { bytes, target }
    }

    /// Decides what becomes of a glTF texture: one without the
    /// `KHR_texture_basisu` extension is left to the default loader; for one
    /// with it, the image the extension refers to is resolved, checked to be
    /// a KTX2 file and transcoded, or read first when it lies outside the
    /// glTF file.
    pub fn on_texture_load(
        &self,
        extension: Option<BasisuExtension>,
        images: &[ImageSource],
        buffer_data: &[Vec<u8>],
        supported_compressed_formats: CompressedImageFormats,
    ) -> (r: TextureLoadAction)
        requires
            extension matches Some(ext) ==> view_in_bounds(ext.source, images@, buffer_data@),
        ensures
            is_action_for_texture(
                r,
                extension,
                images@,
                buffer_data@,
                supported_compressed_formats,
            ),
    {
        let extension = match extension {
            Some(extension) => extension,
            None => {
                return TextureLoadAction::UseDefaultLoader;
            },
        };
        match Self::image_bytes(extension.source, images, buffer_data) {
            ImageBytes::Resolved { bytes } => self.load_bytes(Some(bytes), supported_compressed_formats),
            ImageBytes::External { uri } => TextureLoadAction::ReadExternal { uri },
            ImageBytes::Unresolved => self.load_bytes(None, supported_compressed_formats),
        }
    }

    /// Continues after [`TextureLoadAction::ReadExternal`] with the bytes
    /// read (`None` when the path could not be resolved or read).
    pub fn on_image_read(&self, bytes: Option<Vec<u8>>, supported_compressed_formats: CompressedImageFormats) -> (r: TextureLoadAction)
        ensures
            is_action_for_bytes(
                r,
                match bytes {
                    Some(b) => Some(b@),
                    None => None,
                },
                supported_compressed_formats,
            ),
    {
        self.load_bytes(bytes, supported_compressed_formats)
    }

    /// Continues after [`TextureLoadAction::Transcode`] with what the
    /// transcoder returned (`None` when it rejected the data): the image is
    /// installed, or the failure reported.
    pub fn on_transcoded(&self, texture: Option<TranscodedTexture>, is_srgb: bool) -> (r: TextureLoadAction)
        ensures
            is_action_for_transcoded(
                r,
                match texture {
                    Some(t) => Some(t@),
                    None => None,
                },
                is_srgb,
            ),
    {
        match transcode_ktx2_image(texture, is_srgb) {
            Ok(image) => TextureLoadAction::Install { image },
            Err(error) => TextureLoadAction::Report { error: TextureLoadError::Transcode { error } },
        }
    }
}

/// Plugin that adds `KHR_texture_basisu` support to the glTF loader.
///
/// Add this plugin to an app to load glTF models whose textures use the
/// `KHR_texture_basisu` extension (KTX2 Basis Universal, ETC1S / UASTC).
pub struct GltfBasisuDecoderPlugin;

} // verus!
