use bevy_gltf_basisu::formats::{CompressedImageFormats, TargetFormat, TextureFormat};
use bevy_gltf_basisu::handler::{
    BasisuExtension, GltfBasisuDecoderExtensionHandler, ImageBytes, ImageSource,
    TextureLoadAction, TextureLoadError,
};
use bevy_gltf_basisu::transcode::{LevelData, TextureInfo, TranscodeError, TranscodedTexture};
use bevy_gltf_basisu::uri::{decode_data_uri, percent_decode_uri};

/// An ETC1S (BasisLZ) KTX2 texture: 16x28 texels, 5 mip levels, sRGB.
const SAMPLE: [u8; 801] = [
    0xAB, 0x4B, 0x54, 0x58, 0x20, 0x32, 0x30, 0xBB, 0x0D, 0x0A, 0x1A, 0x0A, 0x00, 0x00, 0x00, 0x00,
    0x01, 0x00, 0x00, 0x00, 0x10, 0x00, 0x00, 0x00, 0x1C, 0x00, 0x00, 0x00, 0x00, 0x00, 0x00, 0x00,
    0x00, 0x00, 0x00, 0x00, 0x01, 0x00, 0x00, 0x00, 0x05, 0x00, 0x00, 0x00, 0x01, 0x00, 0x00, 0x00,
    0xC8, 0x00, 0x00, 0x00, 0x2C, 0x00, 0x00, 0x00, 0xF4, 0x00, 0x00, 0x00, 0x74, 0x00, 0x00, 0x00,
    0x68, 0x01, 0x00, 0x00, 0x00, 0x00, 0x00, 0x00, 0x8F, 0x01, 0x00, 0x00, 0x00, 0x00, 0x00, 0x00,
    0x06, 0x03, 0x00, 0x00, 0x00, 0x00, 0x00, 0x00, 0x1B, 0x00, 0x00, 0x00, 0x00, 0x00, 0x00, 0x00,
    0x00, 0x00, 0x00, 0x00, 0x00, 0x00, 0x00, 0x00, 0xFE, 0x02, 0x00, 0x00, 0x00, 0x00, 0x00, 0x00,
    0x08, 0x00, 0x00, 0x00, 0x00, 0x00, 0x00, 0x00, 0x00, 0x00, 0x00, 0x00, 0x00, 0x00, 0x00, 0x00,
    0xFB, 0x02, 0x00, 0x00, 0x00, 0x00, 0x00, 0x00, 0x03, 0x00, 0x00, 0x00, 0x00, 0x00, 0x00, 0x00,
    0x00, 0x00, 0x00, 0x00, 0x00, 0x00, 0x00, 0x00, 0xF9, 0x02, 0x00, 0x00, 0x00, 0x00, 0x00, 0x00,
    0x02, 0x00, 0x00, 0x00, 0x00, 0x00, 0x00, 0x00, 0x00, 0x00, 0x00, 0x00, 0x00, 0x00, 0x00, 0x00,
    0xF7, 0x02, 0x00, 0x00, 0x00, 0x00, 0x00, 0x00, 0x02, 0x00, 0x00, 0x00, 0x00, 0x00, 0x00, 0x00,
    0x00, 0x00, 0x00, 0x00, 0x00, 0x00, 0x00, 0x00, 0x2C, 0x00, 0x00, 0x00, 0x00, 0x00, 0x00, 0x00,
    0x02, 0x00, 0x28, 0x00, 0xA3, 0x01, 0x02, 0x00, 0x03, 0x03, 0x00, 0x00, 0x00, 0x00, 0x00, 0x00,
    0x00, 0x00, 0x00, 0x00, 0x00, 0x00, 0x3F, 0x00, 0x00, 0x00, 0x00, 0x00, 0x00, 0x00, 0x00, 0x00,
    0xFF, 0xFF, 0xFF, 0xFF, 0x12, 0x00, 0x00, 0x00, 0x4B, 0x54, 0x58, 0x6F, 0x72, 0x69, 0x65, 0x6E,
    0x74, 0x61, 0x74, 0x69, 0x6F, 0x6E, 0x00, 0x72, 0x64, 0x00, 0x00, 0x00, 0x2C, 0x00, 0x00, 0x00,
    0x4B, 0x54, 0x58, 0x77, 0x72, 0x69, 0x74, 0x65, 0x72, 0x00, 0x74, 0x6F, 0x6B, 0x74, 0x78, 0x20,
    0x76, 0x34, 0x2E, 0x33, 0x2E, 0x30, 0x7E, 0x32, 0x38, 0x20, 0x2F, 0x20, 0x6C, 0x69, 0x62, 0x6B,
    0x74, 0x78, 0x20, 0x76, 0x34, 0x2E, 0x33, 0x2E, 0x32, 0x7E, 0x31, 0x00, 0x26, 0x00, 0x00, 0x00,
    0x4B, 0x54, 0x58, 0x77, 0x72, 0x69, 0x74, 0x65, 0x72, 0x53, 0x63, 0x50, 0x61, 0x72, 0x61, 0x6D,
    0x73, 0x00, 0x2D, 0x2D, 0x62, 0x63, 0x6D, 0x70, 0x20, 0x2D, 0x2D, 0x71, 0x6C, 0x65, 0x76, 0x65,
    0x6C, 0x20, 0x31, 0x39, 0x32, 0x00, 0x00, 0x00, 0x19, 0x00, 0x1F, 0x00, 0x5D, 0x00, 0x00, 0x00,
    0x7D, 0x00, 0x00, 0x00, 0x3D, 0x00, 0x00, 0x00, 0x00, 0x00, 0x00, 0x00, 0x00, 0x00, 0x00, 0x00,
    0x00, 0x00, 0x00, 0x00, 0x1B, 0x00, 0x00, 0x00, 0x00, 0x00, 0x00, 0x00, 0x00, 0x00, 0x00, 0x00,
    0x00, 0x00, 0x00, 0x00, 0x00, 0x00, 0x00, 0x00, 0x08, 0x00, 0x00, 0x00, 0x00, 0x00, 0x00, 0x00,
    0x00, 0x00, 0x00, 0x00, 0x00, 0x00, 0x00, 0x00, 0x00, 0x00, 0x00, 0x00, 0x03, 0x00, 0x00, 0x00,
    0x00, 0x00, 0x00, 0x00, 0x00, 0x00, 0x00, 0x00, 0x00, 0x00, 0x00, 0x00, 0x00, 0x00, 0x00, 0x00,
    0x02, 0x00, 0x00, 0x00, 0x00, 0x00, 0x00, 0x00, 0x00, 0x00, 0x00, 0x00, 0x00, 0x00, 0x00, 0x00,
    0x00, 0x00, 0x00, 0x00, 0x02, 0x00, 0x00, 0x00, 0x00, 0x00, 0x00, 0x00, 0x00, 0x00, 0x00, 0x00,
    0x20, 0x40, 0x24, 0x81, 0x01, 0x10, 0x06, 0x42, 0xE0, 0x78, 0x10, 0xEA, 0xFA, 0x00, 0x53, 0x13,
    0x0A, 0x08, 0xF0, 0x04, 0x60, 0x00, 0x80, 0x41, 0xD0, 0x06, 0x3E, 0x5F, 0x0D, 0x26, 0x85, 0x00,
    0x60, 0x02, 0x00, 0x00, 0x00, 0x00, 0x00, 0x00, 0x81, 0x00, 0x44, 0x00, 0x00, 0x00, 0x00, 0x10,
    0x02, 0x79, 0x84, 0x57, 0xAE, 0x6E, 0x6B, 0x3B, 0xDF, 0xCC, 0x00, 0x6C, 0x53, 0xB8, 0x0B, 0xAE,
    0x85, 0x9C, 0x38, 0x49, 0x68, 0xDF, 0x6B, 0x75, 0x66, 0x22, 0xD9, 0x5D, 0x99, 0x67, 0x5E, 0x01,
    0x80, 0xE4, 0x2A, 0x7F, 0x64, 0xEB, 0xDF, 0x5B, 0xB7, 0x84, 0x64, 0xBD, 0x08, 0x9C, 0xF9, 0xFD,
    0xFD, 0x91, 0xB1, 0x8F, 0xAD, 0x75, 0xF7, 0xA7, 0xAF, 0xD6, 0xFA, 0xF3, 0xE3, 0x7C, 0x7A, 0x7A,
    0xFB, 0x25, 0x58, 0x5B, 0x79, 0xA5, 0x9A, 0x79, 0x7F, 0x07, 0xDA, 0x78, 0x78, 0x08, 0x80, 0x52,
    0x78, 0x05, 0x00, 0x50, 0x41, 0x04, 0x00, 0x00, 0x00, 0x00, 0x00, 0x00, 0x18, 0x00, 0x00, 0x11,
    0x18, 0x18, 0x11, 0x10, 0x10, 0x58, 0x07, 0x00, 0x08, 0xD0, 0x05, 0x00, 0x00, 0x71, 0x14, 0x40,
    0x00, 0xF8, 0x07, 0x50, 0x05, 0xF8, 0xA7, 0x1A, 0x18, 0xF8, 0xAF, 0x02, 0xA8, 0x72, 0x27, 0x02,
    0x28, 0xAA, 0xAA, 0xAA, 0xAA, 0x0A, 0x82, 0x20, 0x9A, 0x01, 0xA8, 0x02, 0xD8, 0xD7, 0xB1, 0x44,
    0x62, 0xCD, 0xC5, 0xC1, 0xC1, 0xD9, 0xD7, 0xDA, 0x7A, 0x38, 0x5F, 0x5C, 0xFF, 0xEE, 0x4B, 0x2F,
    0x85, 0xFC, 0xF9, 0x2D, 0x05, 0xD0, 0x58, 0x53, 0x25, 0x03, 0x00, 0xC1, 0x94, 0x00, 0x00, 0x00,
    0x00, 0x61, 0x00, 0x16, 0x01, 0x1A, 0x3D, 0x3A, 0x99, 0x50, 0x97, 0xCB, 0x00, 0xA6, 0x00, 0x0C,
    0x00, 0x20, 0x08, 0x04, 0xC0, 0x11, 0x34, 0x19, 0x9C, 0x13, 0xFE, 0x96, 0x80, 0x46, 0x62, 0x03,
    0x40, 0x04, 0xCC, 0x96, 0xA0, 0x8A, 0x21, 0x71, 0x71, 0xF7, 0x0A, 0x01, 0xC0, 0x04, 0x00, 0x00,
    0x00, 0x00, 0x00, 0x00, 0x02, 0x08, 0x00, 0x4A, 0x01, 0x36, 0x07, 0x4E, 0xFA, 0x17, 0x49, 0xB0,
    0xA3, 0x8C, 0xDB, 0xC7, 0x3D, 0x04, 0x77, 0xB7, 0x8A, 0x00, 0x2D, 0xAF, 0x63, 0x1D, 0x09, 0x81,
    0x87, 0x1C, 0xE1, 0x9D, 0xA3, 0xD7, 0xFF, 0x6C, 0xAB, 0x39, 0x97, 0x29, 0xA0, 0x17, 0xFE, 0x01,
    0x00,
];

fn base64(bytes: &[u8]) -> String {
    base64::Engine::encode(&base64::engine::general_purpose::STANDARD, bytes)
}

fn uri(text: &str) -> ImageSource {
    ImageSource::Uri { uri: text.to_string() }
}

fn no_gpu() -> CompressedImageFormats {
    CompressedImageFormats::from_bits_retain(CompressedImageFormats::NONE)
}

/// Carries out a transcode action with the Basis Universal transcoder, as
/// the plugin does, and hands the result back to the handler.
fn finish(action: TextureLoadAction, is_srgb: bool) -> TextureLoadAction {
    let TextureLoadAction::Transcode { bytes, target } = action else {
        return action;
    };
    let target = basis_transcoder::TargetFormat::from_u32(target.code()).unwrap();
    let texture = basis_transcoder::transcode_ktx2_sync(&bytes, target).map(|t| TranscodedTexture {
        info: TextureInfo { width: t.info.width, height: t.info.height, levels: t.info.levels },
        format: t.format.as_u32(),
        levels: t
            .levels
            .into_iter()
            .map(|l| LevelData { width: l.width, height: l.height, data: l.data })
            .collect(),
    });
    GltfBasisuDecoderExtensionHandler.on_transcoded(texture, is_srgb)
}

fn resolved(bytes: ImageBytes) -> Vec<u8> {
    match bytes {
        ImageBytes::Resolved { bytes } => bytes,
        other => panic!("expected resolved bytes, got {other:?}"),
    }
}

#[test]
fn decodes_base64_data_uri() {
    assert_eq!(decode_data_uri("data:application/octet-stream;base64,AAEC/w=="), Some(vec![0, 1, 2, 255]));
    assert_eq!(decode_data_uri("data:,aGk="), Some(b"hi".to_vec()));
    // Everything after the first comma is the payload.
    assert_eq!(decode_data_uri("data:x,aGk,"), None);
    assert_eq!(decode_data_uri("data:image/ktx2;base64"), None);
    assert_eq!(decode_data_uri("data:,not base64!"), None);
    assert_eq!(decode_data_uri("data:,"), Some(vec![]));
}

#[test]
fn percent_decodes_uris() {
    assert_eq!(percent_decode_uri("a%20b.ktx2"), Some("a b.ktx2".to_string()));
    assert_eq!(percent_decode_uri("%e2%82%AC"), Some("\u{20ac}".to_string()));
    assert_eq!(percent_decode_uri("100%"), Some("100%".to_string()));
    assert_eq!(percent_decode_uri("%zz%4"), Some("%zz%4".to_string()));
    assert_eq!(percent_decode_uri("%FF"), None);
}

#[test]
fn image_bytes_from_buffer_view() {
    let images = vec![ImageSource::View { buffer: 1, offset: 2, length: 3 }];
    let buffers = vec![vec![9u8], vec![0, 1, 2, 3, 4, 5]];
    let bytes = GltfBasisuDecoderExtensionHandler::image_bytes(Some(0), &images, &buffers);
    assert_eq!(resolved(bytes), vec![2, 3, 4]);
}

#[test]
fn image_bytes_unresolved_cases() {
    let images = vec![ImageSource::View { buffer: 2, offset: 0, length: 1 }, uri("%FF.ktx2")];
    let buffers = vec![vec![0u8]];
    for source in [None, Some(0), Some(1), Some(2), Some(u64::MAX)] {
        let bytes = GltfBasisuDecoderExtensionHandler::image_bytes(source, &images, &buffers);
        assert!(matches!(bytes, ImageBytes::Unresolved), "source {source:?}");
    }
}

#[test]
fn image_bytes_from_data_uri_and_external_uri() {
    let images = vec![
        uri(&format!("data:image/ktx2;base64,{}", base64(&SAMPLE))),
        uri("textures/lamp%20base.ktx2"),
        uri("data%3Aimage/ktx2%3Bbase64,aGk="),
        uri("data:image/ktx2;base64,%%%"),
    ];
    let buffers: Vec<Vec<u8>> = vec![];
    let bytes = GltfBasisuDecoderExtensionHandler::image_bytes(Some(0), &images, &buffers);
    assert_eq!(resolved(bytes), SAMPLE.to_vec());
    match GltfBasisuDecoderExtensionHandler::image_bytes(Some(1), &images, &buffers) {
        ImageBytes::External { uri } => assert_eq!(uri, "textures/lamp base.ktx2"),
        other => panic!("expected an external uri, got {other:?}"),
    }
    // The `data:` prefix is recognized after percent-decoding.
    let bytes = GltfBasisuDecoderExtensionHandler::image_bytes(Some(2), &images, &buffers);
    assert_eq!(resolved(bytes), b"hi".to_vec());
    let bytes = GltfBasisuDecoderExtensionHandler::image_bytes(Some(3), &images, &buffers);
    assert!(matches!(bytes, ImageBytes::Unresolved));
}

#[test]
fn texture_without_extension_goes_to_default_loader() {
    let handler = GltfBasisuDecoderExtensionHandler;
    let images = vec![uri("a.ktx2")];
    let buffers: Vec<Vec<u8>> = vec![];
    let action = handler.on_texture_load(None, &images, &buffers, no_gpu());
    assert!(matches!(action, TextureLoadAction::UseDefaultLoader));
}

#[test]
fn texture_with_unresolvable_source_is_reported() {
    let handler = GltfBasisuDecoderExtensionHandler;
    let images = vec![uri("a.ktx2")];
    let buffers: Vec<Vec<u8>> = vec![];
    for source in [None, Some(1)] {
        let extension = Some(BasisuExtension { source });
        match handler.on_texture_load(extension, &images, &buffers, no_gpu()) {
            TextureLoadAction::Report { error } => assert_eq!(error, TextureLoadError::UnresolvedImage),
            other => panic!("expected a report, got {other:?}"),
        }
    }
}

#[test]
fn embedded_ktx2_texture_is_transcoded_and_installed() {
    let handler = GltfBasisuDecoderExtensionHandler;
    let images = vec![ImageSource::View { buffer: 0, offset: 3, length: SAMPLE.len() }];
    let mut buffer = vec![7u8, 7, 7];
    buffer.extend_from_slice(&SAMPLE);
    let buffers = vec![buffer];
    let extension = Some(BasisuExtension { source: Some(0) });
    let action = handler.on_texture_load(extension, &images, &buffers, no_gpu());
    match &action {
        TextureLoadAction::Transcode { bytes, target } => {
            assert_eq!(bytes.as_slice(), &SAMPLE[..]);
            assert_eq!(*target, TargetFormat::Rgba32);
        }
        other => panic!("expected a transcode, got {other:?}"),
    }
    match finish(action, true) {
        TextureLoadAction::Install { image } => {
            assert_eq!((image.width, image.height, image.mip_level_count), (16, 28, 5));
            assert_eq!(image.format, TextureFormat::Rgba8UnormSrgb);
        }
        other => panic!("expected an image, got {other:?}"),
    }
}

#[test]
fn non_ktx2_image_is_reported() {
    let handler = GltfBasisuDecoderExtensionHandler;
    let images = vec![uri(&format!("data:image/png;base64,{}", base64(b"\x89PNG\r\n\x1a\n")))];
    let buffers: Vec<Vec<u8>> = vec![];
    let extension = Some(BasisuExtension { source: Some(0) });
    match handler.on_texture_load(extension, &images, &buffers, no_gpu()) {
        TextureLoadAction::Report { error } => assert_eq!(error, TextureLoadError::NotKtx2),
        other => panic!("expected a report, got {other:?}"),
    }
}

#[test]
fn external_image_is_read_then_transcoded() {
    let handler = GltfBasisuDecoderExtensionHandler;
    let images = vec![uri("lamp%20normal.ktx2")];
    let buffers: Vec<Vec<u8>> = vec![];
    let extension = Some(BasisuExtension { source: Some(0) });
    match handler.on_texture_load(extension, &images, &buffers, no_gpu()) {
        TextureLoadAction::ReadExternal { uri } => assert_eq!(uri, "lamp normal.ktx2"),
        other => panic!("expected an external read, got {other:?}"),
    }
    match finish(handler.on_image_read(Some(SAMPLE.to_vec()), no_gpu()), false) {
        TextureLoadAction::Install { image } => assert_eq!(image.format, TextureFormat::Rgba8Unorm),
        other => panic!("expected an image, got {other:?}"),
    }
    match handler.on_image_read(None, no_gpu()) {
        TextureLoadAction::Report { error } => assert_eq!(error, TextureLoadError::UnresolvedImage),
        other => panic!("expected a report, got {other:?}"),
    }
}

#[test]
fn corrupt_ktx2_is_reported_as_transcode_failure() {
    let handler = GltfBasisuDecoderExtensionHandler;
    let corrupt = SAMPLE[..40].to_vec();
    match finish(handler.on_image_read(Some(corrupt), no_gpu()), true) {
        TextureLoadAction::Report { error } => assert_eq!(
            error,
            TextureLoadError::Transcode { error: TranscodeError::TranscodeFailed }
        ),
        other => panic!("expected a report, got {other:?}"),
    }
}

#[test]
fn ktx2_is_transcoded_to_the_target_the_gpu_supports() {
    let handler = GltfBasisuDecoderExtensionHandler;
    let bc = CompressedImageFormats::from_bits_retain(CompressedImageFormats::BC);
    match handler.on_image_read(Some(SAMPLE.to_vec()), bc) {
        TextureLoadAction::Transcode { target, .. } => assert_eq!(target, TargetFormat::Bc7Rgba),
        other => panic!("expected a transcode, got {other:?}"),
    }
    match finish(handler.on_image_read(Some(SAMPLE.to_vec()), bc), true) {
        TextureLoadAction::Install { image } => {
            assert_eq!(image.format, TextureFormat::Bc7RgbaUnormSrgb)
        }
        other => panic!("expected an image, got {other:?}"),
    }
}

#[test]
fn transcoded_texture_in_an_unsupported_format_is_reported() {
    let texture = TranscodedTexture {
        info: TextureInfo { width: 4, height: 4, levels: 1 },
        format: 2,
        levels: vec![LevelData { width: 4, height: 4, data: vec![0; 8] }],
    };
    match GltfBasisuDecoderExtensionHandler.on_transcoded(Some(texture), false) {
        TextureLoadAction::Report { error } => assert_eq!(
            error,
            TextureLoadError::Transcode { error: TranscodeError::UnsupportedFormat { format: 2 } }
        ),
        other => panic!("expected a report, got {other:?}"),
    }
    match GltfBasisuDecoderExtensionHandler.on_transcoded(None, false) {
        TextureLoadAction::Report { error } => assert_eq!(
            error,
            TextureLoadError::Transcode { error: TranscodeError::TranscodeFailed }
        ),
        other => panic!("expected a report, got {other:?}"),
    }
}
