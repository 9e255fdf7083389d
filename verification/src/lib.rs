//! KHR_texture_basisu support for glTF loading: the decisions and data
//! shaping behind transcoding KTX2 Basis Universal textures.

pub mod formats;
pub mod ktx2;
pub mod transcode;
pub mod uri;
pub mod handler;

pub use ktx2::is_ktx2;
pub use handler::GltfBasisuDecoderPlugin;
