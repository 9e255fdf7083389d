# bevy_gltf_basisu

`KHR_texture_basisu` support for bevy's glTF loader, with its decisions
verified in Verus.

- `src/` is the verified library:
  - `ktx2`: recognizing KTX2 files by their identifier;
  - `formats`: the GPU's compressed-format support, the Basis Universal
    transcode target chosen for it (BC7, then ETC2, then ASTC 4x4, else
    RGBA8) and the GPU texture format of the transcoded data;
  - `transcode`: turning what the Basis Universal transcoder returns into an
    image, every mip level packed into one buffer in mip-major order;
  - `uri`: percent-decoding image URIs and decoding base64 `data:` URIs;
  - `handler`: per texture, whether it is claimed, where its image bytes
    come from (buffer view, `data:` URI, or an external file), which target
    its KTX2 data is transcoded to, and what is installed or reported.
- `app/` is the bevy plugin: it reads the glTF document, performs the
  asset reads and the (on WebAssembly, worker-based) transcodes the handler
  asks for, builds bevy images and logs errors. It works on native and
  WebAssembly through one API.
- `tests/` exercises the library, including a real ETC1S KTX2 texture.
