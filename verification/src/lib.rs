//! Integer-valued core of a small path tracer: colour-byte conversion and PPM
//! encoding, decoded-image lookup, checker parity, the Perlin lattice hash,
//! camera builder decisions, the progressive-render accumulator, the
//! trace-visualisation path bookkeeping and its wire format, and validation of
//! custom JSON scene descriptions.

pub mod colour;
pub mod camera;
pub mod rtw_image;
pub mod texture;
pub mod perlin;
pub mod scene;
pub mod trace;
pub mod scene_json;
pub mod sample;
pub mod bundle;
