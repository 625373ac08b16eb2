//! Depth-relief generation: turns an RGB raster into quantized depth
//! layers and a quad mesh in the plain-text vertex/face format.

pub mod error;
pub mod mesh;
pub mod obj;
pub mod quantize;
pub mod raster;
pub mod text;

pub use error::ExportError;
pub use mesh::{build_mesh, Face, Mesh, Vertex, BASE_HEIGHT_MICROS, PLANAR_SCALE_MICROS};
pub use obj::{export_obj, render_obj, MATERIAL_HEADER};
pub use quantize::{quantize, quantize_valid, DepthSample, MAX_LAYERS, MIN_LAYERS};
pub use raster::{Raster, Rgb};
