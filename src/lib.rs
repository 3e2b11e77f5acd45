//! Decoder for the HxA binary 3D-asset container format.
//!
//! `Hxa::parse` turns a buffer into a document tree. Its contract says the
//! result is exactly what the spec functions of `grammar` give for the same
//! bytes; `laws` states properties of that grammar.
use vstd::prelude::*;

pub mod bytes;
pub mod codes;
pub mod convert;
pub mod cursor;
pub mod error;
pub mod grammar;
pub mod laws;
pub mod model;
pub mod parse;
pub mod prefix;
mod text;

pub use codes::{ImageType, LayerDataType, MetadataType, NodeType};
pub use error::{HxaError, HxaResult, InternalError, InternalErrorKind};
pub use model::{
    Hxa, Layer, LayerData, LayerStack, Meta, MetaValue, Node, NodeContent, NodeGeometry,
    NodeImage,
};

verus! {

// Hard conventions: what consumers may rely on, not checked by the parser.
pub const HC_BASE_VERTEX_LAYER_NAME: &'static str = "vertex";

pub const HC_BASE_VERTEX_LAYER_ID: usize = 0;

pub const HC_BASE_VERTEX_LAYER_COMPONENTS: u8 = 3;

pub const HC_BASE_CORNER_LAYER_NAME: &'static str = "reference";

pub const HC_BASE_CORNER_LAYER_ID: usize = 0;

pub const HC_BASE_CORNER_LAYER_COMPONENTS: u8 = 1;

pub const HC_BASE_CORNER_LAYER_TYPE: LayerDataType = LayerDataType::Int32;

pub const HC_EDGE_NEIGHBOUR_LAYER_NAME: &'static str = "neighbour";

pub const HC_EDGE_NEIGHBOUR_LAYER_TYPE: LayerDataType = LayerDataType::Int32;

// Soft conventions: layer names that consumers may look up.
pub const SC_LAYER_SEQUENCE0: &'static str = "sequence";

pub const SC_LAYER_NAME_UV0: &'static str = "uv";

pub const SC_LAYER_NORMALS: &'static str = "normal";

pub const SC_LAYER_BINORMAL: &'static str = "binormal";

pub const SC_LAYER_TANGENT: &'static str = "tangent";

pub const SC_LAYER_COLOR: &'static str = "color";

pub const SC_LAYER_CREASES: &'static str = "creases";

pub const SC_LAYER_SELECTION: &'static str = "select";

pub const SC_LAYER_SKIN_WEIGHT: &'static str = "skining_weight";

pub const SC_LAYER_SKIN_REFERENCE: &'static str = "skining_reference";

pub const SC_LAYER_BLENDSHAPE: &'static str = "blendshape";

pub const SC_LAYER_ADD_BLENDSHAPE: &'static str = "addblendshape";

pub const SC_LAYER_MATERIAL_ID: &'static str = "material";

// Image layers.
pub const SC_ALBEDO: &'static str = "albedo";

pub const SC_LIGHT: &'static str = "light";

pub const SC_DISPLACEMENT: &'static str = "displacement";

pub const SC_DISTORTION: &'static str = "distortion";

pub const SC_AMBIENT_OCCLUSION: &'static str = "ambient_occlusion";

// Tag layers.
pub const SC_NAME: &'static str = "name";

pub const SC_TRANSFORM: &'static str = "transform";

} // verus!
