//! The closed code tables of the wire format.
use vstd::prelude::*;

verus! {

/// The kind of a node.
#[derive(Clone, Copy, Debug, PartialEq, Eq, PartialOrd, Ord, Structural)]
pub enum NodeType {
    Meta,
    Geometry,
    Image,
}

/// The element type of a layer's data.
#[derive(Clone, Copy, Debug, PartialEq, Eq, PartialOrd, Ord, Structural)]
pub enum LayerDataType {
    Uint8,
    Int32,
    Float,
    Double,
}

/// The kind of an image node.
#[derive(Clone, Copy, Debug, PartialEq, Eq, PartialOrd, Ord, Structural)]
pub enum ImageType {
    ImageCube,
    Image1D,
    Image2D,
    Image3D,
}

/// The kind of a metadata entry's value.
#[derive(Clone, Copy, Debug, PartialEq, Eq, PartialOrd, Ord, Structural)]
pub enum MetadataType {
    Int64,
    Double,
    Node,
    Text,
    Binary,
    Meta,
}

/// The node kind a code stands for, if any.
pub open spec fn node_type_of(code: u8) -> Option<NodeType> {
    if code == 0 {
        Some(NodeType::Meta)
    } else if code == 1 {
        Some(NodeType::Geometry)
    } else if code == 2 {
        Some(NodeType::Image)
    } else {
        None
    }
}

/// The element type a code stands for, if any.
pub open spec fn layer_data_type_of(code: u8) -> Option<LayerDataType> {
    if code == 0 {
        Some(LayerDataType::Uint8)
    } else if code == 1 {
        Some(LayerDataType::Int32)
    } else if code == 2 {
        Some(LayerDataType::Float)
    } else if code == 3 {
        Some(LayerDataType::Double)
    } else {
        None
    }
}

/// The image kind a code stands for, if any.
pub open spec fn image_type_of(code: u8) -> Option<ImageType> {
    if code == 0 {
        Some(ImageType::ImageCube)
    } else if code == 1 {
        Some(ImageType::Image1D)
    } else if code == 2 {
        Some(ImageType::Image2D)
    } else if code == 3 {
        Some(ImageType::Image3D)
    } else {
        None
    }
}

/// The metadata kind a code stands for, if any.
pub open spec fn metadata_type_of(code: u8) -> Option<MetadataType> {
    if code == 0 {
        Some(MetadataType::Int64)
    } else if code == 1 {
        Some(MetadataType::Double)
    } else if code == 2 {
        Some(MetadataType::Node)
    } else if code == 3 {
        Some(MetadataType::Text)
    } else if code == 4 {
        Some(MetadataType::Binary)
    } else if code == 5 {
        Some(MetadataType::Meta)
    } else {
        None
    }
}

impl NodeType {
    /// Maps a wire code to its node kind.
    pub fn from_code(code: u8) -> (r: Option<NodeType>)
        ensures
            r == node_type_of(code),
    {
        match code {
            0 => Some(NodeType::Meta),
            1 => Some(NodeType::Geometry),
            2 => Some(NodeType::Image),
            _ => None,
        }
    }
}

impl LayerDataType {
    /// Maps a wire code to its element type.
    pub fn from_code(code: u8) -> (r: Option<LayerDataType>)
        ensures
            r == layer_data_type_of(code),
    {
        match code {
            0 => Some(LayerDataType::Uint8),
            1 => Some(LayerDataType::Int32),
            2 => Some(LayerDataType::Float),
            3 => Some(LayerDataType::Double),
            _ => None,
        }
    }
}

/// How many resolution fields an image of this kind stores.
pub open spec fn image_dimensions(t: ImageType) -> int {
    match t {
        ImageType::ImageCube => 2,
        ImageType::Image1D => 1,
        ImageType::Image2D => 2,
        ImageType::Image3D => 3,
    }
}

impl ImageType {
    /// Maps a wire code to its image kind.
    pub fn from_code(code: u8) -> (r: Option<ImageType>)
        ensures
            r == image_type_of(code),
    {
        match code {
            0 => Some(ImageType::ImageCube),
            1 => Some(ImageType::Image1D),
            2 => Some(ImageType::Image2D),
            3 => Some(ImageType::Image3D),
            _ => None,
        }
    }

    /// How many resolution fields an image of this kind stores.
    pub fn dimensions(&self) -> (r: u8)
        ensures
            r == image_dimensions(*self),
    {
        match self {
            ImageType::ImageCube => 2,
            ImageType::Image1D => 1,
            ImageType::Image2D => 2,
            ImageType::Image3D => 3,
        }
    }
}

impl MetadataType {
    /// Maps a wire code to its metadata kind.
    pub fn from_code(code: u8) -> (r: Option<MetadataType>)
        ensures
            r == metadata_type_of(code),
    {
        match code {
            0 => Some(MetadataType::Int64),
            1 => Some(MetadataType::Double),
            2 => Some(MetadataType::Node),
            3 => Some(MetadataType::Text),
            4 => Some(MetadataType::Binary),
            5 => Some(MetadataType::Meta),
            _ => None,
        }
    }
}

} // verus!
