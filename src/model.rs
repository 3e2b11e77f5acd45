//! The decoded document tree, and its abstract form.
//!
//! Every payload owns a copy of its bytes: a decoded document does not borrow
//! the input buffer. Floating-point payloads are kept as their IEEE-754 bit
//! patterns (`f32::from_bits` / `f64::from_bits` recover the numbers).
use crate::codes::{ImageType, LayerDataType, MetadataType, NodeType};
use vstd::prelude::*;

verus! {

/// A decoded document.
#[derive(Debug)]
pub struct Hxa {
    /// The version field, narrowed to its low eight bits.
    pub version: u8,
    pub nodes: Vec<Node>,
}

#[derive(Debug)]
pub struct Node {
    pub type_: NodeType,
    pub metadata: Vec<Meta>,
    /// Present exactly for geometry and image nodes.
    pub content: Option<NodeContent>,
}

#[derive(Debug)]
pub enum NodeContent {
    Geometry(NodeGeometry),
    Image(NodeImage),
}

#[derive(Debug)]
pub struct NodeGeometry {
    pub vertex_stack: LayerStack,
    pub corner_stack: LayerStack,
    /// Empty for documents of version 2 and below.
    pub edge_stack: LayerStack,
    pub face_stack: LayerStack,
}

#[derive(Debug)]
pub struct NodeImage {
    pub type_: ImageType,
    /// Fields that the image kind does not store are 1.
    pub resolution: [u32; 3],
    pub image_stack: LayerStack,
}

/// Layers that share one element count.
#[derive(Debug)]
pub struct LayerStack {
    pub layers: Vec<Layer>,
}

#[derive(Debug)]
pub struct Layer {
    pub name: String,
    pub component_count: u8,
    pub type_: LayerDataType,
    pub data: LayerData,
}

/// A layer's elements; `Float` and `Double` hold IEEE-754 bit patterns.
#[derive(Debug)]
pub enum LayerData {
    Uint8(Vec<u8>),
    Int32(Vec<i32>),
    Float(Vec<u32>),
    Double(Vec<u64>),
}

#[derive(Debug)]
pub struct Meta {
    pub name: String,
    pub type_: MetadataType,
    pub value: MetaValue,
}

/// A metadata value; `Double` holds IEEE-754 bit patterns, `Node` node indices.
#[derive(Debug)]
pub enum MetaValue {
    Int64(Vec<i64>),
    Double(Vec<u64>),
    Node(Vec<u32>),
    Text(String),
    Bin(Vec<u8>),
    Meta(Vec<Meta>),
}

pub enum LayerDataView {
    Uint8(Seq<u8>),
    Int32(Seq<i32>),
    Float(Seq<u32>),
    Double(Seq<u64>),
}

pub struct LayerView {
    pub name: Seq<char>,
    pub component_count: u8,
    pub type_: LayerDataType,
    pub data: LayerDataView,
}

pub enum MetaValueView {
    Int64(Seq<i64>),
    Double(Seq<u64>),
    Node(Seq<u32>),
    Text(Seq<char>),
    Bin(Seq<u8>),
    Meta(Seq<MetaView>),
}

pub struct MetaView {
    pub name: Seq<char>,
    pub type_: MetadataType,
    pub value: MetaValueView,
}

pub enum ContentView {
    Geometry {
        vertex_stack: Seq<LayerView>,
        corner_stack: Seq<LayerView>,
        edge_stack: Seq<LayerView>,
        face_stack: Seq<LayerView>,
    },
    Image { type_: ImageType, resolution: Seq<u32>, image_stack: Seq<LayerView> },
}

pub struct NodeView {
    pub type_: NodeType,
    pub metadata: Seq<MetaView>,
    pub content: Option<ContentView>,
}

pub struct HxaView {
    pub version: u8,
    pub nodes: Seq<NodeView>,
}

impl LayerDataView {
    pub open spec fn len(self) -> nat {
        match self {
            LayerDataView::Uint8(v) => v.len(),
            LayerDataView::Int32(v) => v.len(),
            LayerDataView::Float(v) => v.len(),
            LayerDataView::Double(v) => v.len(),
        }
    }
}

impl View for LayerData {
    type V = LayerDataView;

    open spec fn view(&self) -> LayerDataView {
        match self {
            LayerData::Uint8(v) => LayerDataView::Uint8(v@),
            LayerData::Int32(v) => LayerDataView::Int32(v@),
            LayerData::Float(v) => LayerDataView::Float(v@),
            LayerData::Double(v) => LayerDataView::Double(v@),
        }
    }
}

impl View for Layer {
    type V = LayerView;

    open spec fn view(&self) -> LayerView {
        LayerView {
            name: self.name@,
            component_count: self.component_count,
            type_: self.type_,
            data: self.data@,
        }
    }
}

pub open spec fn layers_view(s: Seq<Layer>) -> Seq<LayerView> {
    s.map_values(|l: Layer| l@)
}

impl View for LayerStack {
    type V = Seq<LayerView>;

    open spec fn view(&self) -> Seq<LayerView> {
        layers_view(self.layers@)
    }
}

pub open spec fn meta_view(m: Meta) -> MetaView
    decreases m,
{
    MetaView {
        name: m.name@,
        type_: m.type_,
        value: match m.value {
            MetaValue::Int64(v) => MetaValueView::Int64(v@),
            MetaValue::Double(v) => MetaValueView::Double(v@),
            MetaValue::Node(v) => MetaValueView::Node(v@),
            MetaValue::Text(t) => MetaValueView::Text(t@),
            MetaValue::Bin(v) => MetaValueView::Bin(v@),
            MetaValue::Meta(v) => MetaValueView::Meta(metas_view(v@)),
        },
    }
}

pub open spec fn metas_view(s: Seq<Meta>) -> Seq<MetaView>
    decreases s,
{
    if s.len() == 0 {
        Seq::empty()
    } else {
        metas_view(s.drop_last()).push(meta_view(s.last()))
    }
}

impl View for Meta {
    type V = MetaView;

    open spec fn view(&self) -> MetaView {
        meta_view(*self)
    }
}

impl View for NodeContent {
    type V = ContentView;

    open spec fn view(&self) -> ContentView {
        match self {
            NodeContent::Geometry(g) => ContentView::Geometry {
                vertex_stack: g.vertex_stack@,
                corner_stack: g.corner_stack@,
                edge_stack: g.edge_stack@,
                face_stack: g.face_stack@,
            },
            NodeContent::Image(i) => ContentView::Image {
                type_: i.type_,
                resolution: i.resolution@,
                image_stack: i.image_stack@,
            },
        }
    }
}

impl View for Node {
    type V = NodeView;

    open spec fn view(&self) -> NodeView {
        NodeView {
            type_: self.type_,
            metadata: metas_view(self.metadata@),
            content: match self.content {
                Some(c) => Some(c@),
                None => None,
            },
        }
    }
}

pub open spec fn nodes_view(s: Seq<Node>) -> Seq<NodeView> {
    s.map_values(|n: Node| n@)
}

impl View for Hxa {
    type V = HxaView;

    open spec fn view(&self) -> HxaView {
        HxaView { version: self.version, nodes: nodes_view(self.nodes@) }
    }
}

} // verus!
