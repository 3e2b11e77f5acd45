//! The wire format as spec functions over the input bytes.
//!
//! Each function reads one production starting at byte offset `p` of `d` and
//! gives the abstract value with the offset just past it, or the failure that
//! the first malformed field causes.
use crate::bytes::FromData;
use crate::codes::{
    image_dimensions, image_type_of, layer_data_type_of, metadata_type_of, node_type_of,
    ImageType, LayerDataType, MetadataType, NodeType,
};
use crate::error::Failure;
use crate::model::{
    ContentView, HxaView, LayerDataView, LayerView, MetaValueView, MetaView, NodeView,
};
use vstd::prelude::*;
use vstd::utf8::{decode_utf8, valid_utf8};

verus! {

/// The signature "HxA\0" read as a little-endian integer.
pub const MAGIC: u32 = 0x0041_7848;

/// One scalar of type `T`.
pub open spec fn sp_scalar<T: FromData>(d: Seq<u8>, p: int) -> Result<(T, int), Failure> {
    let n = T::spec_size() as int;
    if 0 <= p && p + n <= d.len() {
        Ok((T::spec_decode(d.subrange(p, p + n)), p + n))
    } else {
        Err(Failure::UnexpectedEndOfData)
    }
}

/// The `i`-th of consecutive scalars of type `T` that start at `p`.
pub open spec fn elem_at<T: FromData>(d: Seq<u8>, p: int, i: int) -> T {
    let n = T::spec_size() as int;
    T::spec_decode(d.subrange(p + n * i, p + n * i + n))
}

/// `count` consecutive scalars of type `T`.
pub open spec fn sp_elems<T: FromData>(d: Seq<u8>, p: int, count: int) -> Result<
    (Seq<T>, int),
    Failure,
> {
    let n = T::spec_size() as int;
    if 0 <= p && p + n * count <= d.len() {
        Ok((Seq::new(count as nat, |i: int| elem_at::<T>(d, p, i)), p + n * count))
    } else {
        Err(Failure::UnexpectedEndOfData)
    }
}

/// `len` raw bytes.
pub open spec fn sp_bytes(d: Seq<u8>, p: int, len: int) -> Result<(Seq<u8>, int), Failure> {
    if 0 <= p && p + len <= d.len() {
        Ok((d.subrange(p, p + len), p + len))
    } else {
        Err(Failure::UnexpectedEndOfData)
    }
}

/// `len` bytes of UTF-8 text.
pub open spec fn sp_text(d: Seq<u8>, p: int, len: int) -> Result<(Seq<char>, int), Failure> {
    match sp_bytes(d, p, len) {
        Ok((b, q)) => if valid_utf8(b) {
            Ok((decode_utf8(b), q))
        } else {
            Err(Failure::InvalidUtf8)
        },
        Err(e) => Err(e),
    }
}

/// A name: one length byte, then that many bytes of UTF-8.
pub open spec fn sp_name(d: Seq<u8>, p: int) -> Result<(Seq<char>, int), Failure> {
    match sp_scalar::<u8>(d, p) {
        Ok((len, q)) => sp_text(d, q, len as int),
        Err(e) => Err(e),
    }
}

pub open spec fn sp_node_type(d: Seq<u8>, p: int) -> Result<(NodeType, int), Failure> {
    match sp_scalar::<u8>(d, p) {
        Ok((c, q)) => match node_type_of(c) {
            Some(t) => Ok((t, q)),
            None => Err(Failure::UnexpectedNodeType(c)),
        },
        Err(e) => Err(e),
    }
}

pub open spec fn sp_layer_data_type(d: Seq<u8>, p: int) -> Result<(LayerDataType, int), Failure> {
    match sp_scalar::<u8>(d, p) {
        Ok((c, q)) => match layer_data_type_of(c) {
            Some(t) => Ok((t, q)),
            None => Err(Failure::UnexpectedLayerDataType(c)),
        },
        Err(e) => Err(e),
    }
}

pub open spec fn sp_image_type(d: Seq<u8>, p: int) -> Result<(ImageType, int), Failure> {
    match sp_scalar::<u8>(d, p) {
        Ok((c, q)) => match image_type_of(c) {
            Some(t) => Ok((t, q)),
            None => Err(Failure::UnexpectedImageType(c)),
        },
        Err(e) => Err(e),
    }
}

pub open spec fn sp_metadata_type(d: Seq<u8>, p: int) -> Result<(MetadataType, int), Failure> {
    match sp_scalar::<u8>(d, p) {
        Ok((c, q)) => match metadata_type_of(c) {
            Some(t) => Ok((t, q)),
            None => Err(Failure::UnexpectedMetadataType(c)),
        },
        Err(e) => Err(e),
    }
}

/// The payload of a metadata entry of kind `t` whose length field is `len`.
pub open spec fn sp_meta_value(d: Seq<u8>, p: int, t: MetadataType, len: int) -> Result<
    (MetaValueView, int),
    Failure,
>
    decreases d.len() - p, 2int, 0int,
{
    match t {
        MetadataType::Int64 => match sp_elems::<i64>(d, p, len) {
            Ok((v, q)) => Ok((MetaValueView::Int64(v), q)),
            Err(e) => Err(e),
        },
        MetadataType::Double => match sp_elems::<u64>(d, p, len) {
            Ok((v, q)) => Ok((MetaValueView::Double(v), q)),
            Err(e) => Err(e),
        },
        MetadataType::Node => match sp_elems::<u32>(d, p, len) {
            Ok((v, q)) => Ok((MetaValueView::Node(v), q)),
            Err(e) => Err(e),
        },
        MetadataType::Text => match sp_text(d, p, len) {
            Ok((s, q)) => Ok((MetaValueView::Text(s), q)),
            Err(e) => Err(e),
        },
        MetadataType::Binary => match sp_bytes(d, p, len) {
            Ok((b, q)) => Ok((MetaValueView::Bin(b), q)),
            Err(e) => Err(e),
        },
        MetadataType::Meta => match sp_metas(d, p, len) {
            Ok((v, q)) => Ok((MetaValueView::Meta(v), q)),
            Err(e) => Err(e),
        },
    }
}

/// A metadata entry: name, kind code, length field, payload.
pub open spec fn sp_meta(d: Seq<u8>, p: int) -> Result<(MetaView, int), Failure>
    decreases d.len() - p, 0int, 0int,
{
    match sp_name(d, p) {
        Err(e) => Err(e),
        Ok((name, q1)) => match sp_metadata_type(d, q1) {
            Err(e) => Err(e),
            Ok((t, q2)) => match sp_scalar::<u32>(d, q2) {
                Err(e) => Err(e),
                Ok((len, q3)) => if p < q3 <= d.len() {
                    match sp_meta_value(d, q3, t, len as int) {
                        Ok((value, q)) => Ok((MetaView { name, type_: t, value }, q)),
                        Err(e) => Err(e),
                    }
                } else {
                    Err(Failure::Internal)
                },
            },
        },
    }
}

/// `count` consecutive metadata entries.
pub open spec fn sp_metas(d: Seq<u8>, p: int, count: int) -> Result<(Seq<MetaView>, int), Failure>
    decreases d.len() - p, 1int, count,
{
    if count <= 0 {
        Ok((Seq::empty(), p))
    } else {
        match sp_meta(d, p) {
            Err(e) => Err(e),
            Ok((m, q)) => if p < q <= d.len() {
                match sp_metas(d, q, count - 1) {
                    Ok((ms, r)) => Ok((seq![m].add(ms), r)),
                    Err(e) => Err(e),
                }
            } else {
                Err(Failure::Internal)
            },
        }
    }
}

/// A layer of a stack whose element count is `length`.
pub open spec fn sp_layer(d: Seq<u8>, p: int, length: int) -> Result<(LayerView, int), Failure> {
    match sp_name(d, p) {
        Err(e) => Err(e),
        Ok((name, q1)) => match sp_scalar::<u8>(d, q1) {
            Err(e) => Err(e),
            Ok((cc, q2)) => match sp_layer_data_type(d, q2) {
                Err(e) => Err(e),
                Ok((t, q3)) => {
                    let count = cc as int * length;
                    let data = match t {
                        LayerDataType::Uint8 => match sp_bytes(d, q3, count) {
                            Ok((v, q)) => Ok((LayerDataView::Uint8(v), q)),
                            Err(e) => Err(e),
                        },
                        LayerDataType::Int32 => match sp_elems::<i32>(d, q3, count) {
                            Ok((v, q)) => Ok((LayerDataView::Int32(v), q)),
                            Err(e) => Err(e),
                        },
                        LayerDataType::Float => match sp_elems::<u32>(d, q3, count) {
                            Ok((v, q)) => Ok((LayerDataView::Float(v), q)),
                            Err(e) => Err(e),
                        },
                        LayerDataType::Double => match sp_elems::<u64>(d, q3, count) {
                            Ok((v, q)) => Ok((LayerDataView::Double(v), q)),
                            Err(e) => Err(e),
                        },
                    };
                    match data {
                        Ok((data, q)) => Ok(
                            (LayerView { name, component_count: cc, type_: t, data }, q),
                        ),
                        Err(e) => Err(e),
                    }
                },
            },
        },
    }
}

/// `count` consecutive layers of a stack whose element count is `length`.
pub open spec fn sp_layers(d: Seq<u8>, p: int, length: int, count: int) -> Result<
    (Seq<LayerView>, int),
    Failure,
>
    decreases count,
{
    if count <= 0 {
        Ok((Seq::empty(), p))
    } else {
        match sp_layer(d, p, length) {
            Err(e) => Err(e),
            Ok((l, q)) => match sp_layers(d, q, length, count - 1) {
                Ok((ls, r)) => Ok((seq![l].add(ls), r)),
                Err(e) => Err(e),
            },
        }
    }
}

/// A layer stack: its layer count, then the layers.
pub open spec fn sp_stack(d: Seq<u8>, p: int, length: int) -> Result<
    (Seq<LayerView>, int),
    Failure,
> {
    match sp_scalar::<u32>(d, p) {
        Ok((count, q)) => sp_layers(d, q, length, count as int),
        Err(e) => Err(e),
    }
}

/// A count field, then a layer stack of that many elements.
pub open spec fn sp_counted_stack(d: Seq<u8>, p: int) -> Result<(Seq<LayerView>, int), Failure> {
    match sp_scalar::<u32>(d, p) {
        Ok((count, q)) => sp_stack(d, q, count as int),
        Err(e) => Err(e),
    }
}

/// The corner count, the corner stack and, for versions above 2, the edge
/// stack of the same length; below that the edge stack is empty.
pub open spec fn sp_corners_edges(d: Seq<u8>, p: int, version: u8) -> Result<
    ((Seq<LayerView>, Seq<LayerView>), int),
    Failure,
> {
    match sp_scalar::<u32>(d, p) {
        Err(e) => Err(e),
        Ok((ec, q1)) => match sp_stack(d, q1, ec as int) {
            Err(e) => Err(e),
            Ok((corner_stack, q2)) => if version > 2 {
                match sp_stack(d, q2, ec as int) {
                    Ok((edge_stack, q)) => Ok(((corner_stack, edge_stack), q)),
                    Err(e) => Err(e),
                }
            } else {
                Ok(((corner_stack, Seq::empty()), q2))
            },
        },
    }
}

/// The body of a geometry node.
pub open spec fn sp_geometry(d: Seq<u8>, p: int, version: u8) -> Result<
    (ContentView, int),
    Failure,
> {
    match sp_counted_stack(d, p) {
        Err(e) => Err(e),
        Ok((vertex_stack, q1)) => match sp_corners_edges(d, q1, version) {
            Err(e) => Err(e),
            Ok(((corner_stack, edge_stack), q2)) => match sp_counted_stack(d, q2) {
                Err(e) => Err(e),
                Ok((face_stack, q)) => Ok(
                    (ContentView::Geometry { vertex_stack, corner_stack, edge_stack, face_stack }, q),
                ),
            },
        },
    }
}

/// A resolution field that the image kind stores only when it has more than
/// `k` dimensions; 1 otherwise.
pub open spec fn sp_resolution(d: Seq<u8>, p: int, t: ImageType, k: int) -> Result<
    (u32, int),
    Failure,
> {
    if image_dimensions(t) > k {
        sp_scalar::<u32>(d, p)
    } else {
        Ok((1, p))
    }
}

/// How many elements the layers of an image hold.
pub open spec fn voxel_count(t: ImageType, res: Seq<u32>) -> int {
    res[0] as int * res[1] as int * res[2] as int * (if t == ImageType::ImageCube {
        6int
    } else {
        1int
    })
}

/// The body of an image node.
pub open spec fn sp_image(d: Seq<u8>, p: int) -> Result<(ContentView, int), Failure> {
    match sp_image_type(d, p) {
        Err(e) => Err(e),
        Ok((t, q1)) => match sp_resolution(d, q1, t, 0) {
            Err(e) => Err(e),
            Ok((r0, q2)) => match sp_resolution(d, q2, t, 1) {
                Err(e) => Err(e),
                Ok((r1, q3)) => match sp_resolution(d, q3, t, 2) {
                    Err(e) => Err(e),
                    Ok((r2, q4)) => {
                        let resolution = seq![r0, r1, r2];
                        match sp_stack(d, q4, voxel_count(t, resolution)) {
                            Err(e) => Err(e),
                            Ok((image_stack, q)) => Ok(
                                (ContentView::Image { type_: t, resolution, image_stack }, q),
                            ),
                        }
                    },
                },
            },
        },
    }
}

/// A node: kind code, metadata count, metadata entries, kind-dependent body.
pub open spec fn sp_node(d: Seq<u8>, p: int, version: u8) -> Result<(NodeView, int), Failure> {
    match sp_node_type(d, p) {
        Err(e) => Err(e),
        Ok((t, q1)) => match sp_scalar::<u32>(d, q1) {
            Err(e) => Err(e),
            Ok((mc, q2)) => match sp_metas(d, q2, mc as int) {
                Err(e) => Err(e),
                Ok((metadata, q3)) => {
                    let content = match t {
                        NodeType::Geometry => match sp_geometry(d, q3, version) {
                            Ok((c, q)) => Ok((Some(c), q)),
                            Err(e) => Err(e),
                        },
                        NodeType::Image => match sp_image(d, q3) {
                            Ok((c, q)) => Ok((Some(c), q)),
                            Err(e) => Err(e),
                        },
                        NodeType::Meta => Ok((None, q3)),
                    };
                    match content {
                        Ok((content, q)) => Ok((NodeView { type_: t, metadata, content }, q)),
                        Err(e) => Err(e),
                    }
                },
            },
        },
    }
}

/// `count` consecutive nodes.
pub open spec fn sp_nodes(d: Seq<u8>, p: int, version: u8, count: int) -> Result<
    (Seq<NodeView>, int),
    Failure,
>
    decreases count,
{
    if count <= 0 {
        Ok((Seq::empty(), p))
    } else {
        match sp_node(d, p, version) {
            Err(e) => Err(e),
            Ok((n, q)) => match sp_nodes(d, q, version, count - 1) {
                Ok((ns, r)) => Ok((seq![n].add(ns), r)),
                Err(e) => Err(e),
            },
        }
    }
}

/// A whole document: signature, version, node count, nodes, and nothing after.
pub open spec fn sp_hxa(d: Seq<u8>) -> Result<HxaView, Failure> {
    match sp_scalar::<u32>(d, 0) {
        Err(e) => Err(e),
        Ok((magic, q1)) => if magic != MAGIC {
            Err(Failure::InvalidMagicNumber(magic))
        } else {
            match sp_scalar::<u32>(d, q1) {
                Err(e) => Err(e),
                Ok((version, q2)) => match sp_scalar::<u32>(d, q2) {
                    Err(e) => Err(e),
                    Ok((count, q3)) => {
                        let version = version as u8;
                        match sp_nodes(d, q3, version, count as int) {
                            Err(e) => Err(e),
                            Ok((nodes, q)) => if q < d.len() {
                                Err(Failure::TrailingData((d.len() - q) as usize))
                            } else {
                                Ok(HxaView { version, nodes })
                            },
                        }
                    },
                },
            }
        },
    }
}

} // verus!
