//! The loaders: each reads one production of the wire format from a cursor,
//! and its result is the one that `grammar` gives for the same bytes.
use crate::bytes::FromData;
use crate::codes::{ImageType, LayerDataType, MetadataType, NodeType};
use crate::cursor::Cursor;
use crate::error::{Failure, HxaError, HxaResult};
use crate::grammar::{
    sp_bytes, sp_elems, elem_at, sp_hxa, sp_layer, sp_layers, sp_meta, sp_metas, sp_name,
    sp_node, sp_nodes, sp_stack, sp_text, sp_geometry, sp_image, MAGIC,
};
use crate::model::{
    layers_view, LayerView, metas_view, nodes_view, Hxa, Layer, LayerData, LayerStack, Meta,
    MetaValue, HxaView, Node, NodeContent, NodeGeometry, NodeImage,
};
use crate::text::utf8_to_string;
use vstd::prelude::*;
use vstd::slice::slice_to_vec;

verus! {

/// Reads `count` consecutive little-endian scalars, decoding each from its
/// own bytes, so the result does not depend on the host's byte order.
pub fn load_slice<T: FromData>(cursor: &mut Cursor, count: u128) -> (r: HxaResult<Vec<T>>)
    requires
        old(cursor).wf(),
    ensures
        final(cursor).wf(),
        final(cursor).input() == old(cursor).input(),
        old(cursor).pos() <= final(cursor).pos(),
        match sp_elems::<T>(old(cursor).input(), old(cursor).pos(), count as int) {
            Ok((v, q)) => r is Ok && r->Ok_0@ == v && final(cursor).pos() == q,
            Err(e) => r is Err && r->Err_0.failure() == e,
        },
{
    let ghost d = cursor.input();
    let ghost start = cursor.pos();
    let n = T::size();
    let rem = cursor.remaining();
    let total = match (n as u128).checked_mul(count) {
        Some(t) => t,
        None => return Err(HxaError::UnexpectedEndOfData),
    };
    if total > rem as u128 {
        return Err(HxaError::UnexpectedEndOfData);
    }
    assert(count <= total) by (nonlinear_arith)
        requires
            total == n * count,
            n >= 1,
    ;
    let cnt = count as usize;
    let mut v: Vec<T> = Vec::new();
    let mut i: usize = 0;
    while i < cnt
        invariant
            cursor.wf(),
            cursor.input() == d,
            0 <= start,
            start + n * cnt <= d.len(),
            n == T::spec_size(),
            1 <= n <= 8,
            cnt == count,
            0 <= i <= cnt,
            cursor.pos() == start + n * i,
            v@.len() == i,
            forall|j: int| 0 <= j < i ==> v@[j] == elem_at::<T>(d, start, j),
        decreases cnt - i,
    {
        proof {
            assert(n * i + n == n * (i + 1)) by (nonlinear_arith);
            assert(n * (i + 1) <= n * cnt) by (nonlinear_arith)
                requires
                    i + 1 <= cnt,
                    n >= 1,
            ;
        }
        let b = match cursor.take_bytes(n) {
            Ok(b) => b,
            Err(e) => return Err(e),
        };
        let x = T::decode(b);
        v.push(x);
        i = i + 1;
    }
    assert(v@ =~= Seq::new(count as nat, |j: int| elem_at::<T>(d, start, j)));
    Ok(v)
}

/// Copies the next `len` raw bytes.
pub fn load_bytes(cursor: &mut Cursor, len: usize) -> (r: HxaResult<Vec<u8>>)
    requires
        old(cursor).wf(),
    ensures
        final(cursor).wf(),
        final(cursor).input() == old(cursor).input(),
        old(cursor).pos() <= final(cursor).pos(),
        match sp_bytes(old(cursor).input(), old(cursor).pos(), len as int) {
            Ok((v, q)) => r is Ok && r->Ok_0@ == v && final(cursor).pos() == q,
            Err(e) => r is Err && r->Err_0.failure() == e,
        },
{
    let b = cursor.take_bytes(len)?;
    Ok(slice_to_vec(b))
}

/// Reads the next `len` bytes as UTF-8 text.
pub fn load_text(cursor: &mut Cursor, len: usize) -> (r: HxaResult<String>)
    requires
        old(cursor).wf(),
    ensures
        final(cursor).wf(),
        final(cursor).input() == old(cursor).input(),
        old(cursor).pos() <= final(cursor).pos(),
        match sp_text(old(cursor).input(), old(cursor).pos(), len as int) {
            Ok((s, q)) => r is Ok && r->Ok_0@ == s && final(cursor).pos() == q,
            Err(e) => r is Err && r->Err_0.failure() == e,
        },
{
    let b = cursor.take_bytes(len)?;
    match utf8_to_string(b) {
        Ok(s) => Ok(s),
        Err(e) => Err(HxaError::InvalidUtf8(e)),
    }
}

/// Reads a name: a length byte, then that many bytes of UTF-8.
pub fn load_name(cursor: &mut Cursor) -> (r: HxaResult<String>)
    requires
        old(cursor).wf(),
    ensures
        final(cursor).wf(),
        final(cursor).input() == old(cursor).input(),
        old(cursor).pos() <= final(cursor).pos(),
        match sp_name(old(cursor).input(), old(cursor).pos()) {
            Ok((s, q)) => r is Ok && r->Ok_0@ == s && final(cursor).pos() == q,
            Err(e) => r is Err && r->Err_0.failure() == e,
        },
{
    let len = cursor.read::<u8>()?;
    load_text(cursor, len as usize)
}

impl Meta {
    /// Reads one metadata entry, and any entries nested in it.
    pub fn new(cursor: &mut Cursor) -> (r: HxaResult<Meta>)
        requires
            old(cursor).wf(),
        ensures
            final(cursor).wf(),
            final(cursor).input() == old(cursor).input(),
            old(cursor).pos() <= final(cursor).pos(),
            r is Ok ==> old(cursor).pos() < final(cursor).pos(),
            match sp_meta(old(cursor).input(), old(cursor).pos()) {
                Ok((m, q)) => r is Ok && r->Ok_0@ == m && final(cursor).pos() == q,
                Err(e) => r is Err && r->Err_0.failure() == e,
            },
        decreases old(cursor).input().len() - old(cursor).pos(), 0int, 0int,
    {
        let name = load_name(cursor)?;
        let code = cursor.read::<u8>()?;
        let type_ = match MetadataType::from_code(code) {
            Some(t) => t,
            None => return Err(HxaError::UnexpectedMetadataType(code)),
        };
        let len = cursor.read::<u32>()?;
        let value = match type_ {
            MetadataType::Int64 => MetaValue::Int64(load_slice(cursor, len as u128)?),
            MetadataType::Double => MetaValue::Double(load_slice(cursor, len as u128)?),
            MetadataType::Node => MetaValue::Node(load_slice(cursor, len as u128)?),
            MetadataType::Text => MetaValue::Text(load_text(cursor, len as usize)?),
            MetadataType::Binary => MetaValue::Bin(load_bytes(cursor, len as usize)?),
            MetadataType::Meta => MetaValue::Meta(Meta::load(cursor, len)?),
        };
        Ok(Meta { name, type_, value })
    }

    /// Reads `count` consecutive metadata entries.
    pub fn load(cursor: &mut Cursor, count: u32) -> (r: HxaResult<Vec<Meta>>)
        requires
            old(cursor).wf(),
        ensures
            final(cursor).wf(),
            final(cursor).input() == old(cursor).input(),
            old(cursor).pos() <= final(cursor).pos(),
            match sp_metas(old(cursor).input(), old(cursor).pos(), count as int) {
                Ok((ms, q)) => r is Ok && metas_view(r->Ok_0@) == ms && final(cursor).pos() == q,
                Err(e) => r is Err && r->Err_0.failure() == e,
            },
        decreases old(cursor).input().len() - old(cursor).pos(), 1int, count,
    {
        let ghost d = cursor.input();
        let ghost start = cursor.pos();
        let mut metadata: Vec<Meta> = Vec::new();
        let mut i: u32 = 0;
        while i < count
            invariant
                cursor.wf(),
                cursor.input() == d,
                d == old(cursor).input(),
                start == old(cursor).pos(),
                0 <= start <= cursor.pos(),
                i <= count,
                i > 0 ==> start < cursor.pos(),
                sp_metas(d, start, count as int) == match sp_metas(
                    d,
                    cursor.pos(),
                    (count - i) as int,
                ) {
                    Ok((ms, q)) => Ok((metas_view(metadata@) + ms, q)),
                    Err(e) => Err(e),
                },
            decreases count - i,
        {
            let ghost p = cursor.pos();
            let m = match Meta::new(cursor) {
                Ok(m) => m,
                Err(e) => return Err(e),
            };
            proof {
                let ghost old_view = metas_view(metadata@);
                assert(metas_view(metadata@.push(m)) == old_view.push(m@)) by {
                    assert(metadata@.push(m).drop_last() =~= metadata@);
                }
                match sp_metas(d, cursor.pos(), (count - i - 1) as int) {
                    Ok((ms, q)) => {
                        assert(old_view + (seq![m@] + ms) =~= old_view.push(m@) + ms);
                    },
                    Err(e) => {},
                }
            }
            metadata.push(m);
            i = i + 1;
        }
        assert(metas_view(metadata@) + Seq::empty() =~= metas_view(metadata@));
        Ok(metadata)
    }
}

/// The largest element count a layer stack may be asked to hold: above the
/// largest image voxel count, `6 * (2^32 - 1)^3`.
pub const MAX_STACK_LENGTH: u128 = 0x8_0000_0000_0000_0000_0000_0000;

impl Layer {
    /// Reads one layer of a stack whose element count is `length`.
    pub fn new(cursor: &mut Cursor, length: u128) -> (r: HxaResult<Layer>)
        requires
            old(cursor).wf(),
            length <= MAX_STACK_LENGTH,
        ensures
            final(cursor).wf(),
            final(cursor).input() == old(cursor).input(),
            old(cursor).pos() <= final(cursor).pos(),
            match sp_layer(old(cursor).input(), old(cursor).pos(), length as int) {
                Ok((l, q)) => r is Ok && r->Ok_0@ == l && final(cursor).pos() == q,
                Err(e) => r is Err && r->Err_0.failure() == e,
            },
    {
        let name = load_name(cursor)?;
        let component_count = cursor.read::<u8>()?;
        let code = cursor.read::<u8>()?;
        let type_ = match LayerDataType::from_code(code) {
            Some(t) => t,
            None => return Err(HxaError::UnexpectedLayerDataType(code)),
        };
        assert(component_count as int * length <= 255 * MAX_STACK_LENGTH) by (nonlinear_arith)
            requires
                component_count <= 255,
                length <= MAX_STACK_LENGTH,
        ;
        let len: u128 = component_count as u128 * length;
        let data = match type_ {
            LayerDataType::Uint8 => {
                if len > cursor.remaining() as u128 {
                    return Err(HxaError::UnexpectedEndOfData);
                }
                LayerData::Uint8(load_bytes(cursor, len as usize)?)
            },
            LayerDataType::Int32 => LayerData::Int32(load_slice(cursor, len)?),
            LayerDataType::Float => LayerData::Float(load_slice(cursor, len)?),
            LayerDataType::Double => LayerData::Double(load_slice(cursor, len)?),
        };
        Ok(Layer { name, component_count, type_, data })
    }
}

impl LayerStack {
    /// Reads a layer count, then that many layers of `length` elements each.
    pub fn new(cursor: &mut Cursor, length: u128) -> (r: HxaResult<LayerStack>)
        requires
            old(cursor).wf(),
            length <= MAX_STACK_LENGTH,
        ensures
            final(cursor).wf(),
            final(cursor).input() == old(cursor).input(),
            old(cursor).pos() <= final(cursor).pos(),
            match sp_stack(old(cursor).input(), old(cursor).pos(), length as int) {
                Ok((ls, q)) => r is Ok && r->Ok_0@ == ls && final(cursor).pos() == q,
                Err(e) => r is Err && r->Err_0.failure() == e,
            },
    {
        let count = cursor.read::<u32>()?;
        let ghost d = cursor.input();
        let ghost start = cursor.pos();
        let mut layers: Vec<Layer> = Vec::new();
        let mut i: u32 = 0;
        while i < count
            invariant
                cursor.wf(),
                cursor.input() == d,
                d == old(cursor).input(),
                old(cursor).pos() <= start <= cursor.pos(),
                sp_stack(d, old(cursor).pos(), length as int) == sp_layers(
                    d,
                    start,
                    length as int,
                    count as int,
                ),
                length <= MAX_STACK_LENGTH,
                i <= count,
                sp_layers(d, start, length as int, count as int) == match sp_layers(
                    d,
                    cursor.pos(),
                    length as int,
                    (count - i) as int,
                ) {
                    Ok((ls, q)) => Ok((layers_view(layers@) + ls, q)),
                    Err(e) => Err(e),
                },
            decreases count - i,
        {
            let l = match Layer::new(cursor, length) {
                Ok(l) => l,
                Err(e) => return Err(e),
            };
            proof {
                let ghost old_view = layers_view(layers@);
                assert(layers_view(layers@.push(l)) =~= old_view.push(l@));
                match sp_layers(d, cursor.pos(), length as int, (count - i - 1) as int) {
                    Ok((ls, q)) => {
                        assert(old_view + (seq![l@] + ls) =~= old_view.push(l@) + ls);
                    },
                    Err(e) => {},
                }
            }
            layers.push(l);
            i = i + 1;
        }
        assert(layers_view(layers@) + Seq::empty() =~= layers_view(layers@));
        Ok(LayerStack { layers })
    }

    /// A stack with no layers.
    pub fn empty() -> (r: LayerStack)
        ensures
            r@ == Seq::<LayerView>::empty(),
    {
        let r = LayerStack { layers: Vec::new() };
        assert(r@ =~= Seq::<LayerView>::empty());
        r
    }
}

/// Reads the body of a geometry node of a document of version `version`.
pub fn load_geometry(cursor: &mut Cursor, version: u8) -> (r: HxaResult<NodeContent>)
    requires
        old(cursor).wf(),
    ensures
        final(cursor).wf(),
        final(cursor).input() == old(cursor).input(),
        old(cursor).pos() <= final(cursor).pos(),
        match sp_geometry(old(cursor).input(), old(cursor).pos(), version) {
            Ok((c, q)) => r is Ok && r->Ok_0@ == c && final(cursor).pos() == q,
            Err(e) => r is Err && r->Err_0.failure() == e,
        },
{
    let vertex_count = cursor.read::<u32>()?;
    let vertex_stack = LayerStack::new(cursor, vertex_count as u128)?;
    let edge_corner_count = cursor.read::<u32>()?;
    let corner_stack = LayerStack::new(cursor, edge_corner_count as u128)?;
    let edge_stack = if version > 2 {
        LayerStack::new(cursor, edge_corner_count as u128)?
    } else {
        LayerStack::empty()
    };
    let face_count = cursor.read::<u32>()?;
    let face_stack = LayerStack::new(cursor, face_count as u128)?;
    Ok(NodeContent::Geometry(NodeGeometry { vertex_stack, corner_stack, edge_stack, face_stack }))
}

/// Reads the body of an image node.
pub fn load_image(cursor: &mut Cursor) -> (r: HxaResult<NodeContent>)
    requires
        old(cursor).wf(),
    ensures
        final(cursor).wf(),
        final(cursor).input() == old(cursor).input(),
        old(cursor).pos() <= final(cursor).pos(),
        match sp_image(old(cursor).input(), old(cursor).pos()) {
            Ok((c, q)) => r is Ok && r->Ok_0@ == c && final(cursor).pos() == q,
            Err(e) => r is Err && r->Err_0.failure() == e,
        },
{
    let code = cursor.read::<u8>()?;
    let type_ = match ImageType::from_code(code) {
        Some(t) => t,
        None => return Err(HxaError::UnexpectedImageType(code)),
    };
    let dimensions = type_.dimensions();
    let r0 = cursor.read::<u32>()?;
    let r1 = if dimensions >= 2 {
        cursor.read::<u32>()?
    } else {
        1
    };
    let r2 = if dimensions >= 3 {
        cursor.read::<u32>()?
    } else {
        1
    };
    let resolution = [r0, r1, r2];
    assert(resolution@ =~= seq![r0, r1, r2]);
    let sides: u128 = if type_ == ImageType::ImageCube {
        6
    } else {
        1
    };
    assert(r0 as int * r1 as int <= 0xFFFF_FFFF * 0xFFFF_FFFF) by (nonlinear_arith)
        requires
            r0 <= 0xFFFF_FFFF,
            r1 <= 0xFFFF_FFFF,
    ;
    assert(r0 as int * r1 as int * r2 as int <= 0xFFFF_FFFF * 0xFFFF_FFFF * 0xFFFF_FFFF)
        by (nonlinear_arith)
        requires
            r0 <= 0xFFFF_FFFF,
            r1 <= 0xFFFF_FFFF,
            r2 <= 0xFFFF_FFFF,
    ;
    assert(r0 as int * r1 as int * r2 as int * sides <= MAX_STACK_LENGTH) by (nonlinear_arith)
        requires
            r0 <= 0xFFFF_FFFF,
            r1 <= 0xFFFF_FFFF,
            r2 <= 0xFFFF_FFFF,
            sides <= 6,
            MAX_STACK_LENGTH == 0x8_0000_0000_0000_0000_0000_0000,
    ;
    let size: u128 = r0 as u128 * r1 as u128 * r2 as u128 * sides;
    let image_stack = LayerStack::new(cursor, size)?;
    Ok(NodeContent::Image(NodeImage { type_, resolution, image_stack }))
}

impl Node {
    /// Reads one node of a document of version `version`.
    pub fn new(cursor: &mut Cursor, version: u8) -> (r: HxaResult<Node>)
        requires
            old(cursor).wf(),
        ensures
            final(cursor).wf(),
            final(cursor).input() == old(cursor).input(),
            old(cursor).pos() <= final(cursor).pos(),
            match sp_node(old(cursor).input(), old(cursor).pos(), version) {
                Ok((n, q)) => r is Ok && r->Ok_0@ == n && final(cursor).pos() == q,
                Err(e) => r is Err && r->Err_0.failure() == e,
            },
    {
        let code = cursor.read::<u8>()?;
        let type_ = match NodeType::from_code(code) {
            Some(t) => t,
            None => return Err(HxaError::UnexpectedNodeType(code)),
        };
        let metadata_count = cursor.read::<u32>()?;
        let metadata = Meta::load(cursor, metadata_count)?;
        let content = match type_ {
            NodeType::Geometry => Some(load_geometry(cursor, version)?),
            NodeType::Image => Some(load_image(cursor)?),
            NodeType::Meta => None,
        };
        Ok(Node { type_, metadata, content })
    }
}

impl Hxa {
    /// Decodes a whole buffer: the signature, the version, the node count,
    /// that many nodes, and nothing after them.
    pub fn parse(data: &[u8]) -> (r: HxaResult<Hxa>)
        ensures
            match sp_hxa(data@) {
                Ok(h) => r is Ok && r->Ok_0@ == h,
                Err(e) => r is Err && r->Err_0.failure() == e,
            },
    {
        let mut cursor = Cursor::new(data);
        let magic_number = cursor.read::<u32>()?;
        if magic_number != MAGIC {
            return Err(HxaError::InvalidMagicNumber(magic_number));
        }
        let version_field = cursor.read::<u32>()?;
        #[verifier::truncate]
        let version = version_field as u8;
        let node_count = cursor.read::<u32>()?;
        let ghost d = data@;
        let ghost start = cursor.pos();
        let mut nodes: Vec<Node> = Vec::new();
        let mut i: u32 = 0;
        while i < node_count
            invariant
                cursor.wf(),
                cursor.input() == d,
                d == data@,
                start <= cursor.pos(),
                i <= node_count,
                sp_hxa(d) == match sp_nodes(d, start, version, node_count as int) {
                    Err(e) => Err(e),
                    Ok((nodes, q)) => if q < d.len() {
                        Err(Failure::TrailingData((d.len() - q) as usize))
                    } else {
                        Ok(HxaView { version, nodes })
                    },
                },
                sp_nodes(d, start, version, node_count as int) == match sp_nodes(
                    d,
                    cursor.pos(),
                    version,
                    (node_count - i) as int,
                ) {
                    Ok((ns, q)) => Ok((nodes_view(nodes@) + ns, q)),
                    Err(e) => Err(e),
                },
            decreases node_count - i,
        {
            let n = match Node::new(&mut cursor, version) {
                Ok(n) => n,
                Err(e) => return Err(e),
            };
            proof {
                let ghost old_view = nodes_view(nodes@);
                assert(nodes_view(nodes@.push(n)) =~= old_view.push(n@));
                match sp_nodes(d, cursor.pos(), version, (node_count - i - 1) as int) {
                    Ok((ns, q)) => {
                        assert(old_view + (seq![n@] + ns) =~= old_view.push(n@) + ns);
                    },
                    Err(e) => {},
                }
            }
            nodes.push(n);
            i = i + 1;
        }
        assert(nodes_view(nodes@) + Seq::empty() =~= nodes_view(nodes@));
        let left = cursor.remaining();
        if left > 0 {
            return Err(HxaError::TrailingData(left));
        }
        Ok(Hxa { version, nodes })
    }

    /// Decodes a whole buffer; see `parse`.
    pub fn new(data: &[u8]) -> (r: HxaResult<Hxa>)
        ensures
            match sp_hxa(data@) {
                Ok(h) => r is Ok && r->Ok_0@ == h,
                Err(e) => r is Err && r->Err_0.failure() == e,
            },
    {
        Hxa::parse(data)
    }
}

} // verus!
