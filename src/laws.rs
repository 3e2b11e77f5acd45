//! Properties of the format that hold for every input.
use crate::bytes::{le_u32, FromData};
use crate::error::Failure;
use crate::grammar::{
    sp_elems, sp_hxa, sp_layer, sp_layers, sp_node, sp_nodes, sp_scalar, sp_stack, MAGIC,
};
use crate::model::LayerView;
use crate::prefix::{is_prefix, lemma_prefix_nodes, lemma_prefix_scalar};
use vstd::prelude::*;

verus! {

/// The four bytes every document starts with: "HxA\0".
pub open spec fn signature() -> Seq<u8> {
    seq![0x48u8, 0x78u8, 0x41u8, 0x00u8]
}

/// A buffer of at least four bytes that does not start with the signature is
/// rejected as having an invalid magic number.
pub proof fn lemma_bad_signature_rejected(d: Seq<u8>)
    requires
        d.len() >= 4,
        d.subrange(0, 4) != signature(),
    ensures
        sp_hxa(d) is Err,
        sp_hxa(d)->Err_0 is InvalidMagicNumber,
{
    let b = d.subrange(0, 4);
    let (b0, b1, b2, b3) = (b[0] as int, b[1] as int, b[2] as int, b[3] as int);
    if le_u32(b) == MAGIC {
        assert(b0 + b1 * 0x100 + b2 * 0x1_0000 + b3 * 0x100_0000 == 0x0041_7848);
        assert(b0 == 0x48 && b1 == 0x78 && b2 == 0x41 && b3 == 0) by (nonlinear_arith)
            requires
                b0 + b1 * 0x100 + b2 * 0x1_0000 + b3 * 0x100_0000 == 0x0041_7848,
                0 <= b0 < 256,
                0 <= b1 < 256,
                0 <= b2 < 256,
                0 <= b3 < 256,
        ;
        assert(b =~= signature());
    }
}

proof fn lemma_nodes_len(d: Seq<u8>, p: int, version: u8, count: int)
    requires
        sp_nodes(d, p, version, count) is Ok,
        count >= 0,
    ensures
        sp_nodes(d, p, version, count)->Ok_0.0.len() == count,
    decreases count,
{
    if count > 0 {
        let q = sp_node(d, p, version)->Ok_0.1;
        lemma_nodes_len(d, q, version, count - 1);
    }
}

/// A decoded document holds exactly as many nodes as its node-count field
/// (bytes 8 to 11) declares.
pub proof fn lemma_node_count(d: Seq<u8>)
    requires
        sp_hxa(d) is Ok,
    ensures
        sp_hxa(d)->Ok_0.nodes.len() == le_u32(d.subrange(8, 12)),
{
    let version = le_u32(d.subrange(4, 8)) as u8;
    lemma_nodes_len(d, 12, version, le_u32(d.subrange(8, 12)) as int);
}

/// Every layer of a stack whose element count is `length` holds
/// `component_count * length` elements.
pub proof fn lemma_layer_data_len(d: Seq<u8>, p: int, length: int)
    requires
        sp_stack(d, p, length) is Ok,
        length >= 0,
    ensures
        forall|i: int|
            0 <= i < sp_stack(d, p, length)->Ok_0.0.len() ==> {
                let l: LayerView = #[trigger] sp_stack(d, p, length)->Ok_0.0[i];
                l.data.len() == l.component_count * length
            },
{
    let count = le_u32(d.subrange(p, p + 4)) as int;
    lemma_layers_data_len(d, p + 4, length, count);
}

proof fn lemma_layers_data_len(d: Seq<u8>, p: int, length: int, count: int)
    requires
        sp_layers(d, p, length, count) is Ok,
        length >= 0,
    ensures
        forall|i: int|
            0 <= i < sp_layers(d, p, length, count)->Ok_0.0.len() ==> {
                let l: LayerView = #[trigger] sp_layers(d, p, length, count)->Ok_0.0[i];
                l.data.len() == l.component_count * length
            },
    decreases count,
{
    if count > 0 {
        let (l, q) = sp_layer(d, p, length)->Ok_0;
        lemma_layers_data_len(d, q, length, count - 1);
        let ls = sp_layers(d, q, length, count - 1)->Ok_0.0;
        assert(sp_layers(d, p, length, count)->Ok_0.0 == seq![l].add(ls));
        lemma_one_layer_data_len(d, p, length);
    }
}

proof fn lemma_one_layer_data_len(d: Seq<u8>, p: int, length: int)
    requires
        sp_layer(d, p, length) is Ok,
        length >= 0,
    ensures
        sp_layer(d, p, length)->Ok_0.0.data.len() == sp_layer(d, p, length)->Ok_0.0.component_count
            * length,
{
    let l = sp_layer(d, p, length)->Ok_0.0;
    assert(l.component_count * length >= 0) by (nonlinear_arith)
        requires
            length >= 0,
            l.component_count >= 0,
    ;
}

/// Reading `count` scalars at once gives, element by element, what reading
/// each scalar on its own from its bytes gives.
pub proof fn lemma_bulk_matches_single<T: FromData>(d: Seq<u8>, p: int, count: int, i: int)
    requires
        sp_elems::<T>(d, p, count) is Ok,
        0 <= i < count,
    ensures
        sp_scalar::<T>(d, p + T::spec_size() * i) == Ok::<(T, int), Failure>(
            (sp_elems::<T>(d, p, count)->Ok_0.0[i], p + T::spec_size() * (i + 1)),
        ),
{
    let n = T::spec_size() as int;
    assert(n * (i + 1) <= n * count) by (nonlinear_arith)
        requires
            i + 1 <= count,
            n >= 0,
    ;
    assert(n * i + n == n * (i + 1)) by (nonlinear_arith);
    assert(0 <= n * i) by (nonlinear_arith)
        requires
            i >= 0,
            n >= 0,
    ;
}

/// The nodes of a decoded document end exactly at the end of its buffer.
pub proof fn lemma_consumes_whole_buffer(d: Seq<u8>)
    requires
        sp_hxa(d) is Ok,
    ensures
        sp_nodes(d, 12, le_u32(d.subrange(4, 8)) as u8, le_u32(d.subrange(8, 12)) as int)
            == Ok::<(Seq<crate::model::NodeView>, int), Failure>(
            (sp_hxa(d)->Ok_0.nodes, d.len() as int),
        ),
{
    assert(d =~= d.subrange(0, d.len() as int));
    lemma_prefix_nodes(d, d, 12, le_u32(d.subrange(4, 8)) as u8, le_u32(d.subrange(8, 12)) as int);
}

/// A decoded document takes up its whole buffer: the same bytes followed by
/// any non-empty tail are rejected as trailing data, with the tail's length.
pub proof fn lemma_trailing_rejected(d: Seq<u8>, extra: Seq<u8>)
    requires
        sp_hxa(d) is Ok,
        extra.len() > 0,
    ensures
        sp_hxa(d + extra) == Err::<crate::model::HxaView, Failure>(
            Failure::TrailingData(extra.len() as usize),
        ),
{
    let d2 = d + extra;
    assert(d =~= d2.subrange(0, d.len() as int));
    assert(is_prefix(d, d2));
    assert(d =~= d.subrange(0, d.len() as int));
    lemma_prefix_scalar::<u32>(d, d2, 0);
    lemma_prefix_scalar::<u32>(d, d2, 4);
    lemma_prefix_scalar::<u32>(d, d2, 8);
    let version = le_u32(d.subrange(4, 8)) as u8;
    let count = le_u32(d.subrange(8, 12)) as int;
    assert(d2.subrange(4, 8) == d.subrange(4, 8));
    assert(d2.subrange(8, 12) == d.subrange(8, 12));
    lemma_prefix_nodes(d, d2, 12, version, count);
    lemma_prefix_nodes(d, d, 12, version, count);
}

/// Cutting a decoded document's buffer short anywhere makes it fail for
/// running out of data.
pub proof fn lemma_truncation_rejected(d: Seq<u8>, k: int)
    requires
        sp_hxa(d) is Ok,
        0 <= k < d.len(),
    ensures
        sp_hxa(d.subrange(0, k)) == Err::<crate::model::HxaView, Failure>(
            Failure::UnexpectedEndOfData,
        ),
{
    let d1 = d.subrange(0, k);
    assert(d1 =~= d.subrange(0, d1.len() as int));
    assert(is_prefix(d1, d));
    lemma_prefix_scalar::<u32>(d1, d, 0);
    lemma_prefix_scalar::<u32>(d1, d, 4);
    lemma_prefix_scalar::<u32>(d1, d, 8);
    let version = le_u32(d.subrange(4, 8)) as u8;
    let count = le_u32(d.subrange(8, 12)) as int;
    if k >= 12 {
        assert(d1.subrange(4, 8) == d.subrange(4, 8));
        assert(d1.subrange(8, 12) == d.subrange(8, 12));
    }
    lemma_prefix_nodes(d1, d, 12, version, count);
}

} // verus!
