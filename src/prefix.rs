//! How the grammar reads a buffer and a longer buffer that extends it: alike,
//! as long as it stays inside the shorter one.
use crate::bytes::FromData;
use crate::codes::{LayerDataType, MetadataType};
use crate::error::Failure;
use crate::grammar::{
    sp_bytes, sp_corners_edges, sp_counted_stack, sp_elems, elem_at, sp_geometry, sp_image, sp_image_type, sp_layer,
    sp_layer_data_type, sp_layers, sp_meta, sp_meta_value, sp_metadata_type, sp_metas, sp_name,
    sp_node, sp_node_type, sp_nodes, sp_resolution, sp_scalar, sp_stack, sp_text, voxel_count,
};
use vstd::prelude::*;

verus! {

/// `d1` is the first `d1.len()` bytes of `d2`.
pub open spec fn is_prefix(d1: Seq<u8>, d2: Seq<u8>) -> bool {
    d1.len() <= d2.len() && d1 == d2.subrange(0, d1.len() as int)
}

/// How a read at `p` of a buffer whose first `n1` bytes are a shorter buffer
/// relates to the same read of the shorter one: a read that ends inside it
/// gives the same result there; one that starts inside it and ends beyond it
/// runs out of data there; one that starts inside it and fails fails there
/// too. A read never moves backwards.
pub open spec fn agrees_on_prefix<V>(
    r1: Result<(V, int), Failure>,
    r2: Result<(V, int), Failure>,
    p: int,
    n1: int,
) -> bool {
    match r2 {
        Ok((v, q)) => {
            &&& p <= q
            &&& q <= n1 ==> r1 == r2
            &&& q > n1 && p <= n1 ==> r1 == Err::<(V, int), Failure>(
                Failure::UnexpectedEndOfData,
            )
        },
        Err(_) => p <= n1 ==> r1 is Err,
    }
}

pub proof fn lemma_prefix_bytes(d1: Seq<u8>, d2: Seq<u8>, p: int, len: int)
    requires
        is_prefix(d1, d2),
        0 <= p,
        0 <= len,
    ensures
        agrees_on_prefix(sp_bytes(d1, p, len), sp_bytes(d2, p, len), p, d1.len() as int),
{
    if p + len <= d1.len() {
        assert(d1.subrange(p, p + len) =~= d2.subrange(p, p + len));
    }
}

pub proof fn lemma_prefix_scalar<T: FromData>(d1: Seq<u8>, d2: Seq<u8>, p: int)
    requires
        is_prefix(d1, d2),
        0 <= p,
    ensures
        agrees_on_prefix(sp_scalar::<T>(d1, p), sp_scalar::<T>(d2, p), p, d1.len() as int),
{
    let n = T::spec_size() as int;
    if p + n <= d1.len() {
        assert(d1.subrange(p, p + n) =~= d2.subrange(p, p + n));
    }
}

pub proof fn lemma_prefix_elems<T: FromData>(d1: Seq<u8>, d2: Seq<u8>, p: int, count: int)
    requires
        is_prefix(d1, d2),
        0 <= p,
        0 <= count,
    ensures
        agrees_on_prefix(
            sp_elems::<T>(d1, p, count),
            sp_elems::<T>(d2, p, count),
            p,
            d1.len() as int,
        ),
{
    let n = T::spec_size() as int;
    assert(0 <= n * count) by (nonlinear_arith)
        requires
            0 <= n,
            0 <= count,
    ;
    if p + n * count <= d1.len() {
        assert forall|i: int| 0 <= i < count implies elem_at::<T>(d1, p, i) == elem_at::<T>(
            d2,
            p,
            i,
        ) by {
            assert(0 <= n * i && n * i + n <= n * count) by (nonlinear_arith)
                requires
                    0 <= n,
                    0 <= i < count,
            ;
            assert(d1.subrange(p + n * i, p + n * i + n) =~= d2.subrange(
                p + n * i,
                p + n * i + n,
            ));
        }
        assert(Seq::new(count as nat, |i: int| elem_at::<T>(d1, p, i)) =~= Seq::new(
            count as nat,
            |i: int| elem_at::<T>(d2, p, i),
        ));
    }
}

pub proof fn lemma_prefix_text(d1: Seq<u8>, d2: Seq<u8>, p: int, len: int)
    requires
        is_prefix(d1, d2),
        0 <= p,
        0 <= len,
    ensures
        agrees_on_prefix(sp_text(d1, p, len), sp_text(d2, p, len), p, d1.len() as int),
{
    lemma_prefix_bytes(d1, d2, p, len);
}

pub proof fn lemma_prefix_name(d1: Seq<u8>, d2: Seq<u8>, p: int)
    requires
        is_prefix(d1, d2),
        0 <= p,
    ensures
        agrees_on_prefix(sp_name(d1, p), sp_name(d2, p), p, d1.len() as int),
{
    lemma_prefix_scalar::<u8>(d1, d2, p);
    if let Ok((len, q)) = sp_scalar::<u8>(d2, p) {
        lemma_prefix_text(d1, d2, q, len as int);
    }
}

pub proof fn lemma_prefix_codes(d1: Seq<u8>, d2: Seq<u8>, p: int)
    requires
        is_prefix(d1, d2),
        0 <= p,
    ensures
        agrees_on_prefix(sp_node_type(d1, p), sp_node_type(d2, p), p, d1.len() as int),
        agrees_on_prefix(
            sp_layer_data_type(d1, p),
            sp_layer_data_type(d2, p),
            p,
            d1.len() as int,
        ),
        agrees_on_prefix(sp_image_type(d1, p), sp_image_type(d2, p), p, d1.len() as int),
        agrees_on_prefix(sp_metadata_type(d1, p), sp_metadata_type(d2, p), p, d1.len() as int),
{
    lemma_prefix_scalar::<u8>(d1, d2, p);
}

pub proof fn lemma_prefix_meta_value(
    d1: Seq<u8>,
    d2: Seq<u8>,
    p: int,
    t: MetadataType,
    len: int,
)
    requires
        is_prefix(d1, d2),
        0 <= p,
        0 <= len,
    ensures
        agrees_on_prefix(
            sp_meta_value(d1, p, t, len),
            sp_meta_value(d2, p, t, len),
            p,
            d1.len() as int,
        ),
    decreases d2.len() - p, 2int, 0int,
{
    match t {
        MetadataType::Int64 => lemma_prefix_elems::<i64>(d1, d2, p, len),
        MetadataType::Double => lemma_prefix_elems::<u64>(d1, d2, p, len),
        MetadataType::Node => lemma_prefix_elems::<u32>(d1, d2, p, len),
        MetadataType::Text => lemma_prefix_text(d1, d2, p, len),
        MetadataType::Binary => lemma_prefix_bytes(d1, d2, p, len),
        MetadataType::Meta => lemma_prefix_metas(d1, d2, p, len),
    }
}

pub proof fn lemma_prefix_meta(d1: Seq<u8>, d2: Seq<u8>, p: int)
    requires
        is_prefix(d1, d2),
        0 <= p,
    ensures
        agrees_on_prefix(sp_meta(d1, p), sp_meta(d2, p), p, d1.len() as int),
    decreases d2.len() - p, 0int, 0int,
{
    lemma_prefix_name(d1, d2, p);
    if let Ok((name, q1)) = sp_name(d2, p) {
        lemma_prefix_codes(d1, d2, q1);
        if let Ok((t, q2)) = sp_metadata_type(d2, q1) {
            lemma_prefix_scalar::<u32>(d1, d2, q2);
            if let Ok((len, q3)) = sp_scalar::<u32>(d2, q2) {
                if p < q3 <= d2.len() {
                    lemma_prefix_meta_value(d1, d2, q3, t, len as int);
                }
            }
        }
    }
}

pub proof fn lemma_prefix_metas(d1: Seq<u8>, d2: Seq<u8>, p: int, count: int)
    requires
        is_prefix(d1, d2),
        0 <= p,
    ensures
        agrees_on_prefix(sp_metas(d1, p, count), sp_metas(d2, p, count), p, d1.len() as int),
    decreases d2.len() - p, 1int, count,
{
    if count > 0 {
        lemma_prefix_meta(d1, d2, p);
        if let Ok((m, q)) = sp_meta(d2, p) {
            if p < q <= d2.len() {
                lemma_prefix_metas(d1, d2, q, count - 1);
            }
        }
    }
}

pub proof fn lemma_prefix_layer(d1: Seq<u8>, d2: Seq<u8>, p: int, length: int)
    requires
        is_prefix(d1, d2),
        0 <= p,
        0 <= length,
    ensures
        agrees_on_prefix(sp_layer(d1, p, length), sp_layer(d2, p, length), p, d1.len() as int),
{
    lemma_prefix_name(d1, d2, p);
    if let Ok((name, q1)) = sp_name(d2, p) {
        lemma_prefix_scalar::<u8>(d1, d2, q1);
        if let Ok((cc, q2)) = sp_scalar::<u8>(d2, q1) {
            lemma_prefix_codes(d1, d2, q2);
            if let Ok((t, q3)) = sp_layer_data_type(d2, q2) {
                let count = cc as int * length;
                assert(0 <= count) by (nonlinear_arith)
                    requires
                        count == cc as int * length,
                        0 <= cc,
                        0 <= length,
                ;
                match t {
                    LayerDataType::Uint8 => lemma_prefix_bytes(d1, d2, q3, count),
                    LayerDataType::Int32 => lemma_prefix_elems::<i32>(d1, d2, q3, count),
                    LayerDataType::Float => lemma_prefix_elems::<u32>(d1, d2, q3, count),
                    LayerDataType::Double => lemma_prefix_elems::<u64>(d1, d2, q3, count),
                }
            }
        }
    }
}

pub proof fn lemma_prefix_layers(d1: Seq<u8>, d2: Seq<u8>, p: int, length: int, count: int)
    requires
        is_prefix(d1, d2),
        0 <= p,
        0 <= length,
    ensures
        agrees_on_prefix(
            sp_layers(d1, p, length, count),
            sp_layers(d2, p, length, count),
            p,
            d1.len() as int,
        ),
    decreases count,
{
    if count > 0 {
        lemma_prefix_layer(d1, d2, p, length);
        if let Ok((l, q)) = sp_layer(d2, p, length) {
            lemma_prefix_layers(d1, d2, q, length, count - 1);
        }
    }
}

pub proof fn lemma_prefix_stack(d1: Seq<u8>, d2: Seq<u8>, p: int, length: int)
    requires
        is_prefix(d1, d2),
        0 <= p,
        0 <= length,
    ensures
        agrees_on_prefix(sp_stack(d1, p, length), sp_stack(d2, p, length), p, d1.len() as int),
{
    lemma_prefix_scalar::<u32>(d1, d2, p);
    if let Ok((count, q)) = sp_scalar::<u32>(d2, p) {
        lemma_prefix_layers(d1, d2, q, length, count as int);
    }
}

pub proof fn lemma_prefix_counted_stack(d1: Seq<u8>, d2: Seq<u8>, p: int)
    requires
        is_prefix(d1, d2),
        0 <= p,
    ensures
        agrees_on_prefix(sp_counted_stack(d1, p), sp_counted_stack(d2, p), p, d1.len() as int),
{
    lemma_prefix_scalar::<u32>(d1, d2, p);
    if let Ok((count, q)) = sp_scalar::<u32>(d2, p) {
        lemma_prefix_stack(d1, d2, q, count as int);
    }
}

pub proof fn lemma_prefix_corners_edges(d1: Seq<u8>, d2: Seq<u8>, p: int, version: u8)
    requires
        is_prefix(d1, d2),
        0 <= p,
    ensures
        agrees_on_prefix(
            sp_corners_edges(d1, p, version),
            sp_corners_edges(d2, p, version),
            p,
            d1.len() as int,
        ),
{
    lemma_prefix_scalar::<u32>(d1, d2, p);
    if let Ok((ec, q1)) = sp_scalar::<u32>(d2, p) {
        lemma_prefix_stack(d1, d2, q1, ec as int);
        if let Ok((cs, q2)) = sp_stack(d2, q1, ec as int) {
            lemma_prefix_stack(d1, d2, q2, ec as int);
        }
    }
}

pub proof fn lemma_prefix_geometry(d1: Seq<u8>, d2: Seq<u8>, p: int, version: u8)
    requires
        is_prefix(d1, d2),
        0 <= p,
    ensures
        agrees_on_prefix(
            sp_geometry(d1, p, version),
            sp_geometry(d2, p, version),
            p,
            d1.len() as int,
        ),
{
    lemma_prefix_counted_stack(d1, d2, p);
    if let Ok((vs, q1)) = sp_counted_stack(d2, p) {
        lemma_prefix_corners_edges(d1, d2, q1, version);
        if let Ok((ce, q2)) = sp_corners_edges(d2, q1, version) {
            lemma_prefix_counted_stack(d1, d2, q2);
        }
    }
}

pub proof fn lemma_prefix_image(d1: Seq<u8>, d2: Seq<u8>, p: int)
    requires
        is_prefix(d1, d2),
        0 <= p,
    ensures
        agrees_on_prefix(sp_image(d1, p), sp_image(d2, p), p, d1.len() as int),
{
    lemma_prefix_codes(d1, d2, p);
    if let Ok((t, q1)) = sp_image_type(d2, p) {
        lemma_prefix_scalar::<u32>(d1, d2, q1);
        if let Ok((r0, q2)) = sp_resolution(d2, q1, t, 0) {
            lemma_prefix_scalar::<u32>(d1, d2, q2);
            if let Ok((r1, q3)) = sp_resolution(d2, q2, t, 1) {
                lemma_prefix_scalar::<u32>(d1, d2, q3);
                if let Ok((r2, q4)) = sp_resolution(d2, q3, t, 2) {
                    let res = seq![r0, r1, r2];
                    let (a, b, c) = (r0 as int, r1 as int, r2 as int);
                    assert(0 <= a * b * c) by (nonlinear_arith)
                        requires
                            0 <= a,
                            0 <= b,
                            0 <= c,
                    ;
                    assert(0 <= voxel_count(t, res));
                    lemma_prefix_stack(d1, d2, q4, voxel_count(t, res));
                }
            }
        }
    }
}

pub proof fn lemma_prefix_node(d1: Seq<u8>, d2: Seq<u8>, p: int, version: u8)
    requires
        is_prefix(d1, d2),
        0 <= p,
    ensures
        agrees_on_prefix(sp_node(d1, p, version), sp_node(d2, p, version), p, d1.len() as int),
{
    lemma_prefix_codes(d1, d2, p);
    if let Ok((t, q1)) = sp_node_type(d2, p) {
        lemma_prefix_scalar::<u32>(d1, d2, q1);
        if let Ok((mc, q2)) = sp_scalar::<u32>(d2, q1) {
            lemma_prefix_metas(d1, d2, q2, mc as int);
            if let Ok((md, q3)) = sp_metas(d2, q2, mc as int) {
                lemma_prefix_geometry(d1, d2, q3, version);
                lemma_prefix_image(d1, d2, q3);
            }
        }
    }
}

pub proof fn lemma_prefix_nodes(d1: Seq<u8>, d2: Seq<u8>, p: int, version: u8, count: int)
    requires
        is_prefix(d1, d2),
        0 <= p,
    ensures
        agrees_on_prefix(
            sp_nodes(d1, p, version, count),
            sp_nodes(d2, p, version, count),
            p,
            d1.len() as int,
        ),
    decreases count,
{
    if count > 0 {
        lemma_prefix_node(d1, d2, p, version);
        if let Ok((n, q)) = sp_node(d2, p, version) {
            lemma_prefix_nodes(d1, d2, q, version, count - 1);
        }
    }
}

} // verus!
