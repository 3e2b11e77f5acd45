//! The decisions of the format-conversion tool, apart from its file I/O.
use vstd::prelude::*;

verus! {

/// A file format the conversion tool knows.
#[derive(Clone, Copy, Debug, PartialEq, Eq, Structural)]
pub enum Format {
    Hxa,
    Obj,
}

/// What converting a file of one format into another comes to.
#[derive(Clone, Copy, Debug, PartialEq, Eq, Structural)]
pub enum Conversion {
    /// The file is already in the target format; nothing to write.
    AlreadyInFormat(Format),
    HxaToObj,
    ObjToHxa,
}

/// The format a file extension names: the ASCII bytes of "hxa" or "obj".
pub open spec fn format_of(ext: Seq<u8>) -> Option<Format> {
    if ext == seq![0x68u8, 0x78u8, 0x61u8] {
        Some(Format::Hxa)
    } else if ext == seq![0x6Fu8, 0x62u8, 0x6Au8] {
        Some(Format::Obj)
    } else {
        None
    }
}

/// The format of a file, from the bytes of its extension.
pub fn detect_source_format(extension: &[u8]) -> (r: Option<Format>)
    ensures
        r == format_of(extension@),
{
    if extension.len() != 3 {
        return None;
    }
    let (a, b, c) = (extension[0], extension[1], extension[2]);
    proof {
        assert(extension@ == seq![a, b, c]);
    }
    if a == 0x68 && b == 0x78 && c == 0x61 {
        Some(Format::Hxa)
    } else if a == 0x6F && b == 0x62 && c == 0x6A {
        Some(Format::Obj)
    } else {
        None
    }
}

/// What converting a file in `source` format to `target` format comes to.
pub fn convert_to(source: Format, target: Format) -> (r: Conversion)
    ensures
        source == target ==> r == Conversion::AlreadyInFormat(source),
        source == Format::Hxa && target == Format::Obj ==> r == Conversion::HxaToObj,
        source == Format::Obj && target == Format::Hxa ==> r == Conversion::ObjToHxa,
{
    match (source, target) {
        (Format::Hxa, Format::Obj) => Conversion::HxaToObj,
        (Format::Obj, Format::Hxa) => Conversion::ObjToHxa,
        (f, _) => Conversion::AlreadyInFormat(f),
    }
}

/// The vertex index a corner reference stands for: the last corner of each
/// polygon is stored as `-1 - index`.
pub open spec fn corner_vertex(r: i32) -> int {
    if r < 0 {
        -1 - r
    } else {
        r as int
    }
}

/// The positions of the corners that close a polygon, in order, among the
/// first `n` references.
pub open spec fn polygon_ends_upto(refs: Seq<i32>, n: int) -> Seq<usize>
    decreases n,
{
    if n <= 0 {
        Seq::empty()
    } else if refs[n - 1] < 0 {
        polygon_ends_upto(refs, n - 1).push((n - 1) as usize)
    } else {
        polygon_ends_upto(refs, n - 1)
    }
}

/// The vertex index of one corner reference.
pub fn corner_index(r: i32) -> (v: u32)
    ensures
        v == corner_vertex(r),
{
    if r < 0 {
        (-1 - r) as u32
    } else {
        r as u32
    }
}

/// The positions of the corners that close a polygon, in increasing order.
pub fn polygon_ends(refs: &[i32]) -> (r: Vec<usize>)
    ensures
        r@ == polygon_ends_upto(refs@, refs@.len() as int),
{
    let mut ends: Vec<usize> = Vec::new();
    let mut i: usize = 0;
    while i < refs.len()
        invariant
            i <= refs@.len(),
            ends@ == polygon_ends_upto(refs@, i as int),
        decreases refs@.len() - i,
    {
        if refs[i] < 0 {
            ends.push(i);
        }
        i = i + 1;
    }
    ends
}

} // verus!
