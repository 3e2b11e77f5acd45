use hxa::convert::{convert_to, corner_index, detect_source_format, polygon_ends, Conversion, Format};
use hxa::cursor::Cursor;
use hxa::parse::load_name;
use hxa::{
    Hxa, HxaError, ImageType, InternalError, InternalErrorKind, LayerData, LayerDataType,
    MetaValue, MetadataType, NodeContent, NodeType,
};

fn header(version: u32, nodes: u32) -> Vec<u8> {
    let mut b = b"HxA\0".to_vec();
    b.extend_from_slice(&version.to_le_bytes());
    b.extend_from_slice(&nodes.to_le_bytes());
    b
}

fn u32le(b: &mut Vec<u8>, v: u32) {
    b.extend_from_slice(&v.to_le_bytes());
}

fn name(b: &mut Vec<u8>, s: &str) {
    b.push(s.len() as u8);
    b.extend_from_slice(s.as_bytes());
}

fn layer_header(b: &mut Vec<u8>, n: &str, components: u8, code: u8) {
    name(b, n);
    b.push(components);
    b.push(code);
}

fn text_entry(b: &mut Vec<u8>, n: &str, text: &str) {
    name(b, n);
    b.push(3);
    u32le(b, text.len() as u32);
    b.extend_from_slice(text.as_bytes());
}

/// A version-3 geometry document: a triangle with a vertex, corner and edge
/// layer and no face layers.
fn triangle_document() -> Vec<u8> {
    let mut b = header(3, 1);
    b.push(1);
    u32le(&mut b, 0);
    u32le(&mut b, 3);
    u32le(&mut b, 1);
    layer_header(&mut b, "vertex", 3, 2);
    for i in 0..9 {
        b.extend_from_slice(&(i as f32 * 0.5).to_le_bytes());
    }
    u32le(&mut b, 3);
    u32le(&mut b, 1);
    layer_header(&mut b, "reference", 1, 1);
    for r in [0i32, 1, -3] {
        b.extend_from_slice(&r.to_le_bytes());
    }
    u32le(&mut b, 1);
    layer_header(&mut b, "neighbour", 1, 1);
    for r in [-1i32, -1, -1] {
        b.extend_from_slice(&r.to_le_bytes());
    }
    u32le(&mut b, 0);
    u32le(&mut b, 0);
    b
}

#[test]
fn empty_document() {
    let doc = Hxa::parse(&header(1, 0)).unwrap();
    assert_eq!(doc.version, 1);
    assert!(doc.nodes.is_empty());
}

#[test]
fn meta_node_without_metadata() {
    let mut b = header(1, 1);
    b.push(0);
    u32le(&mut b, 0);
    let doc = Hxa::new(&b).unwrap();
    assert_eq!(doc.nodes.len(), 1);
    assert_eq!(doc.nodes[0].type_, NodeType::Meta);
    assert!(doc.nodes[0].metadata.is_empty());
    assert!(doc.nodes[0].content.is_none());
}

#[test]
fn geometry_node_with_edge_stack() {
    let doc = Hxa::parse(&triangle_document()).unwrap();
    assert_eq!(doc.version, 3);
    assert_eq!(doc.nodes[0].type_, NodeType::Geometry);
    let g = match &doc.nodes[0].content {
        Some(NodeContent::Geometry(g)) => g,
        _ => panic!("expected a geometry body"),
    };
    let v = &g.vertex_stack.layers[0];
    assert_eq!(v.name, "vertex");
    assert_eq!(v.component_count, 3);
    assert_eq!(v.type_, LayerDataType::Float);
    match &v.data {
        LayerData::Float(bits) => {
            let values: Vec<f32> = bits.iter().map(|b| f32::from_bits(*b)).collect();
            assert_eq!(values, vec![0.0, 0.5, 1.0, 1.5, 2.0, 2.5, 3.0, 3.5, 4.0]);
        }
        _ => panic!("expected float data"),
    }
    let c = &g.corner_stack.layers[0];
    assert_eq!(c.name, "reference");
    assert_eq!(c.component_count, 1);
    match &c.data {
        LayerData::Int32(v) => assert_eq!(v, &vec![0, 1, -3]),
        _ => panic!("expected int32 data"),
    }
    assert_eq!(g.edge_stack.layers.len(), 1);
    match &g.edge_stack.layers[0].data {
        LayerData::Int32(v) => assert_eq!(v.len(), 3),
        _ => panic!("expected int32 data"),
    }
    assert!(g.face_stack.layers.is_empty());
}

#[test]
fn geometry_before_version_three_has_no_edge_stack() {
    let mut b = header(2, 1);
    b.push(1);
    u32le(&mut b, 0);
    u32le(&mut b, 0);
    u32le(&mut b, 0);
    u32le(&mut b, 5);
    u32le(&mut b, 0);
    u32le(&mut b, 0);
    u32le(&mut b, 0);
    let doc = Hxa::parse(&b).unwrap();
    match &doc.nodes[0].content {
        Some(NodeContent::Geometry(g)) => {
            assert!(g.edge_stack.layers.is_empty());
            assert!(g.face_stack.layers.is_empty());
        }
        _ => panic!("expected a geometry body"),
    }
}

#[test]
fn image_2d_layer_holds_sixteen_elements() {
    let mut b = header(1, 1);
    b.push(2);
    u32le(&mut b, 0);
    b.push(2);
    u32le(&mut b, 4);
    u32le(&mut b, 4);
    u32le(&mut b, 1);
    layer_header(&mut b, "albedo", 1, 0);
    b.extend((0..16u8).collect::<Vec<u8>>());
    let doc = Hxa::parse(&b).unwrap();
    match &doc.nodes[0].content {
        Some(NodeContent::Image(img)) => {
            assert_eq!(img.type_, ImageType::Image2D);
            assert_eq!(img.resolution, [4, 4, 1]);
            match &img.image_stack.layers[0].data {
                LayerData::Uint8(v) => assert_eq!(v, &(0..16u8).collect::<Vec<u8>>()),
                _ => panic!("expected byte data"),
            }
        }
        _ => panic!("expected an image body"),
    }
}

#[test]
fn cube_image_has_six_faces() {
    let mut b = header(1, 1);
    b.push(2);
    u32le(&mut b, 0);
    b.push(0);
    u32le(&mut b, 2);
    u32le(&mut b, 1);
    u32le(&mut b, 1);
    layer_header(&mut b, "light", 1, 3);
    for i in 0..12u64 {
        b.extend_from_slice(&(i as f64).to_le_bytes());
    }
    let doc = Hxa::parse(&b).unwrap();
    match &doc.nodes[0].content {
        Some(NodeContent::Image(img)) => {
            assert_eq!(img.type_, ImageType::ImageCube);
            assert_eq!(img.resolution, [2, 1, 1]);
            match &img.image_stack.layers[0].data {
                LayerData::Double(v) => {
                    assert_eq!(v.len(), 12);
                    assert_eq!(f64::from_bits(v[11]), 11.0);
                }
                _ => panic!("expected double data"),
            }
        }
        _ => panic!("expected an image body"),
    }
}

#[test]
fn nested_text_metadata() {
    let mut b = header(1, 1);
    b.push(0);
    u32le(&mut b, 1);
    name(&mut b, "tags");
    b.push(5);
    u32le(&mut b, 2);
    text_entry(&mut b, "first", "hello");
    text_entry(&mut b, "second", "wörld");
    let doc = Hxa::parse(&b).unwrap();
    let m = &doc.nodes[0].metadata[0];
    assert_eq!(m.name, "tags");
    assert_eq!(m.type_, MetadataType::Meta);
    match &m.value {
        MetaValue::Meta(inner) => {
            assert_eq!(inner.len(), 2);
            assert_eq!(inner[0].name, "first");
            match &inner[0].value {
                MetaValue::Text(t) => assert_eq!(t, "hello"),
                _ => panic!("expected text"),
            }
            match &inner[1].value {
                MetaValue::Text(t) => assert_eq!(t, "wörld"),
                _ => panic!("expected text"),
            }
        }
        _ => panic!("expected nested metadata"),
    }
}

#[test]
fn numeric_and_binary_metadata() {
    let mut b = header(1, 1);
    b.push(0);
    u32le(&mut b, 4);
    name(&mut b, "i");
    b.push(0);
    u32le(&mut b, 2);
    b.extend_from_slice(&(-5i64).to_le_bytes());
    b.extend_from_slice(&(1i64 << 40).to_le_bytes());
    name(&mut b, "d");
    b.push(1);
    u32le(&mut b, 1);
    b.extend_from_slice(&(-2.25f64).to_le_bytes());
    name(&mut b, "n");
    b.push(2);
    u32le(&mut b, 2);
    u32le(&mut b, 7);
    u32le(&mut b, 0xFFFF_FFFF);
    name(&mut b, "b");
    b.push(4);
    u32le(&mut b, 3);
    b.extend_from_slice(&[0xFF, 0x00, 0x80]);
    let doc = Hxa::parse(&b).unwrap();
    let md = &doc.nodes[0].metadata;
    match &md[0].value {
        MetaValue::Int64(v) => assert_eq!(v, &vec![-5, 1 << 40]),
        _ => panic!("expected int64"),
    }
    match &md[1].value {
        MetaValue::Double(v) => assert_eq!(f64::from_bits(v[0]), -2.25),
        _ => panic!("expected double"),
    }
    match &md[2].value {
        MetaValue::Node(v) => assert_eq!(v, &vec![7, 0xFFFF_FFFF]),
        _ => panic!("expected node indices"),
    }
    match &md[3].value {
        MetaValue::Bin(v) => assert_eq!(v, &vec![0xFF, 0x00, 0x80]),
        _ => panic!("expected bytes"),
    }
}

#[test]
fn unknown_element_type_is_rejected() {
    let mut b = header(3, 1);
    b.push(1);
    u32le(&mut b, 0);
    u32le(&mut b, 1);
    u32le(&mut b, 1);
    layer_header(&mut b, "vertex", 3, 7);
    assert!(matches!(Hxa::parse(&b), Err(HxaError::UnexpectedLayerDataType(7))));
}

#[test]
fn unknown_codes_are_rejected() {
    let mut b = header(1, 1);
    b.push(3);
    assert!(matches!(Hxa::parse(&b), Err(HxaError::UnexpectedNodeType(3))));

    let mut b = header(1, 1);
    b.push(2);
    u32le(&mut b, 0);
    b.push(4);
    assert!(matches!(Hxa::parse(&b), Err(HxaError::UnexpectedImageType(4))));

    let mut b = header(1, 1);
    b.push(0);
    u32le(&mut b, 1);
    name(&mut b, "x");
    b.push(6);
    assert!(matches!(Hxa::parse(&b), Err(HxaError::UnexpectedMetadataType(6))));
}

#[test]
fn bad_signature_is_rejected() {
    let mut b = header(1, 0);
    b[2] = b'a';
    let expected = u32::from_le_bytes([b'H', b'x', b'a', 0]);
    assert!(matches!(Hxa::parse(&b), Err(HxaError::InvalidMagicNumber(m)) if m == expected));
    assert!(matches!(Hxa::parse(&[0, 0, 0, 0]), Err(HxaError::InvalidMagicNumber(0))));
}

#[test]
fn short_buffer_is_end_of_data() {
    assert!(matches!(Hxa::parse(&[]), Err(HxaError::UnexpectedEndOfData)));
    assert!(matches!(Hxa::parse(b"HxA"), Err(HxaError::UnexpectedEndOfData)));
}

#[test]
fn every_truncation_is_end_of_data() {
    let b = triangle_document();
    for k in 0..b.len() {
        assert!(
            matches!(Hxa::parse(&b[..k]), Err(HxaError::UnexpectedEndOfData)),
            "prefix of {} bytes",
            k
        );
    }
}

#[test]
fn trailing_bytes_are_rejected() {
    let mut b = triangle_document();
    b.push(0);
    assert!(matches!(Hxa::parse(&b), Err(HxaError::TrailingData(1))));
    let mut b = header(1, 0);
    b.extend_from_slice(&[1, 2, 3]);
    assert!(matches!(Hxa::parse(&b), Err(HxaError::TrailingData(3))));
}

#[test]
fn node_count_matches_declaration() {
    let mut b = header(1, 3);
    for _ in 0..3 {
        b.push(0);
        u32le(&mut b, 0);
    }
    assert_eq!(Hxa::parse(&b).unwrap().nodes.len(), 3);
    let mut short = header(1, 4);
    short.extend_from_slice(&b[12..]);
    assert!(matches!(Hxa::parse(&short), Err(HxaError::UnexpectedEndOfData)));
}

#[test]
fn layer_lengths_follow_component_count() {
    let doc = Hxa::parse(&triangle_document()).unwrap();
    if let Some(NodeContent::Geometry(g)) = &doc.nodes[0].content {
        for (stack, length) in [(&g.vertex_stack, 3usize), (&g.corner_stack, 3), (&g.edge_stack, 3)] {
            for l in &stack.layers {
                let n = match &l.data {
                    LayerData::Uint8(v) => v.len(),
                    LayerData::Int32(v) => v.len(),
                    LayerData::Float(v) => v.len(),
                    LayerData::Double(v) => v.len(),
                };
                assert_eq!(n, l.component_count as usize * length);
            }
        }
    } else {
        panic!("expected a geometry body");
    }
}

#[test]
fn element_decoding_is_little_endian() {
    let mut b = header(1, 1);
    b.push(2);
    u32le(&mut b, 0);
    b.push(1);
    u32le(&mut b, 2);
    u32le(&mut b, 1);
    layer_header(&mut b, "v", 1, 1);
    b.extend_from_slice(&[0x01, 0x02, 0x03, 0x04, 0xFE, 0xFF, 0xFF, 0xFF]);
    let doc = Hxa::parse(&b).unwrap();
    if let Some(NodeContent::Image(img)) = &doc.nodes[0].content {
        match &img.image_stack.layers[0].data {
            LayerData::Int32(v) => assert_eq!(v, &vec![0x0403_0201, -2]),
            _ => panic!("expected int32 data"),
        }
    } else {
        panic!("expected an image body");
    }
}

#[test]
fn version_keeps_low_byte() {
    let doc = Hxa::parse(&header(0x0102, 0)).unwrap();
    assert_eq!(doc.version, 2);
}

#[test]
fn invalid_utf8_name_is_rejected() {
    let mut b = header(1, 1);
    b.push(0);
    u32le(&mut b, 1);
    b.push(2);
    b.extend_from_slice(&[0xC3, 0x28]);
    assert!(matches!(Hxa::parse(&b), Err(HxaError::InvalidUtf8(_))));
}

#[test]
fn cursor_takes_bytes_in_order() {
    let data = [1u8, 2, 3, 4, 5];
    let mut c = Cursor::new(&data);
    assert_eq!(c.take_bytes(2).unwrap(), &[1, 2]);
    assert!(matches!(c.take_bytes(4), Err(HxaError::UnexpectedEndOfData)));
    assert_eq!(c.take_bytes(3).unwrap(), &[3, 4, 5]);
    assert_eq!(c.remaining(), 0);
}

#[test]
fn name_is_length_prefixed() {
    let data = [3u8, b'a', b'b', b'c', b'd'];
    let mut c = Cursor::new(&data);
    assert_eq!(load_name(&mut c).unwrap(), "abc");
    assert_eq!(c.remaining(), 1);
}

#[test]
fn internal_error_keeps_its_kind() {
    let e = InternalError::new(InternalErrorKind::TryFromSlice);
    assert_eq!(e.kind, InternalErrorKind::TryFromSlice);
}

#[test]
fn source_format_from_extension() {
    assert_eq!(detect_source_format(b"hxa"), Some(Format::Hxa));
    assert_eq!(detect_source_format(b"obj"), Some(Format::Obj));
    assert_eq!(detect_source_format(b"png"), None);
    assert_eq!(detect_source_format(b"hx"), None);
}

#[test]
fn conversion_choice() {
    assert_eq!(convert_to(Format::Hxa, Format::Obj), Conversion::HxaToObj);
    assert_eq!(convert_to(Format::Obj, Format::Hxa), Conversion::ObjToHxa);
    assert_eq!(convert_to(Format::Obj, Format::Obj), Conversion::AlreadyInFormat(Format::Obj));
}

#[test]
fn corner_references_close_polygons() {
    let refs = [0, 1, -3, 2, 3, 4, -1];
    assert_eq!(polygon_ends(&refs), vec![2, 6]);
    assert_eq!(corner_index(-3), 2);
    assert_eq!(corner_index(-1), 0);
    assert_eq!(corner_index(4), 4);
}
