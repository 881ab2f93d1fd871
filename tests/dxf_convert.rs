use jww::dxf::{
    convert_layers, dxf_kind, get_block_name, get_layer_name, map_color, map_line_type,
    to_decimal_text, to_hex_text, DxfKind,
};
use jww::dxf_writer::{to_signed_decimal_text, write_entity_head, write_tables};
use jww::{
    group_name, layer_name, parse, Arc, BlockDef, Document, Entity, EntityBase, Point,
};

fn minimal_jww() -> Vec<u8> {
    let mut data = Vec::new();
    data.extend_from_slice(b"JwwData.");
    data.extend_from_slice(&600u32.to_le_bytes());
    data.push(0);
    data.extend_from_slice(&0u32.to_le_bytes());
    data.extend_from_slice(&0u32.to_le_bytes());
    for _ in 0..16 {
        data.extend_from_slice(&2u32.to_le_bytes());
        data.extend_from_slice(&0u32.to_le_bytes());
        data.extend_from_slice(&1.0f64.to_le_bytes());
        data.extend_from_slice(&0u32.to_le_bytes());
        for _ in 0..16 {
            data.extend_from_slice(&2u32.to_le_bytes());
            data.extend_from_slice(&0u32.to_le_bytes());
        }
    }
    data.extend_from_slice(&0u16.to_le_bytes());
    data.extend_from_slice(&0xFFFFu16.to_le_bytes());
    data.extend_from_slice(&600u16.to_le_bytes());
    data.extend_from_slice(&8u16.to_le_bytes());
    data.extend_from_slice(b"CDataXXXX");
    for _ in 0..100 {
        data.push(0);
    }
    data
}

fn base() -> EntityBase {
    EntityBase { group: 0, pen_style: 0, pen_color: 1, pen_width: 0, layer: 0, layer_group: 0, flag: 0 }
}

#[test]
fn test_dxf_conversion() {
    let jww_doc = parse(&minimal_jww()).unwrap();
    let layers = convert_layers(&jww_doc);
    let kinds: Vec<DxfKind> = jww_doc.entities.iter().filter_map(dxf_kind).collect();

    assert_eq!(layers.len(), 256);
    assert_eq!(kinds.len(), 0);
    assert_eq!(jww_doc.block_defs.len(), 0);
}

#[test]
fn layer_table_entries() {
    let mut jww_doc = parse(&minimal_jww()).unwrap();
    jww_doc.layer_groups[1].layers[2].name = "walls".to_string();
    jww_doc.layer_groups[1].layers[2].state = 0;
    jww_doc.layer_groups[1].layers[2].protect = 1;
    let layers = convert_layers(&jww_doc);
    assert_eq!(layers[0].name, "0-0");
    assert_eq!(layers[0].color, 1);
    assert_eq!(layers[0].line_type, "CONTINUOUS");
    assert!(!layers[0].frozen && !layers[0].locked);
    assert_eq!(layers[18].name, "walls");
    assert_eq!(layers[18].color, 19);
    assert!(layers[18].frozen && layers[18].locked);
    assert_eq!(layers[255].name, "F-F");
    assert_eq!(layers[255].color, 1);
    assert_eq!(layers[254].color, 255);
}

#[test]
fn layer_names_for_entities() {
    let mut jww_doc = Document::default();
    jww_doc.layer_groups[3].layers[4].name = "doors".to_string();
    assert_eq!(get_layer_name(&jww_doc, 3, 4), "doors");
    assert_eq!(get_layer_name(&jww_doc, 3, 5), "3-5");
    assert_eq!(get_layer_name(&jww_doc, 20, 255), "14-FF");
}

#[test]
fn block_names() {
    let mut jww_doc = Document::default();
    jww_doc.block_defs.push(BlockDef {
        base: base(),
        number: 3,
        is_referenced: true,
        name: "chair".to_string(),
        entities: Vec::new(),
    });
    jww_doc.block_defs.push(BlockDef {
        base: base(),
        number: 4,
        is_referenced: false,
        name: String::new(),
        entities: Vec::new(),
    });
    assert_eq!(get_block_name(&jww_doc, 3), "chair");
    assert_eq!(get_block_name(&jww_doc, 4), "BLOCK_4");
    assert_eq!(get_block_name(&jww_doc, 1234), "BLOCK_1234");
}

#[test]
fn colours() {
    let expected = [(0u16, 0i32), (1, 4), (2, 7), (3, 3), (4, 2), (5, 6), (6, 5), (7, 7), (8, 1), (9, 8)];
    for (c, aci) in expected {
        assert_eq!(map_color(c), aci);
    }
    assert_eq!(map_color(10), 10);
    assert_eq!(map_color(99), 99);
    assert_eq!(map_color(100), 10);
    assert_eq!(map_color(257), 167);
}

#[test]
fn line_types() {
    assert_eq!(map_line_type(0), "CONTINUOUS");
    assert_eq!(map_line_type(1), "CONTINUOUS");
    assert_eq!(map_line_type(2), "DASHED");
    assert_eq!(map_line_type(3), "DASHDOT");
    assert_eq!(map_line_type(4), "CENTER");
    assert_eq!(map_line_type(5), "DOT");
    assert_eq!(map_line_type(6), "DASHEDX2");
    assert_eq!(map_line_type(7), "DASHDOTX2");
    assert_eq!(map_line_type(8), "CENTERX2");
    assert_eq!(map_line_type(9), "DOTX2");
    assert_eq!(map_line_type(200), "CONTINUOUS");
}

#[test]
fn number_texts() {
    assert_eq!(to_hex_text(0), "0");
    assert_eq!(to_hex_text(255), "FF");
    assert_eq!(to_hex_text(0xABC), "ABC");
    assert_eq!(to_hex_text(u32::MAX), "FFFFFFFF");
    assert_eq!(to_decimal_text(0), "0");
    assert_eq!(to_decimal_text(1234), "1234");
    assert_eq!(to_decimal_text(u32::MAX as u64), "4294967295");
    assert_eq!(to_decimal_text(u64::MAX), "18446744073709551615");
    assert_eq!(group_name(12), "GroupC");
    assert_eq!(layer_name(15, 3), "F-3");
}

fn arc(full: bool, flatness: f64) -> Entity {
    Entity::Arc(Arc {
        base: base(),
        center_x: 0,
        center_y: 0,
        radius: 1.0f64.to_bits(),
        start_angle: 0,
        arc_angle: 0,
        tilt_angle: 0,
        flatness: flatness.to_bits(),
        is_full_circle: full,
    })
}

#[test]
fn dxf_kinds() {
    assert_eq!(dxf_kind(&arc(true, 1.0)), Some(DxfKind::Circle));
    assert_eq!(dxf_kind(&arc(false, 1.0)), Some(DxfKind::Arc));
    assert_eq!(dxf_kind(&arc(true, 0.5)), Some(DxfKind::Ellipse));
    assert_eq!(dxf_kind(&arc(false, 2.0)), Some(DxfKind::Ellipse));
    let point = |temporary: bool| {
        Entity::Point(Point { base: base(), x: 0, y: 0, is_temporary: temporary, code: 0, angle: 0, scale: 0 })
    };
    assert_eq!(dxf_kind(&point(true)), None);
    assert_eq!(dxf_kind(&point(false)), Some(DxfKind::Point));
}

#[test]
fn default_document() {
    let doc = Document::default();
    assert_eq!(doc.layer_groups.len(), 16);
    assert!(doc.layer_groups.iter().all(|g| g.layers.len() == 16 && g.state == 2));
    assert_eq!(f64::from_bits(doc.layer_groups[0].scale), 1.0);
    assert!(doc.entities.is_empty());
}

#[test]
fn signed_numbers() {
    assert_eq!(to_signed_decimal_text(0), "0");
    assert_eq!(to_signed_decimal_text(42), "42");
    assert_eq!(to_signed_decimal_text(-7), "-7");
    assert_eq!(to_signed_decimal_text(i32::MIN), "-2147483648");
}

#[test]
fn layer_table_text() {
    let jww_doc = parse(&minimal_jww()).unwrap();
    let mut layers = convert_layers(&jww_doc);
    layers.truncate(2);
    layers[1].frozen = true;
    layers[1].locked = true;
    let text = write_tables(&layers);
    assert!(text.starts_with("0\nSECTION\n2\nHEADER\n0\nENDSEC\n0\nSECTION\n2\nTABLES\n0\nTABLE\n2\nLTYPE\n"));
    assert!(text.contains("0\nTABLE\n2\nLAYER\n70\n3\n0\nLAYER\n2\n0\n70\n0\n62\n7\n6\nCONTINUOUS\n"));
    assert!(text.contains("0\nLAYER\n2\n0-0\n70\n0\n62\n1\n6\nCONTINUOUS\n0\nLAYER\n2\n0-1\n"));
    assert!(text.ends_with("0\nLAYER\n2\n0-1\n70\n0\n62\n2\n6\nCONTINUOUS\n70\n1\n70\n4\n0\nENDTAB\n0\nENDSEC\n"));
}

#[test]
fn entity_head_text() {
    assert_eq!(
        write_entity_head("LINE", "0-0", 4, "DASHED"),
        "0\nLINE\n8\n0-0\n62\n4\n6\nDASHED\n"
    );
}

fn create_minimal_jww_data() -> Vec<u8> {
    let mut data = Vec::new();
    data.extend_from_slice(b"JwwData.");
    data.extend_from_slice(&600u32.to_le_bytes());
    data.push(0);
    data.extend_from_slice(&0u32.to_le_bytes());
    data.extend_from_slice(&0u32.to_le_bytes());
    for g in 0..16 {
        data.extend_from_slice(&2u32.to_le_bytes());
        data.extend_from_slice(&0u32.to_le_bytes());
        data.extend_from_slice(&1.0f64.to_le_bytes());
        let group_name = format!("Group{}", g);
        data.extend_from_slice((group_name.len() as u32).to_le_bytes().as_ref());
        data.extend_from_slice(group_name.as_bytes());
        data.extend_from_slice(&0u32.to_le_bytes());
        for l in 0..16 {
            data.extend_from_slice(&2u32.to_le_bytes());
            data.extend_from_slice(&0u32.to_le_bytes());
            let layer_name = format!("{}-{}", g, l);
            data.extend_from_slice((layer_name.len() as u32).to_le_bytes().as_ref());
            data.extend_from_slice(layer_name.as_bytes());
        }
    }
    data.extend_from_slice(&0u16.to_le_bytes());
    data.extend_from_slice(&0xFFFFu16.to_le_bytes());
    data.extend_from_slice(&600u16.to_le_bytes());
    data.extend_from_slice(&8u16.to_le_bytes());
    data.extend_from_slice(b"CDataXXXX");
    for _ in 0..100 {
        data.push(0);
    }
    data
}

#[test]
fn test_rust_parser_only_minimal() {
    let jww_data = create_minimal_jww_data();

    let jww_doc = parse(&jww_data).expect("parse failed");
    assert_eq!(jww_doc.version, 600);

    let layers = convert_layers(&jww_doc);
    let kinds: Vec<DxfKind> = jww_doc.entities.iter().filter_map(dxf_kind).collect();
    assert_eq!(layers.len(), 256);
    assert_eq!(kinds.len(), 0);

    let tables = write_tables(&layers);
    assert!(tables.contains("SECTION"));
    assert!(tables.contains("LAYER"));
}
