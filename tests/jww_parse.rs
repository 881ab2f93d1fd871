use jww::format::ClassKind;
use jww::{
    find_entity_list_offset, parse, parse_entity_base, parse_entity_list,
    parse_entity_with_pid_tracking, Entity, ParseError, Reader,
};

fn header(version: u32) -> Vec<u8> {
    let mut data = Vec::new();
    data.extend_from_slice(b"JwwData.");
    data.extend_from_slice(&version.to_le_bytes());
    data.push(0);
    data.extend_from_slice(&0u32.to_le_bytes());
    data.extend_from_slice(&0u32.to_le_bytes());
    for _ in 0..16 {
        data.extend_from_slice(&2u32.to_le_bytes());
        data.extend_from_slice(&0u32.to_le_bytes());
        data.extend_from_slice(&1.0f64.to_le_bytes());
        data.extend_from_slice(&0u32.to_le_bytes());
        for _ in 0..16 {
            data.extend_from_slice(&2u32.to_le_bytes());
            data.extend_from_slice(&0u32.to_le_bytes());
        }
    }
    data
}

fn new_class(data: &mut Vec<u8>, version: u32, name: &[u8]) {
    data.extend_from_slice(&0xFFFFu16.to_le_bytes());
    data.extend_from_slice(&(version as u16).to_le_bytes());
    data.extend_from_slice(&(name.len() as u16).to_le_bytes());
    data.extend_from_slice(name);
}

fn base(data: &mut Vec<u8>, version: u32, pen_style: u8, pen_color: u16) {
    data.extend_from_slice(&0u32.to_le_bytes());
    data.push(pen_style);
    data.extend_from_slice(&pen_color.to_le_bytes());
    if version >= 351 {
        data.extend_from_slice(&0u16.to_le_bytes());
    }
    data.extend_from_slice(&0u16.to_le_bytes());
    data.extend_from_slice(&0u16.to_le_bytes());
    data.extend_from_slice(&0u16.to_le_bytes());
}

fn doubles(data: &mut Vec<u8>, values: &[f64]) {
    for v in values {
        data.extend_from_slice(&v.to_le_bytes());
    }
}

fn pad(data: &mut Vec<u8>) {
    for _ in 0..100 {
        data.push(0);
    }
}

#[test]
fn test_invalid_signature() {
    let invalid_data = b"Invalid signature";
    let result = parse(invalid_data);
    assert!(result.is_err());
    match result {
        Err(ParseError::InvalidSignature) => {}
        _ => panic!("Expected InvalidSignature error"),
    }
}

#[test]
fn test_too_short_data() {
    let short_data = b"short";
    let result = parse(short_data);
    assert!(result.is_err());
    assert_eq!(result.err(), Some(ParseError::InvalidSignature));
}

#[test]
fn test_valid_jww_signature() {
    let mut data = header(600);
    data.extend_from_slice(&0u16.to_le_bytes());
    data.extend_from_slice(&0xFFFFu16.to_le_bytes());
    data.extend_from_slice(&600u16.to_le_bytes());
    data.extend_from_slice(&8u16.to_le_bytes());
    data.extend_from_slice(b"CDataXXXX");
    pad(&mut data);

    let result = parse(&data);
    assert!(result.is_ok(), "parse failed: {:?}", result.err());

    let doc = result.unwrap();
    assert_eq!(doc.version, 600);
    assert_eq!(doc.entities.len(), 0);
}

#[test]
fn minimal_document_has_default_names() {
    let mut data = header(600);
    data.extend_from_slice(&0u16.to_le_bytes());
    data.extend_from_slice(&0xFFFFu16.to_le_bytes());
    data.extend_from_slice(&600u16.to_le_bytes());
    data.extend_from_slice(&8u16.to_le_bytes());
    data.extend_from_slice(b"CDataXXXX");
    pad(&mut data);

    let doc = parse(&data).unwrap();
    assert_eq!(doc.layer_groups.len(), 16);
    assert!(doc.block_defs.is_empty());
    assert_eq!(doc.layer_groups[0].name, "Group0");
    assert_eq!(doc.layer_groups[10].name, "GroupA");
    assert_eq!(doc.layer_groups[15].name, "GroupF");
    for (g, group) in doc.layer_groups.iter().enumerate() {
        assert_eq!(group.layers.len(), 16);
        assert_eq!(group.state, 2);
        assert_eq!(f64::from_bits(group.scale), 1.0);
        assert_eq!(group.name, format!("Group{:X}", g));
        for (l, layer) in group.layers.iter().enumerate() {
            assert_eq!(layer.state, 2);
            assert_eq!(layer.name, format!("{:X}-{:X}", g, l));
        }
    }
    assert_eq!(doc.layer_groups[11].layers[12].name, "B-C");
}

#[test]
fn version_is_the_word_at_offset_eight() {
    let mut data = header(0x0001_0203);
    data.extend_from_slice(&0u16.to_le_bytes());
    data.extend_from_slice(&0xFFFFu16.to_le_bytes());
    data.extend_from_slice(&0x0203u16.to_le_bytes());
    data.extend_from_slice(&8u16.to_le_bytes());
    data.extend_from_slice(b"CDataXXX");
    pad(&mut data);
    assert_eq!(parse(&data).unwrap().version, 0x0001_0203);
}

#[test]
fn line_entity_round_trip() {
    let mut data = header(600);
    data.extend_from_slice(&1u16.to_le_bytes());
    new_class(&mut data, 600, b"CDataSen");
    base(&mut data, 600, 0, 1);
    doubles(&mut data, &[0.0, 0.0, 100.0, 50.0]);
    pad(&mut data);

    let doc = parse(&data).unwrap();
    assert_eq!(doc.entities.len(), 1);
    match &doc.entities[0] {
        Entity::Line(line) => {
            assert_eq!(f64::from_bits(line.start_x), 0.0);
            assert_eq!(f64::from_bits(line.start_y), 0.0);
            assert_eq!(f64::from_bits(line.end_x), 100.0);
            assert_eq!(f64::from_bits(line.end_y), 50.0);
            assert_eq!(line.base.pen_color, 1);
            assert_eq!(line.base.layer, 0);
            assert_eq!(line.base.layer_group, 0);
        }
        other => panic!("expected a line, got {:?}", other),
    }
}

#[test]
fn back_reference_resolution() {
    let mut data = header(600);
    data.extend_from_slice(&2u16.to_le_bytes());
    new_class(&mut data, 600, b"CDataSen");
    base(&mut data, 600, 0, 1);
    doubles(&mut data, &[1.0, 2.0, 3.0, 4.0]);
    data.extend_from_slice(&0x8001u16.to_le_bytes());
    base(&mut data, 600, 0, 2);
    doubles(&mut data, &[5.0, 6.0, 7.0, 8.0]);
    pad(&mut data);

    let doc = parse(&data).unwrap();
    assert_eq!(doc.entities.len(), 2);
    match (&doc.entities[0], &doc.entities[1]) {
        (Entity::Line(a), Entity::Line(b)) => {
            assert_eq!(f64::from_bits(a.start_x), 1.0);
            assert_eq!(f64::from_bits(a.end_y), 4.0);
            assert_eq!(f64::from_bits(b.start_x), 5.0);
            assert_eq!(f64::from_bits(b.end_y), 8.0);
            assert_eq!(b.base.pen_color, 2);
        }
        other => panic!("expected two lines, got {:?}", other),
    }
}

#[test]
fn null_object_skip() {
    // The stream itself: count 2, a null object, then a line.
    let mut data = Vec::new();
    data.extend_from_slice(&2u16.to_le_bytes());
    data.extend_from_slice(&0x8000u16.to_le_bytes());
    new_class(&mut data, 600, b"CDataSen");
    base(&mut data, 600, 0, 1);
    doubles(&mut data, &[0.0, 0.0, 10.0, 10.0]);
    let mut reader = Reader::new(&data);
    let entities = parse_entity_list(&mut reader, 600).unwrap();
    assert_eq!(entities.len(), 1);
    assert!(matches!(entities[0], Entity::Line(_)));
    assert_eq!(reader.bytes_read() as usize, data.len());
}

#[test]
fn null_object_in_a_file() {
    let mut data = header(600);
    data.extend_from_slice(&3u16.to_le_bytes());
    new_class(&mut data, 600, b"CDataSen");
    base(&mut data, 600, 0, 1);
    doubles(&mut data, &[0.0, 0.0, 10.0, 10.0]);
    data.extend_from_slice(&0x8000u16.to_le_bytes());
    data.extend_from_slice(&0x8001u16.to_le_bytes());
    base(&mut data, 600, 0, 1);
    doubles(&mut data, &[1.0, 1.0, 10.0, 10.0]);
    pad(&mut data);
    let doc = parse(&data).unwrap();
    assert_eq!(doc.entities.len(), 2);
}

#[test]
fn null_object_takes_a_pid() {
    let data = 0x8000u16.to_le_bytes();
    let mut reader = Reader::new(&data);
    let mut table: Vec<Option<ClassKind>> = Vec::new();
    let mut next_pid: u32 = 1;
    let r = parse_entity_with_pid_tracking(&mut reader, 600, &mut table, &mut next_pid);
    assert_eq!(r, Ok(None));
    assert_eq!(next_pid, 2);
    assert!(table.is_empty());
}

#[test]
fn refused_records_leave_the_table() {
    let mut table: Vec<Option<ClassKind>> = vec![None, Some(ClassKind::Line)];
    let mut next_pid: u32 = 3;

    let data = 0x8007u16.to_le_bytes();
    let mut reader = Reader::new(&data);
    let r = parse_entity_with_pid_tracking(&mut reader, 600, &mut table, &mut next_pid);
    assert_eq!(r, Err(ParseError::UnknownClassPid(7)));
    assert_eq!(reader.bytes_read(), 2);

    let mut data = Vec::new();
    new_class(&mut data, 600, b"CDataFoo");
    data.extend_from_slice(&[0u8; 16]);
    let mut reader = Reader::new(&data);
    let r = parse_entity_with_pid_tracking(&mut reader, 600, &mut table, &mut next_pid);
    assert_eq!(r, Err(ParseError::UnknownEntityClass("CDataFoo".to_string())));
    assert_eq!(reader.bytes_read(), 14);

    assert_eq!(table, vec![None, Some(ClassKind::Line)]);
    assert_eq!(next_pid, 3);
}

#[test]
fn stream_ends_after_the_last_record() {
    let mut data = Vec::new();
    data.extend_from_slice(&1u16.to_le_bytes());
    new_class(&mut data, 600, b"CDataSen");
    base(&mut data, 600, 0, 1);
    doubles(&mut data, &[0.0, 0.0, 1.0, 1.0]);
    let end = data.len();
    data.extend_from_slice(&[0xAAu8; 10]);
    let mut reader = Reader::new(&data);
    assert_eq!(parse_entity_list(&mut reader, 600).unwrap().len(), 1);
    assert_eq!(reader.bytes_read() as usize, end);
}

#[test]
fn class_definition_binds_its_pid() {
    let mut data = Vec::new();
    new_class(&mut data, 600, b"CDataSen");
    base(&mut data, 600, 0, 1);
    doubles(&mut data, &[0.0, 0.0, 1.0, 1.0]);
    let mut reader = Reader::new(&data);
    let mut table: Vec<Option<ClassKind>> = Vec::new();
    let mut next_pid: u32 = 1;
    let r = parse_entity_with_pid_tracking(&mut reader, 600, &mut table, &mut next_pid).unwrap();
    assert!(matches!(r, Some(Entity::Line(_))));
    assert_eq!(table, vec![None, Some(ClassKind::Line)]);
    assert_eq!(next_pid, 3);
}

#[test]
fn unknown_pid_is_refused() {
    let mut data = header(600);
    data.extend_from_slice(&2u16.to_le_bytes());
    new_class(&mut data, 600, b"CDataSen");
    base(&mut data, 600, 0, 1);
    doubles(&mut data, &[0.0, 0.0, 10.0, 10.0]);
    data.extend_from_slice(&0x8005u16.to_le_bytes());
    pad(&mut data);
    assert_eq!(parse(&data).err(), Some(ParseError::UnknownClassPid(5)));
}

#[test]
fn unknown_class_is_refused() {
    let mut data = header(600);
    data.extend_from_slice(&1u16.to_le_bytes());
    new_class(&mut data, 600, b"CDataFoo");
    pad(&mut data);
    assert_eq!(
        parse(&data).err(),
        Some(ParseError::UnknownEntityClass("CDataFoo".to_string()))
    );
}

#[test]
fn unknown_class_name_is_read_leniently() {
    let mut data = header(600);
    data.extend_from_slice(&1u16.to_le_bytes());
    new_class(&mut data, 600, b"CData\xFFxyz");
    pad(&mut data);
    assert_eq!(
        parse(&data).err(),
        Some(ParseError::UnknownEntityClass("CData\u{FFFD}xyz".to_string()))
    );
}

#[test]
fn missing_entity_list() {
    let mut data = header(600);
    pad(&mut data);
    assert_eq!(parse(&data).err(), Some(ParseError::EntityListNotFound));
}

#[test]
fn truncated_header() {
    let data = header(600);
    assert_eq!(parse(&data[..200]).err(), Some(ParseError::Io));
}

#[test]
fn truncated_entity() {
    let mut data = header(600);
    data.extend_from_slice(&1u16.to_le_bytes());
    new_class(&mut data, 600, b"CDataEnko");
    for _ in 0..21 {
        data.push(0);
    }
    assert_eq!(parse(&data).err(), Some(ParseError::Io));
}

#[test]
fn locator_finds_the_count_word() {
    let mut data = header(600);
    let count_at = data.len();
    data.extend_from_slice(&0u16.to_le_bytes());
    new_class(&mut data, 600, b"CDataSen");
    pad(&mut data);
    assert_eq!(find_entity_list_offset(&data, 600), Some(count_at));
    assert_eq!(find_entity_list_offset(&data, 601), None);
}

#[test]
fn pen_width_before_version_351() {
    let data = [1u8, 0, 0, 0, 2, 3, 0, 4, 0, 5, 0, 6, 0, 7, 0];
    let mut reader = Reader::new(&data);
    let b = parse_entity_base(&mut reader, 350).unwrap();
    assert_eq!(reader.bytes_read(), 13);
    assert_eq!((b.group, b.pen_style, b.pen_color, b.pen_width), (1, 2, 3, 0));
    assert_eq!((b.layer, b.layer_group, b.flag), (4, 5, 6));
}

#[test]
fn pen_width_from_version_351() {
    let data = [1u8, 0, 0, 0, 2, 3, 0, 4, 0, 5, 0, 6, 0, 7, 0];
    let mut reader = Reader::new(&data);
    let b = parse_entity_base(&mut reader, 351).unwrap();
    assert_eq!(reader.bytes_read(), 15);
    assert_eq!((b.group, b.pen_style, b.pen_color, b.pen_width), (1, 2, 3, 4));
    assert_eq!((b.layer, b.layer_group, b.flag), (5, 6, 7));
}

fn one_entity_file(class: &[u8], body: &[u8]) -> Vec<u8> {
    let mut data = header(600);
    data.extend_from_slice(&1u16.to_le_bytes());
    new_class(&mut data, 600, class);
    data.extend_from_slice(body);
    pad(&mut data);
    data
}

#[test]
fn point_with_marker_fields() {
    let mut body = Vec::new();
    base(&mut body, 600, 100, 1);
    doubles(&mut body, &[3.0, 4.0]);
    body.extend_from_slice(&0u32.to_le_bytes());
    body.extend_from_slice(&9u32.to_le_bytes());
    doubles(&mut body, &[0.5, 2.0]);
    let doc = parse(&one_entity_file(b"CDataTen", &body)).unwrap();
    match &doc.entities[0] {
        Entity::Point(p) => {
            assert_eq!(f64::from_bits(p.x), 3.0);
            assert_eq!(p.code, 9);
            assert_eq!(f64::from_bits(p.angle), 0.5);
            assert_eq!(f64::from_bits(p.scale), 2.0);
            assert!(!p.is_temporary);
        }
        other => panic!("expected a point, got {:?}", other),
    }
}

#[test]
fn point_without_marker_fields() {
    let mut body = Vec::new();
    base(&mut body, 600, 1, 1);
    doubles(&mut body, &[3.0, 4.0]);
    body.extend_from_slice(&1u32.to_le_bytes());
    let data = one_entity_file(b"CDataTen", &body);
    let doc = parse(&data).unwrap();
    match &doc.entities[0] {
        Entity::Point(p) => {
            assert_eq!(f64::from_bits(p.y), 4.0);
            assert_eq!(p.code, 0);
            assert_eq!(f64::from_bits(p.angle), 0.0);
            assert_eq!(f64::from_bits(p.scale), 1.0);
            assert!(p.is_temporary);
        }
        other => panic!("expected a point, got {:?}", other),
    }
}

#[test]
fn solid_with_colour() {
    let mut body = Vec::new();
    base(&mut body, 600, 0, 10);
    doubles(&mut body, &[1.0, 2.0, 7.0, 8.0, 3.0, 4.0, 5.0, 6.0]);
    body.extend_from_slice(&0x00FF_00FFu32.to_le_bytes());
    let doc = parse(&one_entity_file(b"CDataSolid", &body)).unwrap();
    match &doc.entities[0] {
        Entity::Solid(s) => {
            assert_eq!(s.color, 0x00FF_00FF);
            assert_eq!(f64::from_bits(s.point1_x), 1.0);
            assert_eq!(f64::from_bits(s.point2_x), 3.0);
            assert_eq!(f64::from_bits(s.point3_x), 5.0);
            assert_eq!(f64::from_bits(s.point4_x), 7.0);
            assert_eq!(f64::from_bits(s.point4_y), 8.0);
        }
        other => panic!("expected a solid, got {:?}", other),
    }
}

#[test]
fn solid_without_colour() {
    let mut data = header(600);
    data.extend_from_slice(&2u16.to_le_bytes());
    new_class(&mut data, 600, b"CDataSolid");
    base(&mut data, 600, 0, 3);
    doubles(&mut data, &[1.0, 2.0, 7.0, 8.0, 3.0, 4.0, 5.0, 6.0]);
    new_class(&mut data, 600, b"CDataSen");
    base(&mut data, 600, 0, 1);
    doubles(&mut data, &[9.0, 9.0, 10.0, 10.0]);
    pad(&mut data);
    let doc = parse(&data).unwrap();
    assert_eq!(doc.entities.len(), 2);
    match &doc.entities[0] {
        Entity::Solid(s) => assert_eq!(s.color, 0),
        other => panic!("expected a solid, got {:?}", other),
    }
    match &doc.entities[1] {
        Entity::Line(l) => assert_eq!(f64::from_bits(l.start_x), 9.0),
        other => panic!("expected a line, got {:?}", other),
    }
}

#[test]
fn point_without_marker_keeps_alignment() {
    let mut data = header(300);
    data.extend_from_slice(&2u16.to_le_bytes());
    new_class(&mut data, 300, b"CDataTen");
    base(&mut data, 300, 5, 1);
    doubles(&mut data, &[3.0, 4.0]);
    data.extend_from_slice(&0u32.to_le_bytes());
    data.extend_from_slice(&0x8001u16.to_le_bytes());
    base(&mut data, 300, 100, 1);
    doubles(&mut data, &[5.0, 6.0]);
    data.extend_from_slice(&0u32.to_le_bytes());
    data.extend_from_slice(&4u32.to_le_bytes());
    doubles(&mut data, &[0.25, 3.0]);
    pad(&mut data);
    let doc = parse(&data).unwrap();
    assert_eq!(doc.entities.len(), 2);
    match (&doc.entities[0], &doc.entities[1]) {
        (Entity::Point(a), Entity::Point(b)) => {
            assert_eq!(a.base.pen_width, 0);
            assert_eq!(a.code, 0);
            assert_eq!(f64::from_bits(b.x), 5.0);
            assert_eq!(b.code, 4);
            assert_eq!(f64::from_bits(b.scale), 3.0);
        }
        other => panic!("expected two points, got {:?}", other),
    }
}

#[test]
fn arc_text_block_and_dimension() {
    let mut data = header(420);
    data.extend_from_slice(&4u16.to_le_bytes());
    new_class(&mut data, 420, b"CDataEnko");
    base(&mut data, 420, 0, 1);
    doubles(&mut data, &[1.0, 2.0, 3.0, 0.0, 6.0, 0.0, 1.0]);
    data.extend_from_slice(&1u32.to_le_bytes());
    new_class(&mut data, 420, b"CDataMoji");
    base(&mut data, 420, 0, 1);
    doubles(&mut data, &[1.0, 2.0, 3.0, 4.0]);
    data.extend_from_slice(&0u32.to_le_bytes());
    doubles(&mut data, &[2.5, 2.5, 0.0, 0.0]);
    data.extend_from_slice(&[2, b'M', b'S']);
    data.extend_from_slice(&[3, b'a', b'b', 0]);
    new_class(&mut data, 420, b"CDataSunpou");
    base(&mut data, 420, 0, 1);
    base(&mut data, 420, 0, 1);
    doubles(&mut data, &[0.0; 4]);
    base(&mut data, 420, 0, 1);
    doubles(&mut data, &[0.0; 4]);
    data.extend_from_slice(&0u32.to_le_bytes());
    doubles(&mut data, &[0.0; 4]);
    data.extend_from_slice(&[0, 1, b'x']);
    data.extend_from_slice(&0u16.to_le_bytes());
    for _ in 0..2 {
        base(&mut data, 420, 0, 1);
        doubles(&mut data, &[0.0; 4]);
    }
    for _ in 0..4 {
        base(&mut data, 420, 0, 1);
        doubles(&mut data, &[0.0; 2]);
        data.extend_from_slice(&0u32.to_le_bytes());
    }
    new_class(&mut data, 420, b"CDataBlock");
    base(&mut data, 420, 0, 1);
    doubles(&mut data, &[1.0, 2.0, 1.0, 1.0, 0.0]);
    data.extend_from_slice(&7u32.to_le_bytes());
    pad(&mut data);

    let doc = parse(&data).unwrap();
    assert_eq!(doc.entities.len(), 3);
    match &doc.entities[0] {
        Entity::Arc(a) => {
            assert!(a.is_full_circle);
            assert_eq!(f64::from_bits(a.radius), 3.0);
            assert_eq!(doc.entities[0].dxf_type_name(), "CIRCLE");
        }
        other => panic!("expected an arc, got {:?}", other),
    }
    match &doc.entities[1] {
        Entity::Text(t) => {
            assert_eq!(t.font_name, "MS");
            assert_eq!(t.content, "ab");
            assert_eq!(f64::from_bits(t.size_y), 2.5);
        }
        other => panic!("expected a text, got {:?}", other),
    }
    match &doc.entities[2] {
        Entity::Block(b) => assert_eq!(b.def_number, 7),
        other => panic!("expected a block, got {:?}", other),
    }
}

#[test]
fn parse_is_deterministic() {
    let mut data = header(600);
    data.extend_from_slice(&1u16.to_le_bytes());
    new_class(&mut data, 600, b"CDataSen");
    base(&mut data, 600, 0, 1);
    doubles(&mut data, &[0.0, 0.0, 100.0, 50.0]);
    pad(&mut data);
    assert_eq!(parse(&data), parse(&data));
}
