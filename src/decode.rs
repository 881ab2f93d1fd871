//! The decoder: entity records, the entity stream, the scan for the entity
//! list, and the whole file.
use vstd::prelude::*;

use crate::document::{group_name, layer_name, Document, Layer, LayerGroup};
use crate::error::ParseError;
use crate::format::{
    base_len, bind, body_at, class_kind, dimension_end, dimension_tail_len, entity_base_at,
    entity_list_start, entity_stream_at, first_marker_from, layer_group_at, layer_groups_at,
    list_marker_at, lookup, parse_spec, push_entity, record_at, records_from, stream_start,
    utf8_lossy_text, ClassKind, StreamState, DIMENSION_TAIL_VERSION, GROUP_LEN, NEW_CLASS,
    NULL_OBJECT, ONE_BITS, PEN_WIDTH_VERSION, SCAN_MARGIN, SCAN_START,
};
use crate::reader::{fits, Reader};
use crate::types::{
    entities_view, Arc, Block, Entity, EntityBase, EntityView, Line, Point, Solid, Text,
};

verus! {

/// The value of an optional entity.
pub open spec fn opt_entity_view(e: Option<Entity>) -> Option<EntityView> {
    match e {
        Some(x) => Some(x@),
        None => None,
    }
}

/// Reads the attributes shared by every entity; the line width is read only
/// from version 351 on.
pub fn parse_entity_base(reader: &mut Reader, version: u32) -> (r: Result<EntityBase, ParseError>)
    ensures
        final(reader).data() == old(reader).data(),
        fits(old(reader).data(), old(reader).pos(), base_len(version)) ==> r == Ok::<
            EntityBase,
            ParseError,
        >(entity_base_at(old(reader).data(), old(reader).pos(), version)) && final(reader).pos()
            == old(reader).pos() + base_len(version),
        !fits(old(reader).data(), old(reader).pos(), base_len(version)) ==> r == Err::<
            EntityBase,
            ParseError,
        >(ParseError::Io),
{
    let group = reader.read_dword()?;
    let pen_style = reader.read_byte()?;
    let pen_color = reader.read_word()?;
    let pen_width = if version >= PEN_WIDTH_VERSION {
        reader.read_word()?
    } else {
        0
    };
    let layer = reader.read_word()?;
    let layer_group = reader.read_word()?;
    let flag = reader.read_word()?;
    Ok(EntityBase { group, pen_style, pen_color, pen_width, layer, layer_group, flag })
}

/// Reads a line record.
fn parse_line(reader: &mut Reader, version: u32) -> (r: Result<Entity, ParseError>)
    ensures
        final(reader).data() == old(reader).data(),
        match body_at(ClassKind::Line, old(reader).data(), old(reader).pos(), version) {
            Some((e, q)) => r is Ok && e == Some(r->Ok_0@) && final(reader).pos() == q,
            None => r == Err::<Entity, ParseError>(ParseError::Io),
        },
{
    let base = parse_entity_base(reader, version)?;
    let start_x = reader.read_double()?;
    let start_y = reader.read_double()?;
    let end_x = reader.read_double()?;
    let end_y = reader.read_double()?;
    Ok(Entity::Line(Line { base, start_x, start_y, end_x, end_y }))
}

/// Reads an arc record.
fn parse_arc(reader: &mut Reader, version: u32) -> (r: Result<Entity, ParseError>)
    ensures
        final(reader).data() == old(reader).data(),
        match body_at(ClassKind::Arc, old(reader).data(), old(reader).pos(), version) {
            Some((e, q)) => r is Ok && e == Some(r->Ok_0@) && final(reader).pos() == q,
            None => r == Err::<Entity, ParseError>(ParseError::Io),
        },
{
    let base = parse_entity_base(reader, version)?;
    let center_x = reader.read_double()?;
    let center_y = reader.read_double()?;
    let radius = reader.read_double()?;
    let start_angle = reader.read_double()?;
    let arc_angle = reader.read_double()?;
    let tilt_angle = reader.read_double()?;
    let flatness = reader.read_double()?;
    let full_circle = reader.read_dword()?;
    Ok(
        Entity::Arc(
            Arc {
                base,
                center_x,
                center_y,
                radius,
                start_angle,
                arc_angle,
                tilt_angle,
                flatness,
                is_full_circle: full_circle != 0,
            },
        ),
    )
}

/// Reads a point record; the marker fields follow only for line style 100.
fn parse_point(reader: &mut Reader, version: u32) -> (r: Result<Entity, ParseError>)
    ensures
        final(reader).data() == old(reader).data(),
        match body_at(ClassKind::Point, old(reader).data(), old(reader).pos(), version) {
            Some((e, q)) => r is Ok && e == Some(r->Ok_0@) && final(reader).pos() == q,
            None => r == Err::<Entity, ParseError>(ParseError::Io),
        },
{
    let base = parse_entity_base(reader, version)?;
    let x = reader.read_double()?;
    let y = reader.read_double()?;
    let tmp = reader.read_dword()?;
    let mut code: u32 = 0;
    let mut angle: u64 = 0;
    let mut scale: u64 = ONE_BITS;
    if base.pen_style == 100 {
        code = reader.read_dword()?;
        angle = reader.read_double()?;
        scale = reader.read_double()?;
    }
    Ok(Entity::Point(Point { base, x, y, is_temporary: tmp != 0, code, angle, scale }))
}

/// Reads a text record.
fn parse_text(reader: &mut Reader, version: u32) -> (r: Result<Entity, ParseError>)
    ensures
        final(reader).data() == old(reader).data(),
        match body_at(ClassKind::Text, old(reader).data(), old(reader).pos(), version) {
            Some((e, q)) => r is Ok && e == Some(r->Ok_0@) && final(reader).pos() == q,
            None => r == Err::<Entity, ParseError>(ParseError::Io),
        },
{
    let base = parse_entity_base(reader, version)?;
    let start_x = reader.read_double()?;
    let start_y = reader.read_double()?;
    let end_x = reader.read_double()?;
    let end_y = reader.read_double()?;
    let text_type = reader.read_dword()?;
    let size_x = reader.read_double()?;
    let size_y = reader.read_double()?;
    let spacing = reader.read_double()?;
    let angle = reader.read_double()?;
    let font_name = reader.read_cstring()?;
    let content = reader.read_cstring()?;
    Ok(
        Entity::Text(
            Text {
                base,
                start_x,
                start_y,
                end_x,
                end_y,
                text_type,
                size_x,
                size_y,
                spacing,
                angle,
                font_name,
                content,
            },
        ),
    )
}

/// Reads a solid record; the colour word follows only for line colour 10.
fn parse_solid(reader: &mut Reader, version: u32) -> (r: Result<Entity, ParseError>)
    ensures
        final(reader).data() == old(reader).data(),
        match body_at(ClassKind::Solid, old(reader).data(), old(reader).pos(), version) {
            Some((e, q)) => r is Ok && e == Some(r->Ok_0@) && final(reader).pos() == q,
            None => r == Err::<Entity, ParseError>(ParseError::Io),
        },
{
    let base = parse_entity_base(reader, version)?;
    let point1_x = reader.read_double()?;
    let point1_y = reader.read_double()?;
    let point4_x = reader.read_double()?;
    let point4_y = reader.read_double()?;
    let point2_x = reader.read_double()?;
    let point2_y = reader.read_double()?;
    let point3_x = reader.read_double()?;
    let point3_y = reader.read_double()?;
    let mut color: u32 = 0;
    if base.pen_color == 10 {
        color = reader.read_dword()?;
    }
    Ok(
        Entity::Solid(
            Solid {
                base,
                point1_x,
                point1_y,
                point2_x,
                point2_y,
                point3_x,
                point3_y,
                point4_x,
                point4_y,
                color,
            },
        ),
    )
}

/// Reads a block reference record.
fn parse_block(reader: &mut Reader, version: u32) -> (r: Result<Entity, ParseError>)
    ensures
        final(reader).data() == old(reader).data(),
        match body_at(ClassKind::Block, old(reader).data(), old(reader).pos(), version) {
            Some((e, q)) => r is Ok && e == Some(r->Ok_0@) && final(reader).pos() == q,
            None => r == Err::<Entity, ParseError>(ParseError::Io),
        },
{
    let base = parse_entity_base(reader, version)?;
    let ref_x = reader.read_double()?;
    let ref_y = reader.read_double()?;
    let scale_x = reader.read_double()?;
    let scale_y = reader.read_double()?;
    let rotation = reader.read_double()?;
    let def_number = reader.read_dword()?;
    Ok(Entity::Block(Block { base, ref_x, ref_y, scale_x, scale_y, rotation, def_number }))
}

/// Reads a member of a dimension: the shared attributes and `n` more bytes.
fn skip_member(reader: &mut Reader, version: u32, n: usize) -> (r: Result<(), ParseError>)
    ensures
        final(reader).data() == old(reader).data(),
        fits(old(reader).data(), old(reader).pos(), base_len(version) + n) ==> r is Ok
            && final(reader).pos() == old(reader).pos() + base_len(version) + n,
        !fits(old(reader).data(), old(reader).pos(), base_len(version) + n) ==> r == Err::<
            (),
            ParseError,
        >(ParseError::Io),
{
    parse_entity_base(reader, version)?;
    reader.skip(n)
}

/// Reads a dimension record in full and keeps nothing of it.
fn skip_dimension(reader: &mut Reader, version: u32) -> (r: Result<(), ParseError>)
    ensures
        final(reader).data() == old(reader).data(),
        match dimension_end(old(reader).data(), old(reader).pos(), version) {
            Some(q) => r is Ok && final(reader).pos() == q,
            None => r == Err::<(), ParseError>(ParseError::Io),
        },
{
    // its own attributes
    parse_entity_base(reader, version)?;
    // the line member: attributes, start and end points
    parse_entity_base(reader, version)?;
    reader.skip(32)?;
    // the text member: attributes, fixed fields, font name and content
    parse_entity_base(reader, version)?;
    reader.skip(68)?;
    reader.read_cstring()?;
    reader.read_cstring()?;
    if version >= DIMENSION_TAIL_VERSION {
        reader.read_word()?;
        // two line members, then four point members
        skip_member(reader, version, 32)?;
        skip_member(reader, version, 32)?;
        skip_member(reader, version, 20)?;
        skip_member(reader, version, 20)?;
        skip_member(reader, version, 20)?;
        skip_member(reader, version, 20)?;
    }
    Ok(())
}

/// Relies on `String::from_utf8_lossy`: the text depends on the bytes alone,
/// and valid UTF-8 comes back as the characters it encodes.
#[verifier::external_body]
fn text_from_utf8_lossy(b: &[u8]) -> (r: String)
    ensures
        r@ == utf8_lossy_text(b@),
        vstd::utf8::valid_utf8(b@) ==> r@ == vstd::utf8::decode_utf8(b@),
{
    String::from_utf8_lossy(b).into_owned()
}

/// The class a class name stands for, if the decoder knows it.
pub fn class_kind_of(name: &String) -> (r: Option<ClassKind>)
    ensures
        r == class_kind(name@),
{
    if name.eq(&String::from_str("CDataSen")) {
        Some(ClassKind::Line)
    } else if name.eq(&String::from_str("CDataEnko")) {
        Some(ClassKind::Arc)
    } else if name.eq(&String::from_str("CDataTen")) {
        Some(ClassKind::Point)
    } else if name.eq(&String::from_str("CDataMoji")) {
        Some(ClassKind::Text)
    } else if name.eq(&String::from_str("CDataSolid")) {
        Some(ClassKind::Solid)
    } else if name.eq(&String::from_str("CDataBlock")) {
        Some(ClassKind::Block)
    } else if name.eq(&String::from_str("CDataSunpou")) {
        Some(ClassKind::Dimension)
    } else {
        None
    }
}

/// Reads the body of a record of class `kind`.
pub fn parse_entity_body(kind: ClassKind, reader: &mut Reader, version: u32) -> (r: Result<
    Option<Entity>,
    ParseError,
>)
    ensures
        final(reader).data() == old(reader).data(),
        match body_at(kind, old(reader).data(), old(reader).pos(), version) {
            Some((e, q)) => r is Ok && opt_entity_view(r->Ok_0) == e && final(reader).pos() == q,
            None => r == Err::<Option<Entity>, ParseError>(ParseError::Io),
        },
{
    match kind {
        ClassKind::Line => Ok(Some(parse_line(reader, version)?)),
        ClassKind::Arc => Ok(Some(parse_arc(reader, version)?)),
        ClassKind::Point => Ok(Some(parse_point(reader, version)?)),
        ClassKind::Text => Ok(Some(parse_text(reader, version)?)),
        ClassKind::Solid => Ok(Some(parse_solid(reader, version)?)),
        ClassKind::Block => Ok(Some(parse_block(reader, version)?)),
        ClassKind::Dimension => {
            skip_dimension(reader, version)?;
            Ok(None)
        },
    }
}

/// Binds identifier `pid` to class `k`, leaving the identifiers between the
/// table's end and `pid` unbound.
fn bind_class(table: &mut Vec<Option<ClassKind>>, pid: u32, k: ClassKind)
    requires
        old(table)@.len() <= pid,
    ensures
        final(table)@ == bind(old(table)@, pid as int, k),
{
    while table.len() < pid as usize
        invariant
            old(table)@.len() <= table@.len() <= pid,
            forall|i: int|
                0 <= i < table@.len() ==> #[trigger] table@[i] == if i < old(table)@.len() {
                    old(table)@[i]
                } else {
                    None
                },
        decreases pid - table@.len(),
    {
        table.push(None);
    }
    table.push(Some(k));
    assert(table@ =~= bind(old(table)@, pid as int, k));
}

/// Reads one record of the entity stream (see [`record_at`]), keeping the
/// class table and the next persistence identifier up to date.
#[verifier::rlimit(30)]
pub fn parse_entity_with_pid_tracking(
    reader: &mut Reader,
    version: u32,
    pid_to_class: &mut Vec<Option<ClassKind>>,
    next_pid: &mut u32,
) -> (r: Result<Option<Entity>, ParseError>)
    requires
        old(pid_to_class)@.len() <= *old(next_pid),
        *old(next_pid) <= u32::MAX - 2,
    ensures
        final(reader).data() == old(reader).data(),
        match record_at(
            old(reader).data(),
            version,
            old(reader).pos(),
            old(pid_to_class)@,
            *old(next_pid) as int,
        ) {
            Ok(rec) => r is Ok && opt_entity_view(r->Ok_0) == rec.entity && final(reader).pos()
                == rec.pos && final(pid_to_class)@ == rec.table && *final(next_pid)
                == rec.next_pid,
            Err(e) => r is Err && r->Err_0@ == e,
        },
        r is Ok ==> *final(next_pid) <= *old(next_pid) + 2,
        // the table only grows, whatever the outcome
        *old(next_pid) <= *final(next_pid),
        old(pid_to_class)@.len() <= final(pid_to_class)@.len() <= *final(next_pid),
        forall|i: int|
            0 <= i < old(pid_to_class)@.len() ==> #[trigger] final(pid_to_class)@[i] == old(
                pid_to_class,
            )@[i],
        // a refused class leaves the table alone and reads only the record header
        r is Err && (r->Err_0 is UnknownClassPid || r->Err_0 is UnknownEntityClass) ==> {
            &&& final(pid_to_class)@ == old(pid_to_class)@
            &&& *final(next_pid) == *old(next_pid)
            &&& r->Err_0 is UnknownClassPid ==> final(reader).pos() == old(reader).pos() + 2
            &&& r->Err_0 is UnknownEntityClass ==> final(reader).pos() == old(reader).pos() + 6
                + crate::reader::u16_at(old(reader).data(), old(reader).pos() + 4)
        },
{
    reveal(record_at);
    let class_id = reader.read_word()?;
    let kind = if class_id == NEW_CLASS {
        let _schema = reader.read_word()?;
        let name_len = reader.read_word()?;
        let name_buf = reader.read_exact(name_len as usize)?;
        let class_name = text_from_utf8_lossy(name_buf.as_slice());
        let kind = match class_kind_of(&class_name) {
            Some(k) => k,
            None => return Err(ParseError::UnknownEntityClass(class_name)),
        };
        bind_class(pid_to_class, *next_pid, kind);
        *next_pid = *next_pid + 1;
        kind
    } else if class_id == NULL_OBJECT {
        *next_pid = *next_pid + 1;
        return Ok(None);
    } else {
        let class_pid = class_id % 0x8000;
        let found = if (class_pid as usize) < pid_to_class.len() {
            pid_to_class[class_pid as usize]
        } else {
            None
        };
        match found {
            Some(k) => k,
            None => return Err(ParseError::UnknownClassPid(class_pid as u32)),
        }
    };
    let entity = parse_entity_body(kind, reader, version)?;
    *next_pid = *next_pid + 1;
    Ok(entity)
}

/// Reads the entity stream (see [`entity_stream_at`]): a count word, then
/// that many records; null objects and dimensions give no entity.
pub fn parse_entity_list(reader: &mut Reader, version: u32) -> (r: Result<Vec<Entity>, ParseError>)
    ensures
        final(reader).data() == old(reader).data(),
        match entity_stream_at(old(reader).data(), version, old(reader).pos()) {
            Ok(es) => r is Ok && entities_view(r->Ok_0@) == es,
            Err(e) => r is Err && r->Err_0@ == e,
        },
        // on success the reader stands right after the last counted record
        r is Ok ==> final(reader).pos() == records_from(
            old(reader).data(),
            version,
            crate::reader::u16_at(old(reader).data(), old(reader).pos()) as nat,
            stream_start(old(reader).pos()),
        )->Ok_0.pos,
{
    let ghost d = reader.data();
    let ghost p = reader.pos();
    let count = reader.read_word()?;
    let mut entities: Vec<Entity> = Vec::with_capacity(count as usize);
    let mut pid_to_class: Vec<Option<ClassKind>> = Vec::new();
    let mut next_pid: u32 = 1;
    let mut i: u16 = 0;
    assert(entities_view(entities@) =~= Seq::<EntityView>::empty());
    assert(pid_to_class@ =~= Seq::<Option<ClassKind>>::empty());
    while i < count
        invariant
            i <= count,
            count == crate::reader::u16_at(d, p),
            fits(d, p, 2),
            reader.data() == d,
            d == old(reader).data(),
            p == old(reader).pos(),
            next_pid <= 1 + 2 * i,
            pid_to_class@.len() <= next_pid,
            records_from(d, version, count as nat, stream_start(p)) == records_from(
                d,
                version,
                (count - i) as nat,
                StreamState {
                    pos: reader.pos(),
                    table: pid_to_class@,
                    next_pid: next_pid as int,
                    entities: entities_view(entities@),
                },
            ),
        decreases count - i,
    {
        let ghost before = StreamState {
            pos: reader.pos(),
            table: pid_to_class@,
            next_pid: next_pid as int,
            entities: entities_view(entities@),
        };
        let found = parse_entity_with_pid_tracking(reader, version, &mut pid_to_class, &mut next_pid);
        assert(records_from(d, version, (count - i) as nat, before) == match record_at(
            d,
            version,
            before.pos,
            before.table,
            before.next_pid,
        ) {
            Err(e) => Err(e),
            Ok(rec) => records_from(
                d,
                version,
                (count - i - 1) as nat,
                StreamState {
                    pos: rec.pos,
                    table: rec.table,
                    next_pid: rec.next_pid,
                    entities: push_entity(before.entities, rec.entity),
                },
            ),
        });
        match found {
            Ok(Some(entity)) => {
                let ghost v = entity@;
                entities.push(entity);
                assert(entities_view(entities@) =~= push_entity(before.entities, Some(v)));
            },
            Ok(None) => {},
            Err(e) => {
                return Err(e);
            },
        }
        i = i + 1;
    }
    Ok(entities)
}

/// Finds where the entity list starts (see [`entity_list_start`]).
pub fn find_entity_list_offset(data: &[u8], version: u32) -> (r: Option<usize>)
    ensures
        match r {
            Some(o) => entity_list_start(data@, version) == Some(o as int) && o + 22 < data@.len(),
            None => entity_list_start(data@, version) is None,
        },
{
    let lo = (version % 0x100) as u8;
    let hi = ((version / 0x100) % 0x100) as u8;
    let len = data.len();
    let end = if len > SCAN_MARGIN {
        len - SCAN_MARGIN
    } else {
        0
    };
    let mut i: usize = SCAN_START;
    while i < end
        invariant
            SCAN_START <= i,
            len == data@.len(),
            end == (if len > SCAN_MARGIN {
                len - SCAN_MARGIN
            } else {
                0
            }),
            lo == (version % 0x100) as u8,
            hi == ((version / 0x100) % 0x100) as u8,
            first_marker_from(data@, version, SCAN_START as int) == first_marker_from(
                data@,
                version,
                i as int,
            ),
        decreases end - i,
    {
        if data[i] == 0xFF && data[i + 1] == 0xFF && data[i + 2] == lo && data[i + 3] == hi {
            let name_len = data[i + 4] as usize + data[i + 5] as usize * 0x100;
            if name_len >= 8 && name_len <= 20 && name_len <= len - i - 6 {
                if data[i + 6] == 0x43 && data[i + 7] == 0x44 && data[i + 8] == 0x61 && data[i + 9]
                    == 0x74 && data[i + 10] == 0x61 {
                    assert(list_marker_at(data@, i as int, version));
                    return Some(i - 2);
                }
            }
        }
        assert(!list_marker_at(data@, i as int, version));
        i = i + 1;
    }
    None
}

/// Reads layer group `g`: state, written layer, scale, protection, and
/// sixteen layers of state and protection.
fn read_layer_group(reader: &mut Reader, g: usize) -> (r: Result<LayerGroup, ParseError>)
    requires
        g < 16,
    ensures
        final(reader).data() == old(reader).data(),
        fits(old(reader).data(), old(reader).pos(), GROUP_LEN as int) ==> r is Ok && r->Ok_0@
            == layer_group_at(old(reader).data(), old(reader).pos(), g as int)
            && final(reader).pos() == old(reader).pos() + GROUP_LEN,
        !fits(old(reader).data(), old(reader).pos(), GROUP_LEN as int) ==> r == Err::<
            LayerGroup,
            ParseError,
        >(ParseError::Io),
{
    let ghost d = reader.data();
    let ghost b = reader.pos();
    let state = reader.read_dword()?;
    let write_layer = reader.read_dword()?;
    let scale = reader.read_double()?;
    let protect = reader.read_dword()?;
    let ghost want = layer_group_at(d, b, g as int);
    let mut layers: Vec<Layer> = Vec::with_capacity(16);
    let mut l: usize = 0;
    while l < 16
        invariant
            l <= 16,
            g < 16,
            reader.data() == d,
            d == old(reader).data(),
            b == old(reader).pos(),
            want == layer_group_at(d, b, g as int),
            reader.pos() == b + 20 + 8 * l,
            reader.pos() <= d.len(),
            layers@.len() == l,
            forall|k: int| 0 <= k < l ==> #[trigger] layers@[k]@ == want.layers[k],
        decreases 16 - l,
    {
        let lay_state = reader.read_dword()?;
        let lay_protect = reader.read_dword()?;
        layers.push(Layer { state: lay_state, protect: lay_protect, name: layer_name(g, l) });
        l = l + 1;
    }
    let group = LayerGroup { state, write_layer, scale, protect, layers, name: group_name(g) };
    assert(group@.layers =~= want.layers);
    Ok(group)
}

/// Reads the sixteen layer groups of the header.
fn read_layer_groups(reader: &mut Reader) -> (r: Result<Vec<LayerGroup>, ParseError>)
    ensures
        final(reader).data() == old(reader).data(),
        fits(old(reader).data(), old(reader).pos(), 16 * GROUP_LEN) ==> r is Ok
            && r->Ok_0@.map_values(|g: LayerGroup| g@) == layer_groups_at(
            old(reader).data(),
            old(reader).pos(),
        ) && final(reader).pos() == old(reader).pos() + 16 * GROUP_LEN,
        !fits(old(reader).data(), old(reader).pos(), 16 * GROUP_LEN) ==> r == Err::<
            Vec<LayerGroup>,
            ParseError,
        >(ParseError::Io),
{
    let ghost d = reader.data();
    let ghost b = reader.pos();
    let ghost want = layer_groups_at(d, b);
    proof {
        reader.lemma_pos_nonneg();
    }
    let mut groups: Vec<LayerGroup> = Vec::with_capacity(16);
    let mut g: usize = 0;
    while g < 16
        invariant
            g <= 16,
            reader.data() == d,
            d == old(reader).data(),
            b == old(reader).pos(),
            want == layer_groups_at(d, b),
            reader.pos() == b + GROUP_LEN * g,
            g > 0 ==> reader.pos() <= d.len(),
            groups@.len() == g,
            forall|k: int| 0 <= k < g ==> #[trigger] groups@[k]@ == want[k],
        decreases 16 - g,
    {
        let group = read_layer_group(reader, g)?;
        groups.push(group);
        g = g + 1;
    }
    assert(groups@.map_values(|g: LayerGroup| g@) =~= want);
    Ok(groups)
}

/// What [`parse`] promises of its result `r` on the bytes `d`.
pub open spec fn parse_outcome(d: Seq<u8>, r: Result<Document, ParseError>) -> bool {
    match parse_spec(d) {
        Ok(doc) => r is Ok && r->Ok_0@ == doc,
        Err(e) => r is Err && r->Err_0@ == e,
    }
}

/// Decodes a drawing file (see [`parse_spec`]): the signature, the header
/// with its sixteen layer groups, then the entity stream found by the scan.
/// Layer groups and layers get their default names.
pub fn parse(data: &[u8]) -> (r: Result<Document, ParseError>)
    ensures
        parse_outcome(data@, r),
        r is Ok ==> r->Ok_0.layer_groups@.len() == 16,
{
    if data.len() < 8 {
        return Err(ParseError::InvalidSignature);
    }
    let mut reader = Reader::new(data);
    reader.read_signature()?;
    let version = reader.read_dword()?;
    let memo = reader.read_cstring()?;
    let paper_size = reader.read_dword()?;
    let write_layer_group = reader.read_dword()?;
    let layer_groups = read_layer_groups(&mut reader)?;
    assert(layer_groups@.len() == layer_groups@.map_values(|g: LayerGroup| g@).len());
    let entity_list_offset = match find_entity_list_offset(data, version) {
        Some(offset) => offset,
        None => return Err(ParseError::EntityListNotFound),
    };
    let mut reader2 = Reader::new(data);
    reader2.skip(entity_list_offset)?;
    let entities = parse_entity_list(&mut reader2, version)?;
    let doc = Document {
        version,
        memo,
        paper_size,
        write_layer_group,
        layer_groups,
        entities,
        block_defs: Vec::new(),
    };
    assert(doc@.block_defs =~= Seq::empty());
    Ok(doc)
}

} // verus!
