//! The drawing format as mathematics: what each part of a file decodes to,
//! over the file's bytes and an offset.
use vstd::prelude::*;

use crate::document::{
    default_group_name, default_layer_name, DocumentView, LayerGroupView, LayerView,
};
use crate::error::ParseErrorView;
use crate::reader::{fits, signature_at, string_at, u16_at, u32_at, u64_at};
use crate::types::{Arc, Block, EntityBase, EntityView, Line, Point, Solid, TextView};

verus! {

/// The entity classes the decoder knows.
#[derive(Debug, Clone, Copy, PartialEq, Eq)]
pub enum ClassKind {
    /// `CDataSen`
    Line,
    /// `CDataEnko`
    Arc,
    /// `CDataTen`
    Point,
    /// `CDataMoji`
    Text,
    /// `CDataSolid`
    Solid,
    /// `CDataBlock`
    Block,
    /// `CDataSunpou`: read in full, produces no entity.
    Dimension,
}

/// The class a class name stands for, if the decoder knows it.
pub open spec fn class_kind(name: Seq<char>) -> Option<ClassKind> {
    if name == "CDataSen"@ {
        Some(ClassKind::Line)
    } else if name == "CDataEnko"@ {
        Some(ClassKind::Arc)
    } else if name == "CDataTen"@ {
        Some(ClassKind::Point)
    } else if name == "CDataMoji"@ {
        Some(ClassKind::Text)
    } else if name == "CDataSolid"@ {
        Some(ClassKind::Solid)
    } else if name == "CDataBlock"@ {
        Some(ClassKind::Block)
    } else if name == "CDataSunpou"@ {
        Some(ClassKind::Dimension)
    } else {
        None
    }
}

/// The first version whose entity records carry a line width.
pub const PEN_WIDTH_VERSION: u32 = 351;

/// The first version whose dimension records carry the extra tail.
pub const DIMENSION_TAIL_VERSION: u32 = 420;

/// Size in bytes of the attributes shared by every entity.
pub open spec fn base_len(version: u32) -> int {
    if version >= PEN_WIDTH_VERSION {
        15
    } else {
        13
    }
}

/// The shared entity attributes at `p`: group, style, colour, the width
/// (only from version 351), layer, layer group and flags.
pub open spec fn entity_base_at(d: Seq<u8>, p: int, version: u32) -> EntityBase {
    let w: int = if version >= PEN_WIDTH_VERSION {
        2
    } else {
        0
    };
    EntityBase {
        group: u32_at(d, p),
        pen_style: d[p + 4],
        pen_color: u16_at(d, p + 5),
        pen_width: if version >= PEN_WIDTH_VERSION {
            u16_at(d, p + 7)
        } else {
            0
        },
        layer: u16_at(d, p + 7 + w),
        layer_group: u16_at(d, p + 9 + w),
        flag: u16_at(d, p + 11 + w),
    }
}

/// The bits of the double 1.0.
pub const ONE_BITS: u64 = 0x3FF0_0000_0000_0000;

/// A line at `p`: the shared attributes, then start and end points.
pub open spec fn line_at(d: Seq<u8>, p: int, version: u32) -> Line {
    let q = p + base_len(version);
    Line {
        base: entity_base_at(d, p, version),
        start_x: u64_at(d, q),
        start_y: u64_at(d, q + 8),
        end_x: u64_at(d, q + 16),
        end_y: u64_at(d, q + 24),
    }
}

/// An arc at `p`: the shared attributes, seven doubles and a full-circle word.
pub open spec fn arc_at(d: Seq<u8>, p: int, version: u32) -> Arc {
    let q = p + base_len(version);
    Arc {
        base: entity_base_at(d, p, version),
        center_x: u64_at(d, q),
        center_y: u64_at(d, q + 8),
        radius: u64_at(d, q + 16),
        start_angle: u64_at(d, q + 24),
        arc_angle: u64_at(d, q + 32),
        tilt_angle: u64_at(d, q + 40),
        flatness: u64_at(d, q + 48),
        is_full_circle: u32_at(d, q + 56) != 0,
    }
}

/// Size of a point record: a marker code, angle and scale follow only when
/// the line style is 100.
pub open spec fn point_len(d: Seq<u8>, p: int, version: u32) -> int {
    if entity_base_at(d, p, version).pen_style == 100 {
        base_len(version) + 40
    } else {
        base_len(version) + 20
    }
}

/// A point at `p`.
pub open spec fn point_at(d: Seq<u8>, p: int, version: u32) -> Point {
    let q = p + base_len(version);
    let base = entity_base_at(d, p, version);
    Point {
        base,
        x: u64_at(d, q),
        y: u64_at(d, q + 8),
        is_temporary: u32_at(d, q + 16) != 0,
        code: if base.pen_style == 100 {
            u32_at(d, q + 20)
        } else {
            0
        },
        angle: if base.pen_style == 100 {
            u64_at(d, q + 24)
        } else {
            0
        },
        scale: if base.pen_style == 100 {
            u64_at(d, q + 32)
        } else {
            ONE_BITS
        },
    }
}

/// Size of the fixed part of a text record, before its two strings.
pub open spec fn text_fixed_len(version: u32) -> int {
    base_len(version) + 68
}

/// A text at `p` whose font name and content are given.
pub open spec fn text_at(
    d: Seq<u8>,
    p: int,
    version: u32,
    font_name: Seq<char>,
    content: Seq<char>,
) -> TextView {
    let q = p + base_len(version);
    TextView {
        base: entity_base_at(d, p, version),
        start_x: u64_at(d, q),
        start_y: u64_at(d, q + 8),
        end_x: u64_at(d, q + 16),
        end_y: u64_at(d, q + 24),
        text_type: u32_at(d, q + 32),
        size_x: u64_at(d, q + 36),
        size_y: u64_at(d, q + 44),
        spacing: u64_at(d, q + 52),
        angle: u64_at(d, q + 60),
        font_name,
        content,
    }
}

/// Size of a solid record: a colour word follows only when the line colour
/// is 10.
pub open spec fn solid_len(d: Seq<u8>, p: int, version: u32) -> int {
    if entity_base_at(d, p, version).pen_color == 10 {
        base_len(version) + 68
    } else {
        base_len(version) + 64
    }
}

/// A solid at `p`; its corners are stored in the order 1, 4, 2, 3.
pub open spec fn solid_at(d: Seq<u8>, p: int, version: u32) -> Solid {
    let q = p + base_len(version);
    let base = entity_base_at(d, p, version);
    Solid {
        base,
        point1_x: u64_at(d, q),
        point1_y: u64_at(d, q + 8),
        point4_x: u64_at(d, q + 16),
        point4_y: u64_at(d, q + 24),
        point2_x: u64_at(d, q + 32),
        point2_y: u64_at(d, q + 40),
        point3_x: u64_at(d, q + 48),
        point3_y: u64_at(d, q + 56),
        color: if base.pen_color == 10 {
            u32_at(d, q + 64)
        } else {
            0
        },
    }
}

/// A block reference at `p`: five doubles and a definition number.
pub open spec fn block_at(d: Seq<u8>, p: int, version: u32) -> Block {
    let q = p + base_len(version);
    Block {
        base: entity_base_at(d, p, version),
        ref_x: u64_at(d, q),
        ref_y: u64_at(d, q + 8),
        scale_x: u64_at(d, q + 16),
        scale_y: u64_at(d, q + 24),
        rotation: u64_at(d, q + 32),
        def_number: u32_at(d, q + 40),
    }
}

/// Size of the tail a dimension record carries from version 420: a word, two
/// line sub-records and four point sub-records.
pub open spec fn dimension_tail_len(version: u32) -> int {
    if version >= DIMENSION_TAIL_VERSION {
        2 + 2 * (base_len(version) + 32) + 4 * (base_len(version) + 20)
    } else {
        0
    }
}

/// The end of a dimension record at `p`: its own attributes, a line
/// sub-record, a text sub-record with two strings, then the tail.
pub open spec fn dimension_end(d: Seq<u8>, p: int, version: u32) -> Option<int> {
    let fixed = 3 * base_len(version) + 32 + 68;
    if !fits(d, p, fixed) {
        None
    } else {
        match string_at(d, p + fixed) {
            None => None,
            Some((_, q1)) => match string_at(d, q1) {
                None => None,
                Some((_, q2)) => if fits(d, q2, dimension_tail_len(version)) {
                    Some(q2 + dimension_tail_len(version))
                } else {
                    None
                },
            },
        }
    }
}

/// The body of a record of class `k` at `p`: the entity it gives (none for
/// a dimension) and the offset after it; `None` when the input ends first.
pub open spec fn body_at(k: ClassKind, d: Seq<u8>, p: int, version: u32) -> Option<
    (Option<EntityView>, int),
> {
    match k {
        ClassKind::Line => if fits(d, p, base_len(version) + 32) {
            Some((Some(EntityView::Line(line_at(d, p, version))), p + base_len(version) + 32))
        } else {
            None
        },
        ClassKind::Arc => if fits(d, p, base_len(version) + 60) {
            Some((Some(EntityView::Arc(arc_at(d, p, version))), p + base_len(version) + 60))
        } else {
            None
        },
        ClassKind::Point => if fits(d, p, point_len(d, p, version)) {
            Some((Some(EntityView::Point(point_at(d, p, version))), p + point_len(d, p, version)))
        } else {
            None
        },
        ClassKind::Text => if !fits(d, p, text_fixed_len(version)) {
            None
        } else {
            match string_at(d, p + text_fixed_len(version)) {
                None => None,
                Some((font, q1)) => match string_at(d, q1) {
                    None => None,
                    Some((content, q2)) => Some(
                        (Some(EntityView::Text(text_at(d, p, version, font, content))), q2),
                    ),
                },
            }
        },
        ClassKind::Solid => if fits(d, p, solid_len(d, p, version)) {
            Some((Some(EntityView::Solid(solid_at(d, p, version))), p + solid_len(d, p, version)))
        } else {
            None
        },
        ClassKind::Block => if fits(d, p, base_len(version) + 44) {
            Some((Some(EntityView::Block(block_at(d, p, version))), p + base_len(version) + 44))
        } else {
            None
        },
        ClassKind::Dimension => match dimension_end(d, p, version) {
            None => None,
            Some(q) => Some((None, q)),
        },
    }
}

/// What `String::from_utf8_lossy` makes of a byte string: class names are
/// read as UTF-8 with malformed sequences replaced.
pub uninterp spec fn utf8_lossy_text(b: Seq<u8>) -> Seq<char>;

/// The class identifier that opens a new class definition.
pub const NEW_CLASS: u16 = 0xFFFF;

/// The class identifier of an explicit null object.
pub const NULL_OBJECT: u16 = 0x8000;

/// The class a persistence identifier is bound to in `table`, if any. The
/// table is indexed by identifier.
pub open spec fn lookup(table: Seq<Option<ClassKind>>, pid: int) -> Option<ClassKind> {
    if 0 <= pid < table.len() {
        table[pid]
    } else {
        None
    }
}

/// `table` with identifier `pid` bound to `k`, every identifier between its
/// end and `pid` left unbound.
pub open spec fn bind(table: Seq<Option<ClassKind>>, pid: int, k: ClassKind) -> Seq<
    Option<ClassKind>,
> {
    Seq::new(
        (pid + 1) as nat,
        |i: int|
            if i == pid {
                Some(k)
            } else if i < table.len() {
                table[i]
            } else {
                None
            },
    )
}

/// The outcome of one record of the entity stream: the entity it gives, if
/// any, the offset after it, and the class table and next identifier after it.
pub struct Record {
    pub entity: Option<EntityView>,
    pub pos: int,
    pub table: Seq<Option<ClassKind>>,
    pub next_pid: int,
}

/// The record at `p`. It opens with a class identifier: `0xFFFF` introduces
/// a class (schema word, name length word, name), binds it to `next_pid`
/// and dispatches on it; `0x8000` is a null object; any other value refers
/// back to the class bound to its low fifteen bits. Every record takes one
/// identifier; a class definition takes one more.
#[verifier::opaque]
pub open spec fn record_at(
    d: Seq<u8>,
    version: u32,
    p: int,
    table: Seq<Option<ClassKind>>,
    next_pid: int,
) -> Result<Record, ParseErrorView> {
    if !fits(d, p, 2) {
        Err(ParseErrorView::Io)
    } else if u16_at(d, p) == NEW_CLASS {
        if !fits(d, p + 2, 4) {
            Err(ParseErrorView::Io)
        } else {
            let n = u16_at(d, p + 4) as int;
            if !fits(d, p + 6, n) {
                Err(ParseErrorView::Io)
            } else {
                let name = utf8_lossy_text(d.subrange(p + 6, p + 6 + n));
                match class_kind(name) {
                    None => Err(ParseErrorView::UnknownEntityClass(name)),
                    Some(k) => match body_at(k, d, p + 6 + n, version) {
                        None => Err(ParseErrorView::Io),
                        Some((e, q)) => Ok(
                            Record {
                                entity: e,
                                pos: q,
                                table: bind(table, next_pid, k),
                                next_pid: next_pid + 2,
                            },
                        ),
                    },
                }
            }
        }
    } else if u16_at(d, p) == NULL_OBJECT {
        Ok(Record { entity: None, pos: p + 2, table, next_pid: next_pid + 1 })
    } else {
        let pid = (u16_at(d, p) as int) % 0x8000;
        match lookup(table, pid) {
            None => Err(ParseErrorView::UnknownClassPid(pid as u32)),
            Some(k) => match body_at(k, d, p + 2, version) {
                None => Err(ParseErrorView::Io),
                Some((e, q)) => Ok(Record { entity: e, pos: q, table, next_pid: next_pid + 1 }),
            },
        }
    }
}

/// Where the entity stream stands between two records.
pub struct StreamState {
    pub pos: int,
    pub table: Seq<Option<ClassKind>>,
    pub next_pid: int,
    pub entities: Seq<EntityView>,
}

/// `es` with `e` appended, if there is one.
pub open spec fn push_entity(es: Seq<EntityView>, e: Option<EntityView>) -> Seq<EntityView> {
    match e {
        Some(x) => es.push(x),
        None => es,
    }
}

/// The state after `n` more records from `st`, or the first error.
pub open spec fn records_from(d: Seq<u8>, version: u32, n: nat, st: StreamState) -> Result<
    StreamState,
    ParseErrorView,
>
    decreases n,
{
    if n == 0 {
        Ok(st)
    } else {
        match record_at(d, version, st.pos, st.table, st.next_pid) {
            Err(e) => Err(e),
            Ok(rec) => records_from(
                d,
                version,
                (n - 1) as nat,
                StreamState {
                    pos: rec.pos,
                    table: rec.table,
                    next_pid: rec.next_pid,
                    entities: push_entity(st.entities, rec.entity),
                },
            ),
        }
    }
}

/// The state the entity stream starts in, after its count word at `p`.
pub open spec fn stream_start(p: int) -> StreamState {
    StreamState { pos: p + 2, table: Seq::empty(), next_pid: 1, entities: Seq::empty() }
}

/// The entity stream at `p`: a count word, then that many records.
pub open spec fn entity_stream_at(d: Seq<u8>, version: u32, p: int) -> Result<
    Seq<EntityView>,
    ParseErrorView,
> {
    if !fits(d, p, 2) {
        Err(ParseErrorView::Io)
    } else {
        match records_from(d, version, u16_at(d, p) as nat, stream_start(p)) {
            Ok(st) => Ok(st.entities),
            Err(e) => Err(e),
        }
    }
}

/// The scan for the entity list looks at offsets from here on.
pub const SCAN_START: usize = 100;

/// The scan stops this many bytes before the end of the file.
pub const SCAN_MARGIN: usize = 20;

/// True when the bytes at `i` open the first class definition of the entity
/// list: `0xFF 0xFF`, the low two bytes of `version`, a name length from 8
/// to 20 whose name lies inside the file, and a name that starts with ASCII
/// `CData`.
pub open spec fn list_marker_at(d: Seq<u8>, i: int, version: u32) -> bool {
    &&& d[i] == 0xFF && d[i + 1] == 0xFF
    &&& d[i + 2] == (version % 0x100) as u8
    &&& d[i + 3] == ((version / 0x100) % 0x100) as u8
    &&& 8 <= u16_at(d, i + 4) <= 20
    &&& i + 6 + u16_at(d, i + 4) <= d.len()
    &&& d[i + 6] == 0x43 && d[i + 7] == 0x44 && d[i + 8] == 0x61 && d[i + 9] == 0x74 && d[i
        + 10] == 0x61
}

/// The first offset from `i` on, and before the last twenty bytes, where
/// the marker stands.
pub open spec fn first_marker_from(d: Seq<u8>, version: u32, i: int) -> Option<int>
    decreases d.len() - i,
{
    if i < 0 || i + SCAN_MARGIN >= d.len() {
        None
    } else if list_marker_at(d, i, version) {
        Some(i)
    } else {
        first_marker_from(d, version, i + 1)
    }
}

/// Where the entity list starts: the count word two bytes before the first
/// marker at or after offset 100.
pub open spec fn entity_list_start(d: Seq<u8>, version: u32) -> Option<int> {
    match first_marker_from(d, version, SCAN_START as int) {
        Some(i) => Some(i - 2),
        None => None,
    }
}

/// Size of one layer group in the header: four fields and sixteen layers of
/// two words.
pub const GROUP_LEN: usize = 148;

/// The layer group `g` whose fields start at `b`; names are the defaults,
/// since the header carries none.
pub open spec fn layer_group_at(d: Seq<u8>, b: int, g: int) -> LayerGroupView {
    LayerGroupView {
        state: u32_at(d, b),
        write_layer: u32_at(d, b + 4),
        scale: u64_at(d, b + 8),
        protect: u32_at(d, b + 16),
        layers: Seq::new(
            16,
            |l: int|
                LayerView {
                    state: u32_at(d, b + 20 + 8 * l),
                    protect: u32_at(d, b + 24 + 8 * l),
                    name: default_layer_name(g, l),
                },
        ),
        name: default_group_name(g),
    }
}

/// The sixteen layer groups starting at `b`.
pub open spec fn layer_groups_at(d: Seq<u8>, b: int) -> Seq<LayerGroupView> {
    Seq::new(16, |g: int| layer_group_at(d, b + GROUP_LEN * g, g))
}

/// What a whole file decodes to. After the signature: the version word, the
/// memo string, the paper size, the layer group written to, and sixteen
/// layer groups; then the entity stream, wherever the scan finds it.
pub open spec fn parse_spec(d: Seq<u8>) -> Result<DocumentView, ParseErrorView> {
    if !signature_at(d, 0) {
        Err(ParseErrorView::InvalidSignature)
    } else if !fits(d, 8, 4) {
        Err(ParseErrorView::Io)
    } else {
        match string_at(d, 12) {
            None => Err(ParseErrorView::Io),
            Some((memo, q)) => if !fits(d, q, 8 + 16 * GROUP_LEN) {
                Err(ParseErrorView::Io)
            } else {
                let version = u32_at(d, 8);
                match entity_list_start(d, version) {
                    None => Err(ParseErrorView::EntityListNotFound),
                    Some(s) => match entity_stream_at(d, version, s) {
                        Err(e) => Err(e),
                        Ok(es) => Ok(
                            DocumentView {
                                version,
                                memo,
                                paper_size: u32_at(d, q),
                                write_layer_group: u32_at(d, q + 4),
                                layer_groups: layer_groups_at(d, q + 8),
                                entities: es,
                                block_defs: Seq::empty(),
                            },
                        ),
                    },
                }
            },
        }
    }
}

} // verus!
