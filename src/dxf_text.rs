//! A small reader for DXF text: the entities of the ENTITIES section, with
//! their layer, colour, line type and other group values, and the names in
//! the LAYER table.
use vstd::prelude::*;
use vstd::std_specs::hash::group_hash_axioms;

use std::collections::HashMap;

verus! {

broadcast use group_hash_axioms;

/// The kind of a DXF entity.
#[derive(Debug, Clone, PartialEq, Eq, Hash)]
pub enum DxfEntityType {
    Line,
    Circle,
    Arc,
    Ellipse,
    Point,
    Text,
    Solid,
    Insert,
    Unknown(String),
}

/// The value of a [`DxfEntityType`].
pub enum DxfEntityTypeView {
    Line,
    Circle,
    Arc,
    Ellipse,
    Point,
    Text,
    Solid,
    Insert,
    Unknown(Seq<char>),
}

impl View for DxfEntityType {
    type V = DxfEntityTypeView;

    open spec fn view(&self) -> DxfEntityTypeView {
        match self {
            DxfEntityType::Line => DxfEntityTypeView::Line,
            DxfEntityType::Circle => DxfEntityTypeView::Circle,
            DxfEntityType::Arc => DxfEntityTypeView::Arc,
            DxfEntityType::Ellipse => DxfEntityTypeView::Ellipse,
            DxfEntityType::Point => DxfEntityTypeView::Point,
            DxfEntityType::Text => DxfEntityTypeView::Text,
            DxfEntityType::Solid => DxfEntityTypeView::Solid,
            DxfEntityType::Insert => DxfEntityTypeView::Insert,
            DxfEntityType::Unknown(s) => DxfEntityTypeView::Unknown(s@),
        }
    }
}

/// The kind an entity name stands for.
pub open spec fn entity_type_of(s: Seq<char>) -> DxfEntityTypeView {
    if s == "LINE"@ {
        DxfEntityTypeView::Line
    } else if s == "CIRCLE"@ {
        DxfEntityTypeView::Circle
    } else if s == "ARC"@ {
        DxfEntityTypeView::Arc
    } else if s == "ELLIPSE"@ {
        DxfEntityTypeView::Ellipse
    } else if s == "POINT"@ {
        DxfEntityTypeView::Point
    } else if s == "TEXT"@ {
        DxfEntityTypeView::Text
    } else if s == "SOLID"@ {
        DxfEntityTypeView::Solid
    } else if s == "INSERT"@ {
        DxfEntityTypeView::Insert
    } else {
        DxfEntityTypeView::Unknown(s)
    }
}

/// The name of a kind.
pub open spec fn entity_type_text(t: DxfEntityTypeView) -> Seq<char> {
    match t {
        DxfEntityTypeView::Line => "LINE"@,
        DxfEntityTypeView::Circle => "CIRCLE"@,
        DxfEntityTypeView::Arc => "ARC"@,
        DxfEntityTypeView::Ellipse => "ELLIPSE"@,
        DxfEntityTypeView::Point => "POINT"@,
        DxfEntityTypeView::Text => "TEXT"@,
        DxfEntityTypeView::Solid => "SOLID"@,
        DxfEntityTypeView::Insert => "INSERT"@,
        DxfEntityTypeView::Unknown(s) => s,
    }
}

/// True when `a` and `b` hold the same characters.
fn text_is(a: &str, b: &str) -> (r: bool)
    ensures
        r == (a@ == b@),
{
    String::from_str(a).eq(&String::from_str(b))
}

impl DxfEntityType {
    /// The kind named `s`; a name outside the eight known ones is kept as
    /// `Unknown`.
    pub fn from_str(s: &str) -> (r: Self)
        ensures
            r@ == entity_type_of(s@),
    {
        if text_is(s, "LINE") {
            DxfEntityType::Line
        } else if text_is(s, "CIRCLE") {
            DxfEntityType::Circle
        } else if text_is(s, "ARC") {
            DxfEntityType::Arc
        } else if text_is(s, "ELLIPSE") {
            DxfEntityType::Ellipse
        } else if text_is(s, "POINT") {
            DxfEntityType::Point
        } else if text_is(s, "TEXT") {
            DxfEntityType::Text
        } else if text_is(s, "SOLID") {
            DxfEntityType::Solid
        } else if text_is(s, "INSERT") {
            DxfEntityType::Insert
        } else {
            DxfEntityType::Unknown(String::from_str(s))
        }
    }

    /// The name of the kind.
    pub fn as_str(&self) -> (r: &str)
        ensures
            r@ == entity_type_text(self@),
    {
        match self {
            DxfEntityType::Line => "LINE",
            DxfEntityType::Circle => "CIRCLE",
            DxfEntityType::Arc => "ARC",
            DxfEntityType::Ellipse => "ELLIPSE",
            DxfEntityType::Point => "POINT",
            DxfEntityType::Text => "TEXT",
            DxfEntityType::Solid => "SOLID",
            DxfEntityType::Insert => "INSERT",
            DxfEntityType::Unknown(s) => s.as_str(),
        }
    }
}

/// An entity read from DXF text.
#[derive(Debug, Clone, PartialEq)]
pub struct DxfEntity {
    pub entity_type: DxfEntityType,
    /// Group 8.
    pub layer: String,
    /// Group 62.
    pub color: i32,
    /// Group 6.
    pub line_type: String,
    /// Every other group code with its value (a later value replaces an
    /// earlier one).
    pub properties: HashMap<i32, String>,
}

/// The value of a [`DxfEntity`].
pub struct DxfEntityView {
    pub entity_type: DxfEntityTypeView,
    pub layer: Seq<char>,
    pub color: i32,
    pub line_type: Seq<char>,
    pub properties: Map<i32, Seq<char>>,
}

impl View for DxfEntity {
    type V = DxfEntityView;

    open spec fn view(&self) -> DxfEntityView {
        DxfEntityView {
            entity_type: self.entity_type@,
            layer: self.layer@,
            color: self.color,
            line_type: self.line_type@,
            properties: self.properties@.map_values(|v: String| v@),
        }
    }
}

/// True when `c` is an ASCII decimal digit.
pub open spec fn is_decimal_digit(c: char) -> bool {
    '0' <= c && c <= '9'
}

/// The number the decimal digits `s` write.
pub open spec fn decimal_value(s: Seq<char>) -> int
    decreases s.len(),
{
    if s.len() == 0 {
        0
    } else {
        decimal_value(s.drop_last()) * 10 + (s.last() as u32 - '0' as u32)
    }
}

/// The `i32` that `s` writes: an optional `+` or `-`, then at least one
/// decimal digit and nothing else, with a value in range.
pub open spec fn i32_text_value(s: Seq<char>) -> Option<i32> {
    let neg = s.len() > 0 && s[0] == '-';
    let digits = if s.len() > 0 && (s[0] == '-' || s[0] == '+') {
        s.drop_first()
    } else {
        s
    };
    let v = if neg {
        -decimal_value(digits)
    } else {
        decimal_value(digits)
    };
    if digits.len() == 0 || !(forall|i: int| 0 <= i < digits.len() ==> is_decimal_digit(digits[i])) {
        None
    } else if i32::MIN <= v <= i32::MAX {
        Some(v as i32)
    } else {
        None
    }
}

/// Relies on `str::parse::<i32>`: an optional sign, decimal digits, a value
/// in range.
#[verifier::external_body]
fn parse_i32(s: &str) -> (r: Option<i32>)
    ensures
        r == i32_text_value(s@),
{
    s.parse::<i32>().ok()
}

/// What `str::lines` splits a text into.
pub uninterp spec fn text_lines(s: Seq<char>) -> Seq<Seq<char>>;

/// What `str::trim` leaves of a text.
pub uninterp spec fn trimmed(s: Seq<char>) -> Seq<char>;

/// The texts of a vector of strings.
pub open spec fn texts(v: Seq<String>) -> Seq<Seq<char>> {
    v.map_values(|s: String| s@)
}

/// Relies on `str::lines`: the lines depend on the text alone.
#[verifier::external_body]
fn split_lines(s: &str) -> (r: Vec<String>)
    ensures
        texts(r@) == text_lines(s@),
{
    s.lines().map(String::from).collect()
}

/// Relies on `str::trim`: what is left depends on the text alone.
#[verifier::external_body]
fn trim_text(s: &str) -> (r: String)
    ensures
        r@ == trimmed(s@),
{
    String::from(s.trim())
}

/// What an entity has read so far of its group values.
pub struct EntityFields {
    pub layer: Seq<char>,
    pub color: i32,
    pub line_type: Seq<char>,
    pub properties: Map<i32, Seq<char>>,
}

/// The fields before any group value: layer `0`, colour 7, continuous line.
pub open spec fn default_fields() -> EntityFields {
    EntityFields {
        layer: "0"@,
        color: 7,
        line_type: "CONTINUOUS"@,
        properties: Map::empty(),
    }
}

/// `f` after group `code` with `value`: 8 sets the layer, 62 the colour
/// (when the value is a number), 6 the line type, any other code is kept.
pub open spec fn apply_group(f: EntityFields, code: i32, value: Seq<char>) -> EntityFields {
    if code == 8 {
        EntityFields { layer: value, ..f }
    } else if code == 62 {
        match i32_text_value(value) {
            Some(c) => EntityFields { color: c, ..f },
            None => f,
        }
    } else if code == 6 {
        EntityFields { line_type: value, ..f }
    } else {
        EntityFields { properties: f.properties.insert(code, value), ..f }
    }
}

/// The fields after reading pairs of lines from `i` until a line `0` or the
/// end: a line that is a number is a group code whose value is the next
/// line.
pub open spec fn fields_from(lines: Seq<Seq<char>>, i: int, f: EntityFields) -> EntityFields
    decreases lines.len() + 1 - i,
{
    if i < 0 || i >= lines.len() || lines[i] == "0"@ {
        f
    } else {
        let next = match i32_text_value(lines[i]) {
            Some(code) => if i + 1 < lines.len() {
                apply_group(f, code, lines[i + 1])
            } else {
                f
            },
            None => f,
        };
        fields_from(lines, i + 2, next)
    }
}

/// True for the eight entity names the reader knows.
pub open spec fn is_entity_name(s: Seq<char>) -> bool {
    s == "LINE"@ || s == "CIRCLE"@ || s == "ARC"@ || s == "ELLIPSE"@ || s == "POINT"@ || s
        == "TEXT"@ || s == "SOLID"@ || s == "INSERT"@
}

/// The entity whose name is line `start`, if it names one.
pub open spec fn entity_at(lines: Seq<Seq<char>>, start: int) -> Option<DxfEntityView> {
    if !is_entity_name(lines[start]) {
        None
    } else {
        let f = fields_from(lines, start + 1, default_fields());
        Some(
            DxfEntityView {
                entity_type: entity_type_of(lines[start]),
                layer: f.layer,
                color: f.color,
                line_type: f.line_type,
                properties: f.properties,
            },
        )
    }
}

/// Reads the entity whose name is line `start`, if it names one of the
/// eight kinds.
pub fn parse_entity_at(lines: &Vec<String>, start: usize) -> (r: Option<DxfEntity>)
    requires
        start < lines@.len(),
    ensures
        match entity_at(texts(lines@), start as int) {
            Some(e) => r is Some && r->0@ == e,
            None => r is None,
        },
{
    let ghost ls = texts(lines@);
    let line = &lines[start];
    assert(line@ == ls[start as int]);
    if !(text_is(line.as_str(), "LINE") || text_is(line.as_str(), "CIRCLE") || text_is(
        line.as_str(),
        "ARC",
    ) || text_is(line.as_str(), "ELLIPSE") || text_is(line.as_str(), "POINT") || text_is(
        line.as_str(),
        "TEXT",
    ) || text_is(line.as_str(), "SOLID") || text_is(line.as_str(), "INSERT")) {
        return None;
    }
    let entity_type = DxfEntityType::from_str(line.as_str());
    let mut layer = String::from_str("0");
    let mut color: i32 = 7;
    let mut line_type = String::from_str("CONTINUOUS");
    let mut properties: HashMap<i32, String> = HashMap::new();
    let n = lines.len();
    let mut i: usize = start + 1;
    let ghost start_fields = default_fields();
    assert(properties@.map_values(|v: String| v@) =~= Map::<i32, Seq<char>>::empty());
    while i < n
        invariant
            n == lines@.len(),
            ls == texts(lines@),
            start < n,
            start + 1 <= i,
            fields_from(ls, start + 1, default_fields()) == fields_from(
                ls,
                i as int,
                EntityFields {
                    layer: layer@,
                    color,
                    line_type: line_type@,
                    properties: properties@.map_values(|v: String| v@),
                },
            ),
        ensures
            fields_from(ls, start + 1, default_fields()) == (EntityFields {
                layer: layer@,
                color,
                line_type: line_type@,
                properties: properties@.map_values(|v: String| v@),
            }),
        decreases n - i,
    {
        let current = &lines[i];
        assert(current@ == ls[i as int]);
        if text_is(current.as_str(), "0") {
            break;
        }
        proof {
            reveal_strlit("0");
        }
        let ghost before = EntityFields {
            layer: layer@,
            color,
            line_type: line_type@,
            properties: properties@.map_values(|v: String| v@),
        };
        match parse_i32(current.as_str()) {
            Some(group_code) => {
                if i + 1 < n {
                    let value = &lines[i + 1];
                    assert(value@ == ls[i + 1]);
                    if group_code == 8 {
                        layer = value.clone();
                    } else if group_code == 62 {
                        match parse_i32(value.as_str()) {
                            Some(c) => {
                                color = c;
                            },
                            None => {},
                        }
                    } else if group_code == 6 {
                        line_type = value.clone();
                    } else {
                        properties.insert(group_code, value.clone());
                        assert(properties@.map_values(|v: String| v@) =~= before.properties.insert(
                            group_code,
                            value@,
                        ));
                    }
                }
            },
            None => {},
        }
        let ghost after = EntityFields {
            layer: layer@,
            color,
            line_type: line_type@,
            properties: properties@.map_values(|v: String| v@),
        };
        assert(fields_from(ls, i as int, before) == fields_from(ls, i + 2, after));
        if n - i < 2 {
            assert(fields_from(ls, i + 2, after) == after);
            i = n;
        } else {
            i = i + 2;
        }
    }
    Some(
        DxfEntity {
            entity_type,
            layer,
            color,
            line_type,
            properties,
        },
    )
}

/// The line after the first line from `i` on that equals `code`, the last
/// line not counting as a match.
pub open spec fn next_group_value(lines: Seq<Seq<char>>, i: int, code: Seq<char>) -> Option<
    Seq<char>,
>
    decreases lines.len() - i,
{
    if i < 0 || i + 1 >= lines.len() {
        None
    } else if lines[i] == code {
        Some(lines[i + 1])
    } else {
        next_group_value(lines, i + 1, code)
    }
}

/// The value after the first line from `start` on that equals `group_code`.
pub fn find_next_group_value(lines: &Vec<String>, start: usize, group_code: &str) -> (r: Option<
    String,
>)
    ensures
        match next_group_value(texts(lines@), start as int, group_code@) {
            Some(v) => r is Some && r->0@ == v,
            None => r is None,
        },
{
    let ghost ls = texts(lines@);
    let n = lines.len();
    let mut i: usize = start;
    while n > 0 && i < n - 1
        invariant
            n == lines@.len(),
            ls == texts(lines@),
            start <= i,
            next_group_value(ls, start as int, group_code@) == next_group_value(
                ls,
                i as int,
                group_code@,
            ),
        decreases n - i,
    {
        let line = &lines[i];
        assert(line@ == ls[i as int]);
        if text_is(line.as_str(), group_code) {
            assert(lines[i + 1]@ == ls[i + 1]);
            return Some(lines[i + 1].clone());
        }
        i = i + 1;
    }
    None
}

/// Where the reader stands between two lines: the section and table it is
/// in, and what it has collected.
pub struct ScanState {
    pub i: int,
    pub in_entities: bool,
    pub in_tables: bool,
    pub in_layer_table: bool,
    pub entities: Seq<DxfEntityView>,
    pub layers: Seq<Seq<char>>,
}

/// One step of the reader at line `st.i`. `SECTION`, `2` and a name enter
/// the ENTITIES or TABLES section (BLOCKS leaves the entities); `ENDSEC`
/// leaves every section; `TABLE`, `2`, `LAYER` within TABLES enters the
/// layer table, `ENDTAB` leaves it; a `0` followed by `LAYER` there adds the
/// value of the next group 2; within ENTITIES every line that names an
/// entity adds it.
pub open spec fn scan_step(lines: Seq<Seq<char>>, st: ScanState) -> ScanState {
    let n = lines.len();
    let i = st.i;
    let line = lines[i];
    let named = i + 2 < n && lines[i + 1] == "2"@;
    if line.len() == 0 {
        ScanState { i: i + 1, ..st }
    } else if line == "SECTION"@ {
        ScanState {
            i: i + 3,
            in_entities: if named && lines[i + 2] == "ENTITIES"@ {
                true
            } else if named && lines[i + 2] == "BLOCKS"@ {
                false
            } else {
                st.in_entities
            },
            in_tables: if named && lines[i + 2] == "TABLES"@ {
                true
            } else {
                st.in_tables
            },
            ..st
        }
    } else if line == "ENDSEC"@ {
        ScanState {
            i: i + 1,
            in_entities: false,
            in_tables: false,
            in_layer_table: false,
            ..st
        }
    } else if st.in_tables && line == "TABLE"@ {
        ScanState {
            i: i + 3,
            in_layer_table: if named && lines[i + 2] == "LAYER"@ {
                true
            } else {
                st.in_layer_table
            },
            ..st
        }
    } else if line == "ENDTAB"@ {
        ScanState { i: i + 1, in_layer_table: false, ..st }
    } else {
        let layers = if st.in_layer_table && line == "0"@ && i + 1 < n && lines[i + 1]
            == "LAYER"@ {
            match next_group_value(lines, i + 1, "2"@) {
                Some(name) => st.layers.push(name),
                None => st.layers,
            }
        } else {
            st.layers
        };
        let entities = if st.in_entities {
            match entity_at(lines, i) {
                Some(e) => st.entities.push(e),
                None => st.entities,
            }
        } else {
            st.entities
        };
        ScanState { i: i + 1, layers, entities, ..st }
    }
}

/// The entities and layer names the reader has collected once it has gone
/// past the last line.
pub open spec fn scan_from(lines: Seq<Seq<char>>, st: ScanState) -> (Seq<DxfEntityView>, Seq<
    Seq<char>,
>)
    decreases lines.len() + 3 - st.i,
{
    if st.i < 0 || st.i >= lines.len() {
        (st.entities, st.layers)
    } else {
        scan_from(lines, scan_step(lines, st))
    }
}

/// The entities and layer names read from `lines`.
pub open spec fn dxf_scan(lines: Seq<Seq<char>>) -> (Seq<DxfEntityView>, Seq<Seq<char>>) {
    scan_from(
        lines,
        ScanState {
            i: 0,
            in_entities: false,
            in_tables: false,
            in_layer_table: false,
            entities: Seq::empty(),
            layers: Seq::empty(),
        },
    )
}

/// The values of a vector of read entities.
pub open spec fn dxf_entities_view(v: Seq<DxfEntity>) -> Seq<DxfEntityView> {
    v.map_values(|e: DxfEntity| e@)
}

/// Two states that differ at most in where past the end they stand lead
/// to the same result.
proof fn lemma_scan_same(lines: Seq<Seq<char>>, a: ScanState, b: ScanState)
    requires
        a.entities == b.entities,
        a.layers == b.layers,
        a.in_entities == b.in_entities,
        a.in_tables == b.in_tables,
        a.in_layer_table == b.in_layer_table,
        a.i == b.i || (a.i >= lines.len() && b.i >= lines.len()),
    ensures
        scan_from(lines, a) == scan_from(lines, b),
{
    if a.i == b.i {
        assert(a == b);
    }
}

/// Reads entities and layer names from lines that are already trimmed (see
/// [`scan_step`]).
pub fn parse_dxf_lines(lines: &Vec<String>) -> (r: (Vec<DxfEntity>, Vec<String>))
    ensures
        (dxf_entities_view(r.0@), texts(r.1@)) == dxf_scan(texts(lines@)),
{
    let ghost ls = texts(lines@);
    let n = lines.len();
    let mut entities: Vec<DxfEntity> = Vec::new();
    let mut layers: Vec<String> = Vec::new();
    let mut in_entities_section = false;
    let mut in_tables_section = false;
    let mut in_layer_table = false;
    let mut i: usize = 0;
    assert(dxf_entities_view(entities@) =~= Seq::<DxfEntityView>::empty());
    assert(texts(layers@) =~= Seq::<Seq<char>>::empty());
    while i < n
        invariant
            n == lines@.len(),
            ls == texts(lines@),
            dxf_scan(ls) == scan_from(
                ls,
                ScanState {
                    i: i as int,
                    in_entities: in_entities_section,
                    in_tables: in_tables_section,
                    in_layer_table,
                    entities: dxf_entities_view(entities@),
                    layers: texts(layers@),
                },
            ),
        decreases n - i,
    {
        let ghost before = ScanState {
            i: i as int,
            in_entities: in_entities_section,
            in_tables: in_tables_section,
            in_layer_table,
            entities: dxf_entities_view(entities@),
            layers: texts(layers@),
        };
        let ghost step = scan_step(ls, before);
        assert(scan_from(ls, before) == scan_from(ls, step));
        let line = &lines[i];
        assert(line@ == ls[i as int]);
        let named = n - i > 2 && text_is(lines[i + 1].as_str(), "2");
        proof {
            if n - i > 2 {
                assert(lines[i + 1]@ == ls[i + 1]);
                assert(lines[i + 2]@ == ls[i + 2]);
            }
        }
        if line.as_str().is_empty() {
            i = i + 1;
        } else if text_is(line.as_str(), "SECTION") {
            if named {
                let section_name = lines[i + 2].as_str();
                if text_is(section_name, "ENTITIES") {
                    in_entities_section = true;
                } else if text_is(section_name, "TABLES") {
                    in_tables_section = true;
                } else if text_is(section_name, "BLOCKS") {
                    in_entities_section = false;
                }
            }
            proof {
                reveal_strlit("ENTITIES");
                reveal_strlit("TABLES");
                reveal_strlit("BLOCKS");
            }
            i = if n - i < 3 {
                n
            } else {
                i + 3
            };
        } else if text_is(line.as_str(), "ENDSEC") {
            in_entities_section = false;
            in_tables_section = false;
            in_layer_table = false;
            i = i + 1;
        } else if in_tables_section && text_is(line.as_str(), "TABLE") {
            if named && text_is(lines[i + 2].as_str(), "LAYER") {
                in_layer_table = true;
            }
            i = if n - i < 3 {
                n
            } else {
                i + 3
            };
        } else if text_is(line.as_str(), "ENDTAB") {
            in_layer_table = false;
            i = i + 1;
        } else {
            if in_layer_table && text_is(line.as_str(), "0") && n - i > 1 && text_is(
                lines[i + 1].as_str(),
                "LAYER",
            ) {
                assert(lines[i + 1]@ == ls[i + 1]);
                match find_next_group_value(lines, i + 1, "2") {
                    Some(layer_name) => {
                        layers.push(layer_name);
                        assert(texts(layers@) =~= step.layers);
                    },
                    None => {},
                }
            }
            if in_entities_section {
                match parse_entity_at(lines, i) {
                    Some(entity) => {
                        entities.push(entity);
                        assert(dxf_entities_view(entities@) =~= step.entities);
                    },
                    None => {},
                }
            }
            i = i + 1;
        }
        proof {
            let now = ScanState {
                i: i as int,
                in_entities: in_entities_section,
                in_tables: in_tables_section,
                in_layer_table,
                entities: dxf_entities_view(entities@),
                layers: texts(layers@),
            };
            assert(now.entities == step.entities);
            assert(now.layers == step.layers);
            assert(now.in_entities == step.in_entities);
            assert(now.in_tables == step.in_tables);
            assert(now.in_layer_table == step.in_layer_table);
            assert(now.i == step.i || (now.i >= n && step.i >= n));
            lemma_scan_same(ls, now, step);
        }
    }
    (entities, layers)
}

/// Reads the entities of the ENTITIES section and the layer names of the
/// LAYER table from DXF text: the text is split into lines, each line is
/// trimmed, and the lines are read as [`parse_dxf_lines`] says.
pub fn parse_dxf_entities(dxf_content: &str) -> (r: (Vec<DxfEntity>, Vec<String>))
    ensures
        (dxf_entities_view(r.0@), texts(r.1@)) == dxf_scan(
            text_lines(dxf_content@).map_values(|l: Seq<char>| trimmed(l)),
        ),
{
    let raw = split_lines(dxf_content);
    let mut lines: Vec<String> = Vec::with_capacity(raw.len());
    let mut i: usize = 0;
    while i < raw.len()
        invariant
            i <= raw@.len(),
            texts(raw@) == text_lines(dxf_content@),
            lines@.len() == i,
            forall|k: int| 0 <= k < i ==> #[trigger] lines@[k]@ == trimmed(raw@[k]@),
        decreases raw@.len() - i,
    {
        lines.push(trim_text(raw[i].as_str()));
        i = i + 1;
    }
    assert(texts(lines@) =~= text_lines(dxf_content@).map_values(|l: Seq<char>| trimmed(l)));
    parse_dxf_lines(&lines)
}

} // verus!
