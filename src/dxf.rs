//! What a DXF export takes from a decoded drawing: its layer table, layer
//! and block names, colours, line types, and which DXF entity each drawing
//! entity becomes. Coordinates are left to the caller, which works in
//! floating point.
use vstd::prelude::*;

use crate::document::{
    default_layer_name, hex_digits, layer_name, Document, DocumentView, LayerGroupView,
};
use crate::format::ONE_BITS;
use crate::types::{Entity, EntityView};

verus! {

/// A layer of the DXF layer table.
#[derive(Debug, Clone, PartialEq)]
pub struct Layer {
    pub name: String,
    /// AutoCAD colour index.
    pub color: i32,
    pub line_type: String,
    pub frozen: bool,
    pub locked: bool,
}

/// The value of a DXF [`Layer`].
pub struct LayerView {
    pub name: Seq<char>,
    pub color: i32,
    pub line_type: Seq<char>,
    pub frozen: bool,
    pub locked: bool,
}

impl View for Layer {
    type V = LayerView;

    open spec fn view(&self) -> LayerView {
        LayerView {
            name: self.name@,
            color: self.color,
            line_type: self.line_type@,
            frozen: self.frozen,
            locked: self.locked,
        }
    }
}

/// True when the document has sixteen layer groups of sixteen layers, as
/// every decoded document has.
pub open spec fn full_layer_matrix(doc: DocumentView) -> bool {
    &&& doc.layer_groups.len() == 16
    &&& forall|g: int| 0 <= g < 16 ==> #[trigger] doc.layer_groups[g].layers.len() == 16
}

/// The DXF layer made of layer `l` of group `g`: its name (or the default
/// name), a colour that cycles through 1 to 255, a continuous line, frozen
/// when hidden, locked when protected.
pub open spec fn layer_entry(doc: DocumentView, g: int, l: int) -> LayerView {
    let src = doc.layer_groups[g].layers[l];
    LayerView {
        name: if src.name.len() == 0 {
            default_layer_name(g, l)
        } else {
            src.name
        },
        color: ((g * 16 + l) % 255 + 1) as i32,
        line_type: "CONTINUOUS"@,
        frozen: src.state == 0,
        locked: src.protect != 0,
    }
}

/// The DXF layer table: the 256 layers, group by group.
pub fn convert_layers(jww_doc: &Document) -> (r: Vec<Layer>)
    requires
        full_layer_matrix(jww_doc@),
    ensures
        r@.len() == 256,
        forall|g: int, l: int|
            0 <= g < 16 && 0 <= l < 16 ==> #[trigger] r@[16 * g + l]@ == layer_entry(
                jww_doc@,
                g,
                l,
            ),
{
    let mut layers: Vec<Layer> = Vec::new();
    let mut g: usize = 0;
    while g < 16
        invariant
            g <= 16,
            full_layer_matrix(jww_doc@),
            layers@.len() == 16 * g,
            forall|gg: int, l: int|
                0 <= gg < g && 0 <= l < 16 ==> #[trigger] layers@[16 * gg + l]@ == layer_entry(
                    jww_doc@,
                    gg,
                    l,
                ),
        decreases 16 - g,
    {
        assert(jww_doc@.layer_groups.len() == jww_doc.layer_groups@.len());
        let lg = &jww_doc.layer_groups[g];
        assert(lg@ == jww_doc@.layer_groups[g as int]);
        let mut l: usize = 0;
        while l < 16
            invariant
                g < 16,
                l <= 16,
                full_layer_matrix(jww_doc@),
                lg@ == jww_doc@.layer_groups[g as int],
                layers@.len() == 16 * g + l,
                forall|gg: int, ll: int|
                    0 <= gg < g && 0 <= ll < 16 ==> #[trigger] layers@[16 * gg + ll]@
                        == layer_entry(jww_doc@, gg, ll),
                forall|ll: int|
                    0 <= ll < l ==> #[trigger] layers@[16 * g + ll]@ == layer_entry(
                        jww_doc@,
                        g as int,
                        ll,
                    ),
            decreases 16 - l,
        {
            assert(lg@.layers.len() == lg.layers@.len());
            let src = &lg.layers[l];
            assert(src@ == lg@.layers[l as int]);
            let name = if src.name.as_str().is_empty() {
                layer_name(g, l)
            } else {
                src.name.clone()
            };
            let color = ((g * 16 + l) % 255 + 1) as i32;
            let layer = Layer {
                name,
                color,
                line_type: String::from_str("CONTINUOUS"),
                frozen: src.state == 0,
                locked: src.protect != 0,
            };
            layers.push(layer);
            l = l + 1;
        }
        g = g + 1;
    }
    layers
}

/// The upper-case hexadecimal digits of `n`, without leading zeros.
pub open spec fn hex_text(n: nat) -> Seq<char>
    decreases n,
{
    if n < 16 {
        seq![hex_digits()[n as int]]
    } else {
        hex_text(n / 16) + seq![hex_digits()[(n % 16) as int]]
    }
}

/// The decimal digits of `n`, without leading zeros.
pub open spec fn decimal_text(n: nat) -> Seq<char>
    decreases n,
{
    if n < 10 {
        seq![hex_digits()[n as int]]
    } else {
        decimal_text(n / 10) + seq![hex_digits()[(n % 10) as int]]
    }
}

/// One digit of `n` in base 16 (digits of base 10 are the same characters).
fn digit_text(n: u32) -> (r: String)
    requires
        n < 16,
    ensures
        r@ == seq![hex_digits()[n as int]],
{
    String::from_str(crate::document::hex_digit(n as usize))
}

/// `n` in upper-case hexadecimal, as `{:X}` writes it.
pub fn to_hex_text(n: u32) -> (r: String)
    ensures
        r@ == hex_text(n as nat),
{
    let mut m: u32 = n;
    let mut s = String::new();
    loop
        invariant
            hex_text(n as nat) == hex_text(m as nat) + s@,
        decreases m,
    {
        let d = digit_text(m % 16);
        let t = d.concat(s.as_str());
        if m < 16 {
            assert(t@ =~= hex_text(m as nat) + s@);
            return t;
        }
        assert(hex_text(m as nat) + s@ =~= hex_text((m / 16) as nat) + t@);
        s = t;
        m = m / 16;
    }
}

/// `n` in decimal, as `{}` writes it.
pub fn to_decimal_text(n: u64) -> (r: String)
    ensures
        r@ == decimal_text(n as nat),
{
    let mut m: u64 = n;
    let mut s = String::new();
    loop
        invariant
            decimal_text(n as nat) == decimal_text(m as nat) + s@,
        decreases m,
    {
        let d = digit_text((m % 10) as u32);
        let t = d.concat(s.as_str());
        if m < 10 {
            assert(t@ =~= decimal_text(m as nat) + s@);
            return t;
        }
        assert(decimal_text(m as nat) + s@ =~= decimal_text((m / 10) as nat) + t@);
        s = t;
        m = m / 10;
    }
}

/// The DXF layer an entity on `layer` of `layer_group` goes to: that layer's
/// name when it exists and has one, else the two numbers in hexadecimal
/// joined by `-`.
pub open spec fn entity_layer_name(doc: DocumentView, layer_group: u16, layer: u16) -> Seq<char> {
    if layer_group < 16 && layer < 16 && doc.layer_groups[layer_group as int].layers[layer as int].name.len() > 0 {
        doc.layer_groups[layer_group as int].layers[layer as int].name
    } else {
        hex_text(layer_group as nat) + "-"@ + hex_text(layer as nat)
    }
}

/// The DXF layer name for an entity on `layer` of `layer_group`.
pub fn get_layer_name(jww_doc: &Document, layer_group: u16, layer: u16) -> (r: String)
    requires
        full_layer_matrix(jww_doc@),
    ensures
        r@ == entity_layer_name(jww_doc@, layer_group, layer),
{
    if layer_group < 16 && layer < 16 {
        assert(jww_doc@.layer_groups.len() == jww_doc.layer_groups@.len());
        let lg = &jww_doc.layer_groups[layer_group as usize];
        assert(lg@ == jww_doc@.layer_groups[layer_group as int]);
        assert(lg@.layers.len() == lg.layers@.len());
        let l = &lg.layers[layer as usize];
        assert(l@ == lg@.layers[layer as int]);
        if !l.name.as_str().is_empty() {
            return l.name.clone();
        }
    }
    to_hex_text(layer_group as u32).concat("-").concat(to_hex_text(layer as u32).as_str())
}

/// The block name an insert of definition `def_number` refers to: the name
/// of the first definition with that number, when it has one, else
/// `BLOCK_` and the number.
pub open spec fn block_name(doc: DocumentView, def_number: u32) -> Seq<char> {
    if exists|i: int|
        0 <= i < doc.block_defs.len() && #[trigger] doc.block_defs[i].number == def_number {
        let i = choose|i: int|
            0 <= i < doc.block_defs.len() && #[trigger] doc.block_defs[i].number == def_number
                && forall|j: int| 0 <= j < i ==> doc.block_defs[j].number != def_number;
        if doc.block_defs[i].name.len() > 0 {
            doc.block_defs[i].name
        } else {
            "BLOCK_"@ + decimal_text(def_number as nat)
        }
    } else {
        "BLOCK_"@ + decimal_text(def_number as nat)
    }
}

/// The DXF block name for an insert of definition `def_number`.
pub fn get_block_name(jww_doc: &Document, def_number: u32) -> (r: String)
    ensures
        r@ == block_name(jww_doc@, def_number),
{
    let n = jww_doc.block_defs.len();
    assert(jww_doc@.block_defs.len() == n);
    let mut i: usize = 0;
    while i < n
        invariant
            i <= n,
            n == jww_doc.block_defs@.len(),
            jww_doc@.block_defs.len() == n,
            forall|j: int| 0 <= j < i ==> #[trigger] jww_doc@.block_defs[j].number != def_number,
        decreases n - i,
    {
        let bd = &jww_doc.block_defs[i];
        assert(bd@ == jww_doc@.block_defs[i as int]);
        if bd.number == def_number {
            let ghost defs = jww_doc@.block_defs;
            assert(0 <= i < defs.len() && defs[i as int].number == def_number && forall|j: int|
                0 <= j < i ==> defs[j].number != def_number);
            let ghost c = choose|c: int|
                0 <= c < defs.len() && #[trigger] defs[c].number == def_number && forall|j: int|
                    0 <= j < c ==> defs[j].number != def_number;
            assert(c == i) by {
                if c < i {
                    assert(defs[c].number != def_number);
                } else if c > i {
                    assert(defs[i as int].number != def_number);
                }
            }
            if !bd.name.as_str().is_empty() {
                return bd.name.clone();
            }
            return String::from_str("BLOCK_").concat(to_decimal_text(def_number as u64).as_str());
        }
        i = i + 1;
    }
    String::from_str("BLOCK_").concat(to_decimal_text(def_number as u64).as_str())
}

/// The AutoCAD colour index of a drawing colour: the nine basic colours by
/// table, 0 (by layer) kept, extended colours from 100 on moved down to
/// start at 10, anything else kept.
pub open spec fn color_index(c: u16) -> i32 {
    if c == 0 {
        0
    } else if c == 1 {
        4
    } else if c == 2 {
        7
    } else if c == 3 {
        3
    } else if c == 4 {
        2
    } else if c == 5 {
        6
    } else if c == 6 {
        5
    } else if c == 7 {
        7
    } else if c == 8 {
        1
    } else if c == 9 {
        8
    } else if c >= 100 {
        (c - 100 + 10) as i32
    } else {
        c as i32
    }
}

/// The AutoCAD colour index of drawing colour `jww_color`.
pub fn map_color(jww_color: u16) -> (r: i32)
    ensures
        r == color_index(jww_color),
{
    match jww_color {
        0 => 0,
        1 => 4,
        2 => 7,
        3 => 3,
        4 => 2,
        5 => 6,
        6 => 5,
        7 => 7,
        8 => 1,
        9 => 8,
        _ => {
            if jww_color >= 100 {
                (jww_color - 100 + 10) as i32
            } else {
                jww_color as i32
            }
        },
    }
}

/// The DXF line type of a drawing line style; styles without one of their
/// own are continuous.
pub open spec fn line_type_name(pen_style: u8) -> Seq<char> {
    if pen_style == 2 {
        "DASHED"@
    } else if pen_style == 3 {
        "DASHDOT"@
    } else if pen_style == 4 {
        "CENTER"@
    } else if pen_style == 5 {
        "DOT"@
    } else if pen_style == 6 {
        "DASHEDX2"@
    } else if pen_style == 7 {
        "DASHDOTX2"@
    } else if pen_style == 8 {
        "CENTERX2"@
    } else if pen_style == 9 {
        "DOTX2"@
    } else {
        "CONTINUOUS"@
    }
}

/// The DXF line type of drawing line style `pen_style`.
pub fn map_line_type(pen_style: u8) -> (r: String)
    ensures
        r@ == line_type_name(pen_style),
{
    let name = match pen_style {
        2 => "DASHED",
        3 => "DASHDOT",
        4 => "CENTER",
        5 => "DOT",
        6 => "DASHEDX2",
        7 => "DASHDOTX2",
        8 => "CENTERX2",
        9 => "DOTX2",
        _ => "CONTINUOUS",
    };
    String::from_str(name)
}

/// The DXF entity a drawing entity becomes.
#[derive(Debug, Clone, Copy, PartialEq, Eq)]
pub enum DxfKind {
    Line,
    Circle,
    Ellipse,
    Arc,
    Point,
    Text,
    Solid,
    Insert,
}

/// Which DXF entity a drawing entity becomes: a full arc with flatness 1.0
/// is a circle, any arc with another flatness an ellipse, the rest of the
/// arcs arcs; temporary points are left out; a block reference is an insert.
pub open spec fn dxf_kind_of(e: EntityView) -> Option<DxfKind> {
    match e {
        EntityView::Line(_) => Some(DxfKind::Line),
        EntityView::Arc(a) => if a.is_full_circle && a.flatness == ONE_BITS {
            Some(DxfKind::Circle)
        } else if a.flatness != ONE_BITS {
            Some(DxfKind::Ellipse)
        } else {
            Some(DxfKind::Arc)
        },
        EntityView::Point(p) => if p.is_temporary {
            None
        } else {
            Some(DxfKind::Point)
        },
        EntityView::Text(_) => Some(DxfKind::Text),
        EntityView::Solid(_) => Some(DxfKind::Solid),
        EntityView::Block(_) => Some(DxfKind::Insert),
    }
}

/// Which DXF entity `e` becomes, if any. A double equals 1.0 exactly when
/// its bits are those of 1.0, so the test is made on the bits.
pub fn dxf_kind(e: &Entity) -> (r: Option<DxfKind>)
    ensures
        r == dxf_kind_of(e@),
{
    match e {
        Entity::Line(_) => Some(DxfKind::Line),
        Entity::Arc(a) => {
            if a.is_full_circle && a.flatness == ONE_BITS {
                Some(DxfKind::Circle)
            } else if a.flatness != ONE_BITS {
                Some(DxfKind::Ellipse)
            } else {
                Some(DxfKind::Arc)
            }
        },
        Entity::Point(p) => {
            if p.is_temporary {
                None
            } else {
                Some(DxfKind::Point)
            }
        },
        Entity::Text(_) => Some(DxfKind::Text),
        Entity::Solid(_) => Some(DxfKind::Solid),
        Entity::Block(_) => Some(DxfKind::Insert),
    }
}

} // verus!
