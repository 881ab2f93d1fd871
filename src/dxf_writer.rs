//! The parts of DXF text that hold no real numbers: the HEADER and TABLES
//! sections with the layer table, and the opening lines of every entity.
//! Each value stands on a line of its own, after a line with its group code.
use vstd::prelude::*;

use crate::dxf::{decimal_text, to_decimal_text, Layer, LayerView};

verus! {

/// `n` in decimal, with a minus sign when it is negative.
pub open spec fn signed_decimal_text(n: int) -> Seq<char> {
    if n < 0 {
        "-"@ + decimal_text((-n) as nat)
    } else {
        decimal_text(n as nat)
    }
}

/// `n` in decimal, as `{}` writes it.
pub fn to_signed_decimal_text(n: i32) -> (r: String)
    ensures
        r@ == signed_decimal_text(n as int),
{
    if n < 0 {
        let magnitude = (-(n as i64)) as u64;
        String::from_str("-").concat(to_decimal_text(magnitude).as_str())
    } else {
        to_decimal_text(n as u64)
    }
}

/// `s` as a line.
pub open spec fn line(s: Seq<char>) -> Seq<char> {
    s + "\n"@
}

/// The entry of one layer in the layer table: name, flags, colour and line
/// type, then a flags pair for a frozen layer and one for a locked layer.
pub open spec fn layer_entry_text(l: LayerView) -> Seq<char> {
    "0\nLAYER\n2\n"@ + line(l.name) + "70\n0\n62\n"@ + line(signed_decimal_text(l.color as int))
        + "6\n"@ + line(l.line_type) + (if l.frozen {
        "70\n1\n"@
    } else {
        Seq::empty()
    }) + (if l.locked {
        "70\n4\n"@
    } else {
        Seq::empty()
    })
}

/// The entries of `layers`, in order.
pub open spec fn layer_entries_text(layers: Seq<LayerView>) -> Seq<char>
    decreases layers.len(),
{
    if layers.len() == 0 {
        Seq::empty()
    } else {
        layer_entries_text(layers.drop_last()) + layer_entry_text(layers.last())
    }
}

/// The HEADER section (empty) and the TABLES section: a line type table
/// with CONTINUOUS, then the layer table with its entry count, the layer
/// `0` that DXF requires, and `layers`.
pub open spec fn tables_text(layers: Seq<LayerView>) -> Seq<char> {
    "0\nSECTION\n2\nHEADER\n0\nENDSEC\n0\nSECTION\n2\nTABLES\n"@
        + "0\nTABLE\n2\nLTYPE\n70\n1\n0\nLTYPE\n2\nCONTINUOUS\n70\n0\n3\nSolid line\n72\n65\n73\n0\n40\n0.0\n0\nENDTAB\n"@
        + "0\nTABLE\n2\nLAYER\n70\n"@ + line(decimal_text((layers.len() + 1) as nat))
        + "0\nLAYER\n2\n0\n70\n0\n62\n7\n6\nCONTINUOUS\n"@ + layer_entries_text(layers)
        + "0\nENDTAB\n0\nENDSEC\n"@
}

/// Writes the entry of `layer` in the layer table.
pub fn layer_entry(layer: &Layer) -> (r: String)
    ensures
        r@ == layer_entry_text(layer@),
{
    let mut out = String::from_str("0\nLAYER\n2\n");
    out.append(layer.name.as_str());
    out.append("\n");
    out.append("70\n0\n62\n");
    out.append(to_signed_decimal_text(layer.color).as_str());
    out.append("\n");
    out.append("6\n");
    out.append(layer.line_type.as_str());
    out.append("\n");
    let ghost before_flags = out@;
    if layer.frozen {
        out.append("70\n1\n");
    }
    let ghost after_frozen = out@;
    if layer.locked {
        out.append("70\n4\n");
    }
    proof {
        let l = layer@;
        assert(after_frozen =~= before_flags + (if l.frozen {
            "70\n1\n"@
        } else {
            Seq::empty()
        }));
        assert(out@ =~= after_frozen + (if l.locked {
            "70\n4\n"@
        } else {
            Seq::empty()
        }));
        assert(before_flags =~= "0\nLAYER\n2\n"@ + line(l.name) + "70\n0\n62\n"@ + line(
            signed_decimal_text(l.color as int),
        ) + "6\n"@ + line(l.line_type));
    }
    out
}

/// Writes the HEADER and TABLES sections for `layers`.
pub fn write_tables(layers: &Vec<Layer>) -> (r: String)
    requires
        layers@.len() < u64::MAX,
    ensures
        r@ == tables_text(layers@.map_values(|l: Layer| l@)),
{
    let ghost views = layers@.map_values(|l: Layer| l@);
    let mut out = String::from_str("0\nSECTION\n2\nHEADER\n0\nENDSEC\n0\nSECTION\n2\nTABLES\n");
    out.append(
        "0\nTABLE\n2\nLTYPE\n70\n1\n0\nLTYPE\n2\nCONTINUOUS\n70\n0\n3\nSolid line\n72\n65\n73\n0\n40\n0.0\n0\nENDTAB\n",
    );
    out.append("0\nTABLE\n2\nLAYER\n70\n");
    out.append(to_decimal_text(layers.len() as u64 + 1).as_str());
    out.append("\n");
    out.append("0\nLAYER\n2\n0\n70\n0\n62\n7\n6\nCONTINUOUS\n");
    let ghost head = out@;
    let mut i: usize = 0;
    assert(views.take(0) =~= Seq::<LayerView>::empty());
    assert(out@ =~= head + layer_entries_text(views.take(0)));
    while i < layers.len()
        invariant
            i <= layers@.len(),
            views == layers@.map_values(|l: Layer| l@),
            out@ == head + layer_entries_text(views.take(i as int)),
        decreases layers@.len() - i,
    {
        out.append(layer_entry(&layers[i]).as_str());
        proof {
            assert(views.take(i + 1).drop_last() =~= views.take(i as int));
            assert(views.take(i + 1).last() == layers@[i as int]@);
        }
        i = i + 1;
    }
    assert(views.take(i as int) =~= views);
    out.append("0\nENDTAB\n0\nENDSEC\n");
    out
}

/// The opening lines of an entity: its kind, then layer, colour and line
/// type.
pub open spec fn entity_head_text(
    kind: Seq<char>,
    layer: Seq<char>,
    color: i32,
    line_type: Seq<char>,
) -> Seq<char> {
    "0\n"@ + line(kind) + "8\n"@ + line(layer) + "62\n"@ + line(signed_decimal_text(color as int))
        + "6\n"@ + line(line_type)
}

/// Writes the opening lines of an entity of kind `kind`.
pub fn write_entity_head(kind: &str, layer: &str, color: i32, line_type: &str) -> (r: String)
    ensures
        r@ == entity_head_text(kind@, layer@, color, line_type@),
{
    let mut out = String::from_str("0\n");
    out.append(kind);
    out.append("\n");
    out.append("8\n");
    out.append(layer);
    out.append("\n");
    out.append("62\n");
    out.append(to_signed_decimal_text(color).as_str());
    out.append("\n");
    out.append("6\n");
    out.append(line_type);
    out.append("\n");
    proof {
        assert(out@ =~= entity_head_text(kind@, layer@, color, line_type@));
    }
    out
}

} // verus!
