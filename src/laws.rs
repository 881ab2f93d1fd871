//! Properties of the decoder, proved over the model of the format.
use vstd::prelude::*;

use crate::decode::parse_outcome;
use crate::document::{Document, DocumentView};
use crate::error::{ParseError, ParseErrorView};
use crate::format::{
    base_len, entity_base_at, entity_list_start, lookup, parse_spec, point_len, push_entity,
    record_at, records_from, solid_len, stream_start, ClassKind, Record, StreamState, NEW_CLASS,
    NULL_OBJECT, PEN_WIDTH_VERSION,
};
use crate::reader::{fits, signature, string_header_at, u16_at, u32_at};

verus! {

/// Any input whose first eight bytes are not `JwwData.` is refused with
/// `InvalidSignature`.
pub proof fn lemma_signature_gate(d: Seq<u8>)
    requires
        d.len() >= 8,
        d.subrange(0, 8) != signature(),
    ensures
        parse_spec(d) == Err::<DocumentView, ParseErrorView>(ParseErrorView::InvalidSignature),
{
}

/// Any input shorter than eight bytes is refused with `InvalidSignature`.
pub proof fn lemma_short_input(d: Seq<u8>)
    requires
        d.len() < 8,
    ensures
        parse_spec(d) == Err::<DocumentView, ParseErrorView>(ParseErrorView::InvalidSignature),
{
}

/// A decoded document has sixteen layer groups of sixteen layers each.
pub proof fn lemma_shape(d: Seq<u8>)
    ensures
        parse_spec(d) is Ok ==> {
            let doc = parse_spec(d)->Ok_0;
            &&& doc.layer_groups.len() == 16
            &&& forall|g: int| 0 <= g < 16 ==> #[trigger] doc.layer_groups[g].layers.len() == 16
        },
{
}

/// Every layer group and every layer of a decoded document has a non-empty
/// name.
pub proof fn lemma_names_non_empty(d: Seq<u8>)
    ensures
        parse_spec(d) is Ok ==> {
            let doc = parse_spec(d)->Ok_0;
            &&& forall|g: int| 0 <= g < 16 ==> #[trigger] doc.layer_groups[g].name.len() > 0
            &&& forall|g: int, l: int|
                0 <= g < 16 && 0 <= l < 16 ==> #[trigger] doc.layer_groups[g].layers[l].name.len()
                    > 0
        },
{
}

/// The version of a decoded document is the 32-bit word at offset 8.
pub proof fn lemma_version(d: Seq<u8>)
    ensures
        parse_spec(d) is Ok ==> parse_spec(d)->Ok_0.version == u32_at(d, 8),
{
}

/// `n` records add at most `n` entities.
proof fn lemma_records_add_at_most(d: Seq<u8>, version: u32, n: nat, st: StreamState)
    ensures
        records_from(d, version, n, st) is Ok ==> records_from(d, version, n, st)->Ok_0.entities.len()
            <= st.entities.len() + n,
    decreases n,
{
    if n > 0 {
        match record_at(d, version, st.pos, st.table, st.next_pid) {
            Err(_) => {},
            Ok(rec) => {
                let next = StreamState {
                    pos: rec.pos,
                    table: rec.table,
                    next_pid: rec.next_pid,
                    entities: push_entity(st.entities, rec.entity),
                };
                lemma_records_add_at_most(d, version, (n - 1) as nat, next);
            },
        }
    }
}

/// The entity stream of a decoded document is found by the scan, all of its
/// counted records are read, and it gives at most as many entities as its
/// count word says (null objects and dimensions give none).
pub proof fn lemma_entity_count(d: Seq<u8>)
    ensures
        parse_spec(d) is Ok ==> {
            let doc = parse_spec(d)->Ok_0;
            &&& entity_list_start(d, doc.version) is Some
            &&& records_from(
                d,
                doc.version,
                u16_at(d, entity_list_start(d, doc.version)->0) as nat,
                stream_start(entity_list_start(d, doc.version)->0),
            ) is Ok
            &&& doc.entities.len() <= u16_at(d, entity_list_start(d, doc.version)->0)
        },
{
    if parse_spec(d) is Ok {
        let version = u32_at(d, 8);
        let s = entity_list_start(d, version)->0;
        lemma_records_add_at_most(d, version, u16_at(d, s) as nat, stream_start(s));
    }
}

/// Two results that [`crate::parse`] may return on the same bytes are the
/// same value: the decoder has no hidden state.
pub proof fn lemma_parse_deterministic(
    d: Seq<u8>,
    r1: Result<Document, ParseError>,
    r2: Result<Document, ParseError>,
)
    requires
        parse_outcome(d, r1),
        parse_outcome(d, r2),
    ensures
        r1 is Ok <==> r2 is Ok,
        r1 is Ok ==> r1->Ok_0@ == r2->Ok_0@,
        r1 is Err ==> r1->Err_0@ == r2->Err_0@,
{
}

/// A string whose first length byte is `0xFF` takes its length from the next
/// word, unless that word is `0xFFFF`; then from the 32-bit word after it.
pub proof fn lemma_long_string_headers(d: Seq<u8>, p: int)
    requires
        fits(d, p, 7),
        d[p] == 0xFF,
    ensures
        u16_at(d, p + 1) < 0xFFFF ==> string_header_at(d, p) == Some(
            (u16_at(d, p + 1) as int, p + 3),
        ),
        u16_at(d, p + 1) == 0xFFFF ==> string_header_at(d, p) == Some(
            (u32_at(d, p + 3) as int, p + 7),
        ),
{
}

/// A null-object record gives no entity, leaves the class table alone and
/// still takes one persistence identifier.
pub proof fn lemma_null_object(
    d: Seq<u8>,
    version: u32,
    p: int,
    table: Seq<Option<ClassKind>>,
    next_pid: int,
)
    requires
        fits(d, p, 2),
        u16_at(d, p) == NULL_OBJECT,
    ensures
        record_at(d, version, p, table, next_pid) == Ok::<Record, ParseErrorView>(
            Record { entity: None, pos: p + 2, table, next_pid: next_pid + 1 },
        ),
{
    reveal(record_at);
}

/// A back-reference to an identifier that no class is bound to is refused
/// with `UnknownClassPid`.
pub proof fn lemma_unknown_pid(
    d: Seq<u8>,
    version: u32,
    p: int,
    table: Seq<Option<ClassKind>>,
    next_pid: int,
)
    requires
        fits(d, p, 2),
        u16_at(d, p) != NEW_CLASS,
        u16_at(d, p) != NULL_OBJECT,
        lookup(table, (u16_at(d, p) as int) % 0x8000) is None,
    ensures
        record_at(d, version, p, table, next_pid) == Err::<Record, ParseErrorView>(
            ParseErrorView::UnknownClassPid(((u16_at(d, p) as int) % 0x8000) as u32),
        ),
{
    reveal(record_at);
}

/// The line width is read only from version 351 on: before, the shared
/// attributes take 13 bytes and the width is 0; from then on, 15 bytes with
/// the width after the colour.
pub proof fn lemma_pen_width_gate(d: Seq<u8>, p: int, version: u32)
    ensures
        version < PEN_WIDTH_VERSION ==> base_len(version) == 13 && entity_base_at(
            d,
            p,
            version,
        ).pen_width == 0 && entity_base_at(d, p, version).layer == u16_at(d, p + 7),
        version >= PEN_WIDTH_VERSION ==> base_len(version) == 15 && entity_base_at(
            d,
            p,
            version,
        ).pen_width == u16_at(d, p + 7) && entity_base_at(d, p, version).layer == u16_at(
            d,
            p + 9,
        ),
{
}

/// A point record carries the marker code, angle and scale (20 more bytes)
/// exactly when its line style is 100.
pub proof fn lemma_point_tail(d: Seq<u8>, p: int, version: u32)
    ensures
        entity_base_at(d, p, version).pen_style == 100 ==> point_len(d, p, version) == base_len(
            version,
        ) + 40,
        entity_base_at(d, p, version).pen_style != 100 ==> point_len(d, p, version) == base_len(
            version,
        ) + 20,
{
}

/// A solid record carries a colour word (4 more bytes) exactly when its line
/// colour is 10.
pub proof fn lemma_solid_tail(d: Seq<u8>, p: int, version: u32)
    ensures
        entity_base_at(d, p, version).pen_color == 10 ==> solid_len(d, p, version) == base_len(
            version,
        ) + 68,
        entity_base_at(d, p, version).pen_color != 10 ==> solid_len(d, p, version) == base_len(
            version,
        ) + 64,
{
}

} // verus!
