//! The decoded document: layer groups, layers, block definitions, and the
//! default names of groups and layers.
use vstd::prelude::*;

use crate::types::{entities_view, Entity, EntityBase, EntityView};

verus! {

/// One layer of a layer group.
#[derive(Debug, Clone, PartialEq)]
pub struct Layer {
    /// 0 hidden, 1 visible, 2 editable, 3 write target.
    pub state: u32,
    /// Non-zero when the layer is read-only.
    pub protect: u32,
    pub name: String,
}

/// One of the sixteen layer groups, each with sixteen layers.
#[derive(Debug, Clone, PartialEq)]
pub struct LayerGroup {
    /// 0 hidden, 1 visible, 2 editable, 3 write target.
    pub state: u32,
    /// The layer written to (0 to 15).
    pub write_layer: u32,
    /// Scale denominator, as IEEE-754 bits (1.0 means 1:1).
    pub scale: u64,
    /// Non-zero when the group is read-only.
    pub protect: u32,
    /// The sixteen layers.
    pub layers: Vec<Layer>,
    pub name: String,
}

/// A block definition (kept for the document's shape; the decoder leaves
/// the list empty).
#[derive(Debug, Clone, PartialEq)]
pub struct BlockDef {
    pub base: EntityBase,
    pub number: u32,
    pub is_referenced: bool,
    pub name: String,
    pub entities: Vec<Entity>,
}

/// A decoded drawing.
#[derive(Debug, Clone, PartialEq)]
pub struct Document {
    /// Format version (351 for 3.51, 420 for 4.20, ...).
    pub version: u32,
    pub memo: String,
    pub paper_size: u32,
    /// The layer group written to (0 to 15).
    pub write_layer_group: u32,
    /// The sixteen layer groups.
    pub layer_groups: Vec<LayerGroup>,
    pub entities: Vec<Entity>,
    pub block_defs: Vec<BlockDef>,
}

/// The value of a [`Layer`].
pub struct LayerView {
    pub state: u32,
    pub protect: u32,
    pub name: Seq<char>,
}

/// The value of a [`LayerGroup`].
pub struct LayerGroupView {
    pub state: u32,
    pub write_layer: u32,
    pub scale: u64,
    pub protect: u32,
    pub layers: Seq<LayerView>,
    pub name: Seq<char>,
}

/// The value of a [`BlockDef`].
pub struct BlockDefView {
    pub base: EntityBase,
    pub number: u32,
    pub is_referenced: bool,
    pub name: Seq<char>,
    pub entities: Seq<EntityView>,
}

/// The value of a [`Document`].
pub struct DocumentView {
    pub version: u32,
    pub memo: Seq<char>,
    pub paper_size: u32,
    pub write_layer_group: u32,
    pub layer_groups: Seq<LayerGroupView>,
    pub entities: Seq<EntityView>,
    pub block_defs: Seq<BlockDefView>,
}

impl View for Layer {
    type V = LayerView;

    open spec fn view(&self) -> LayerView {
        LayerView { state: self.state, protect: self.protect, name: self.name@ }
    }
}

impl View for LayerGroup {
    type V = LayerGroupView;

    open spec fn view(&self) -> LayerGroupView {
        LayerGroupView {
            state: self.state,
            write_layer: self.write_layer,
            scale: self.scale,
            protect: self.protect,
            layers: self.layers@.map_values(|l: Layer| l@),
            name: self.name@,
        }
    }
}

impl View for BlockDef {
    type V = BlockDefView;

    open spec fn view(&self) -> BlockDefView {
        BlockDefView {
            base: self.base,
            number: self.number,
            is_referenced: self.is_referenced,
            name: self.name@,
            entities: entities_view(self.entities@),
        }
    }
}

impl View for Document {
    type V = DocumentView;

    open spec fn view(&self) -> DocumentView {
        DocumentView {
            version: self.version,
            memo: self.memo@,
            paper_size: self.paper_size,
            write_layer_group: self.write_layer_group,
            layer_groups: self.layer_groups@.map_values(|g: LayerGroup| g@),
            entities: entities_view(self.entities@),
            block_defs: self.block_defs@.map_values(|b: BlockDef| b@),
        }
    }
}

/// The sixteen upper-case hexadecimal digits.
pub open spec fn hex_digits() -> Seq<char> {
    seq!['0', '1', '2', '3', '4', '5', '6', '7', '8', '9', 'A', 'B', 'C', 'D', 'E', 'F']
}

/// The name a layer group gets when the file gives it none: `Group` and the
/// group's hexadecimal digit.
pub open spec fn default_group_name(g: int) -> Seq<char> {
    "Group"@ + seq![hex_digits()[g]]
}

/// The name a layer gets when the file gives it none: the group's and the
/// layer's hexadecimal digits, joined by `-`.
pub open spec fn default_layer_name(g: int, l: int) -> Seq<char> {
    seq![hex_digits()[g], '-', hex_digits()[l]]
}

/// The upper-case hexadecimal digit of `n`.
pub(crate) fn hex_digit(n: usize) -> (r: &'static str)
    requires
        n < 16,
    ensures
        r@ == seq![hex_digits()[n as int]],
{
    let r = if n == 0 {
        "0"
    } else if n == 1 {
        "1"
    } else if n == 2 {
        "2"
    } else if n == 3 {
        "3"
    } else if n == 4 {
        "4"
    } else if n == 5 {
        "5"
    } else if n == 6 {
        "6"
    } else if n == 7 {
        "7"
    } else if n == 8 {
        "8"
    } else if n == 9 {
        "9"
    } else if n == 10 {
        "A"
    } else if n == 11 {
        "B"
    } else if n == 12 {
        "C"
    } else if n == 13 {
        "D"
    } else if n == 14 {
        "E"
    } else {
        "F"
    };
    proof {
        reveal_strlit("0");
        reveal_strlit("1");
        reveal_strlit("2");
        reveal_strlit("3");
        reveal_strlit("4");
        reveal_strlit("5");
        reveal_strlit("6");
        reveal_strlit("7");
        reveal_strlit("8");
        reveal_strlit("9");
        reveal_strlit("A");
        reveal_strlit("B");
        reveal_strlit("C");
        reveal_strlit("D");
        reveal_strlit("E");
        reveal_strlit("F");
        assert(r@ =~= seq![hex_digits()[n as int]]);
    }
    r
}

/// `Group` followed by the hexadecimal digit of `g`.
pub fn group_name(g: usize) -> (r: String)
    requires
        g < 16,
    ensures
        r@ == default_group_name(g as int),
{
    String::from_str("Group").concat(hex_digit(g))
}

/// The hexadecimal digits of `g` and `l`, joined by `-`.
pub fn layer_name(g: usize, l: usize) -> (r: String)
    requires
        g < 16,
        l < 16,
    ensures
        r@ == default_layer_name(g as int, l as int),
{
    let r = String::from_str(hex_digit(g)).concat("-").concat(hex_digit(l));
    proof {
        reveal_strlit("-");
        assert(r@ =~= default_layer_name(g as int, l as int));
    }
    r
}

impl Default for Layer {
    fn default() -> (r: Self)
        ensures
            r@ == default_layer_view(),
    {
        let r = Layer { state: 2, protect: 0, name: String::new() };
        assert(r@.name =~= Seq::<char>::empty());
        r
    }
}

/// A layer before anything is known of it: editable, unprotected, unnamed.
pub open spec fn default_layer_view() -> LayerView {
    LayerView { state: 2, protect: 0, name: Seq::empty() }
}

/// A layer group before anything is known of it: editable, writing to layer
/// 0, scale 1.0, unprotected, unnamed, with sixteen default layers.
pub open spec fn default_group_view() -> LayerGroupView {
    LayerGroupView {
        state: 2,
        write_layer: 0,
        scale: 0x3FF0_0000_0000_0000,
        protect: 0,
        layers: Seq::new(16, |l: int| default_layer_view()),
        name: Seq::empty(),
    }
}

impl Default for LayerGroup {
    fn default() -> (r: Self)
        ensures
            r@ == default_group_view(),
    {
        let mut layers: Vec<Layer> = Vec::new();
        let mut i: usize = 0;
        while i < 16
            invariant
                i <= 16,
                layers@.len() == i,
                forall|l: int| 0 <= l < i ==> #[trigger] layers@[l]@ == default_layer_view(),
            decreases 16 - i,
        {
            layers.push(Layer::default());
            i = i + 1;
        }
        let r = LayerGroup {
            state: 2,
            write_layer: 0,
            scale: 0x3FF0_0000_0000_0000,
            protect: 0,
            layers,
            name: String::new(),
        };
        assert(r@.layers =~= default_group_view().layers);
        assert(r@.name =~= Seq::<char>::empty());
        r
    }
}

impl Default for Document {
    fn default() -> (r: Self)
        ensures
            r.version == 0,
            r.memo@.len() == 0,
            r.paper_size == 0,
            r.write_layer_group == 0,
            r.layer_groups@.len() == 16,
            forall|g: int| 0 <= g < 16 ==> #[trigger] r.layer_groups@[g]@ == default_group_view(),
            r.entities@.len() == 0,
            r.block_defs@.len() == 0,
    {
        let mut layer_groups: Vec<LayerGroup> = Vec::new();
        let mut i: usize = 0;
        while i < 16
            invariant
                i <= 16,
                layer_groups@.len() == i,
                forall|g: int| 0 <= g < i ==> #[trigger] layer_groups@[g]@ == default_group_view(),
            decreases 16 - i,
        {
            layer_groups.push(LayerGroup::default());
            i = i + 1;
        }
        Document {
            version: 0,
            memo: String::new(),
            paper_size: 0,
            write_layer_group: 0,
            layer_groups,
            entities: Vec::new(),
            block_defs: Vec::new(),
        }
    }
}

} // verus!
