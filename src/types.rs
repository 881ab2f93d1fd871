//! Entities of a drawing and their values.
use vstd::prelude::*;

verus! {

/// Attributes shared by every entity record.
#[derive(Debug, Clone, Copy, PartialEq, Eq)]
pub struct EntityBase {
    /// Line-attribute group.
    pub group: u32,
    /// Line style number.
    pub pen_style: u8,
    /// Line colour number.
    pub pen_color: u16,
    /// Line width; present in files of version 351 and later, else 0.
    pub pen_width: u16,
    /// Layer within the group (0 to 15).
    pub layer: u16,
    /// Layer group (0 to 15).
    pub layer_group: u16,
    /// Attribute flags.
    pub flag: u16,
}

/// A straight line (class `CDataSen`). Coordinates are IEEE-754 bits.
#[derive(Debug, Clone, Copy, PartialEq, Eq)]
pub struct Line {
    pub base: EntityBase,
    pub start_x: u64,
    pub start_y: u64,
    pub end_x: u64,
    pub end_y: u64,
}

/// An arc, circle or ellipse (class `CDataEnko`). Reals are IEEE-754 bits.
#[derive(Debug, Clone, Copy, PartialEq, Eq)]
pub struct Arc {
    pub base: EntityBase,
    pub center_x: u64,
    pub center_y: u64,
    /// Radius (the major radius of an ellipse).
    pub radius: u64,
    /// Start angle in radians.
    pub start_angle: u64,
    /// Swept angle in radians.
    pub arc_angle: u64,
    /// Tilt of an ellipse in radians.
    pub tilt_angle: u64,
    /// Ratio of the axes: 1.0 for a circle.
    pub flatness: u64,
    pub is_full_circle: bool,
}

/// A point (class `CDataTen`). Reals are IEEE-754 bits.
#[derive(Debug, Clone, Copy, PartialEq, Eq)]
pub struct Point {
    pub base: EntityBase,
    pub x: u64,
    pub y: u64,
    /// A construction point that is not drawn.
    pub is_temporary: bool,
    /// Marker code (read only when the line style is 100, else 0).
    pub code: u32,
    /// Marker angle (read only when the line style is 100, else 0.0).
    pub angle: u64,
    /// Marker scale (read only when the line style is 100, else 1.0).
    pub scale: u64,
}

/// A text (class `CDataMoji`). Reals are IEEE-754 bits.
#[derive(Debug, Clone, PartialEq)]
pub struct Text {
    pub base: EntityBase,
    pub start_x: u64,
    pub start_y: u64,
    pub end_x: u64,
    pub end_y: u64,
    /// Style flags: +10000 italic, +20000 bold.
    pub text_type: u32,
    pub size_x: u64,
    pub size_y: u64,
    /// Spacing between characters.
    pub spacing: u64,
    /// Rotation in degrees.
    pub angle: u64,
    pub font_name: String,
    pub content: String,
}

/// A filled quadrilateral (class `CDataSolid`). Reals are IEEE-754 bits.
#[derive(Debug, Clone, Copy, PartialEq, Eq)]
pub struct Solid {
    pub base: EntityBase,
    pub point1_x: u64,
    pub point1_y: u64,
    pub point2_x: u64,
    pub point2_y: u64,
    pub point3_x: u64,
    pub point3_y: u64,
    pub point4_x: u64,
    pub point4_y: u64,
    /// Fill colour (read only when the line colour is 10, else 0).
    pub color: u32,
}

/// A block reference (class `CDataBlock`). Reals are IEEE-754 bits.
#[derive(Debug, Clone, Copy, PartialEq, Eq)]
pub struct Block {
    pub base: EntityBase,
    pub ref_x: u64,
    pub ref_y: u64,
    pub scale_x: u64,
    pub scale_y: u64,
    /// Rotation in radians.
    pub rotation: u64,
    /// Number of the block definition referred to.
    pub def_number: u32,
}

/// A decoded drawing entity.
#[derive(Debug, Clone, PartialEq)]
pub enum Entity {
    Line(Line),
    Arc(Arc),
    Point(Point),
    Text(Text),
    Solid(Solid),
    Block(Block),
}

/// The value of a [`Text`], with its strings as character sequences.
pub struct TextView {
    pub base: EntityBase,
    pub start_x: u64,
    pub start_y: u64,
    pub end_x: u64,
    pub end_y: u64,
    pub text_type: u32,
    pub size_x: u64,
    pub size_y: u64,
    pub spacing: u64,
    pub angle: u64,
    pub font_name: Seq<char>,
    pub content: Seq<char>,
}

impl View for Text {
    type V = TextView;

    open spec fn view(&self) -> TextView {
        TextView {
            base: self.base,
            start_x: self.start_x,
            start_y: self.start_y,
            end_x: self.end_x,
            end_y: self.end_y,
            text_type: self.text_type,
            size_x: self.size_x,
            size_y: self.size_y,
            spacing: self.spacing,
            angle: self.angle,
            font_name: self.font_name@,
            content: self.content@,
        }
    }
}

/// The value of an [`Entity`].
pub enum EntityView {
    Line(Line),
    Arc(Arc),
    Point(Point),
    Text(TextView),
    Solid(Solid),
    Block(Block),
}

impl View for Entity {
    type V = EntityView;

    open spec fn view(&self) -> EntityView {
        match self {
            Entity::Line(e) => EntityView::Line(*e),
            Entity::Arc(e) => EntityView::Arc(*e),
            Entity::Point(e) => EntityView::Point(*e),
            Entity::Text(e) => EntityView::Text(e@),
            Entity::Solid(e) => EntityView::Solid(*e),
            Entity::Block(e) => EntityView::Block(*e),
        }
    }
}

impl EntityView {
    /// The shared attributes of the entity.
    pub open spec fn base(self) -> EntityBase {
        match self {
            EntityView::Line(e) => e.base,
            EntityView::Arc(e) => e.base,
            EntityView::Point(e) => e.base,
            EntityView::Text(e) => e.base,
            EntityView::Solid(e) => e.base,
            EntityView::Block(e) => e.base,
        }
    }
}

impl EntityView {
    /// The entity with its shared attributes replaced by `b`.
    pub open spec fn with_base(self, b: EntityBase) -> EntityView {
        match self {
            EntityView::Line(e) => EntityView::Line(Line { base: b, ..e }),
            EntityView::Arc(e) => EntityView::Arc(Arc { base: b, ..e }),
            EntityView::Point(e) => EntityView::Point(Point { base: b, ..e }),
            EntityView::Text(e) => EntityView::Text(TextView { base: b, ..e }),
            EntityView::Solid(e) => EntityView::Solid(Solid { base: b, ..e }),
            EntityView::Block(e) => EntityView::Block(Block { base: b, ..e }),
        }
    }
}

/// The entities of a vector, by value.
pub open spec fn entities_view(v: Seq<Entity>) -> Seq<EntityView> {
    v.map_values(|e: Entity| e@)
}

impl Entity {
    /// The shared attributes of the entity.
    pub fn base(&self) -> (r: &EntityBase)
        ensures
            *r == self@.base(),
    {
        match self {
            Entity::Line(e) => &e.base,
            Entity::Arc(e) => &e.base,
            Entity::Point(e) => &e.base,
            Entity::Text(e) => &e.base,
            Entity::Solid(e) => &e.base,
            Entity::Block(e) => &e.base,
        }
    }

    /// The shared attributes of the entity, for changing them in place.
    pub fn base_mut(&mut self) -> (r: &mut EntityBase)
        ensures
            *r == old(self)@.base(),
            final(self)@ == old(self)@.with_base(*final(r)),
    {
        match self {
            Entity::Line(e) => &mut e.base,
            Entity::Arc(e) => &mut e.base,
            Entity::Point(e) => &mut e.base,
            Entity::Text(e) => &mut e.base,
            Entity::Solid(e) => &mut e.base,
            Entity::Block(e) => &mut e.base,
        }
    }

    /// The DXF name of the entity's kind: an arc that is a full circle is a
    /// `CIRCLE`.
    pub fn dxf_type_name(&self) -> (r: &'static str)
        ensures
            r@ == entity_type_name(self@),
    {
        match self {
            Entity::Line(_) => "LINE",
            Entity::Arc(e) => {
                if e.is_full_circle {
                    "CIRCLE"
                } else {
                    "ARC"
                }
            },
            Entity::Point(_) => "POINT",
            Entity::Text(_) => "TEXT",
            Entity::Solid(_) => "SOLID",
            Entity::Block(_) => "BLOCK",
        }
    }
}

/// The DXF name of an entity's kind.
pub open spec fn entity_type_name(e: EntityView) -> Seq<char> {
    match e {
        EntityView::Line(_) => "LINE"@,
        EntityView::Arc(a) => if a.is_full_circle {
            "CIRCLE"@
        } else {
            "ARC"@
        },
        EntityView::Point(_) => "POINT"@,
        EntityView::Text(_) => "TEXT"@,
        EntityView::Solid(_) => "SOLID"@,
        EntityView::Block(_) => "BLOCK"@,
    }
}

} // verus!
