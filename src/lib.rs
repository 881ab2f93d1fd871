//! Decoder for the Jw_cad drawing format (`.jww`), with what a DXF export
//! needs of a decoded drawing, and a small reader for DXF text.
//!
//! Every function here is verified against the mathematical model of the
//! format in [`format`]; reals are carried as their IEEE-754 bits.

pub mod decode;
pub mod document;
pub mod dxf;
pub mod dxf_text;
pub mod dxf_writer;
pub mod error;
pub mod format;
pub mod laws;
pub mod reader;
pub mod types;

pub use decode::{
    class_kind_of, find_entity_list_offset, parse, parse_entity_base, parse_entity_body,
    parse_entity_list, parse_entity_with_pid_tracking,
};
pub use document::{
    group_name, layer_name, BlockDef, BlockDefView, Document, DocumentView, Layer, LayerGroup,
    LayerGroupView, LayerView,
};
pub use error::{ParseError, ParseErrorView};
pub use reader::{trim_trailing_nul, Reader};
pub use types::{Arc, Block, Entity, EntityBase, EntityView, Line, Point, Solid, Text, TextView};
