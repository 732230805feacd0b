//! Request handling logic of a metadata service that drives ExifTool:
//! metadata groups and the ExifTool arguments they select, normalisation of
//! the tags that ExifTool reports, form handling and the replies.

pub mod command;
pub mod form;
pub mod json;
pub mod metadata_type;
pub mod normalize;
pub mod reply;
pub mod text;

pub use json::{JsonObject, JsonValue, JsonView};
pub use metadata_type::MetadataType;
