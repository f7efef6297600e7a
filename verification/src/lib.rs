//! Turning one regular-expression match on a line of text into an output
//! record: delimiter-separated columns or a JSON object.

pub mod extract;
pub mod io;
pub mod json;
pub mod laws;
pub mod pattern;
pub mod record;
pub mod serializers;
pub mod text;
pub mod utils;
