pub mod helpers;
pub mod json;
pub mod table;
pub mod text;
