pub mod registry;
pub mod table;
pub mod json;
