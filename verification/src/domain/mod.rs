pub mod product;
pub mod text;
pub mod timestamp;
pub mod value_objects;
