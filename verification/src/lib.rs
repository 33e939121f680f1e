pub mod handlers;
pub mod model;
pub mod render;
pub mod store;
pub mod text;
pub mod validate;
