pub mod id_generation;
pub mod model;
pub mod presenter;
pub mod task;
pub mod text;
pub mod view;
