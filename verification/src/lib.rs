pub mod gui;
pub mod layout;
pub mod model;
pub mod store;
pub mod tableview;
pub mod text;
