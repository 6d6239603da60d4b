pub mod app;
pub mod command;
pub mod image;
pub mod widget;
