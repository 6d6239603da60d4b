pub mod canvas;
pub mod palette;
