pub mod pixels;
pub mod text;
pub mod reading;
pub mod template;
pub mod raster;
pub mod cache;
pub mod parse;
pub mod publish;
