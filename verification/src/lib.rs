pub mod datasize;
pub mod fits;
pub mod render;

pub use datasize::DataSize;
pub use datasize::DataSizeError;
pub use fits::Fits;
