pub mod lcd;
pub mod ppu;
pub mod render;
pub mod scan;
pub mod timing;
pub mod frame;
