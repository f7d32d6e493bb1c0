pub mod ram;
pub mod dma;
pub mod cartridge;
pub mod mbc3;
pub mod boot;
pub mod bus;
pub mod transfer;
