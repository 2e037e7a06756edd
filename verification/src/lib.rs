pub mod cpu;
pub mod device;
pub mod dma;
pub mod error;
pub mod input;
pub mod lcd;
pub mod palette;
pub mod ppu;
pub mod ram;
pub mod timer;
pub mod tlu;
