pub mod cache;
pub mod comms;
pub mod dma;
