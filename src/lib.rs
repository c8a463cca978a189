//! Pixel addressing, fixture topology, frame buffers and the decisions of the
//! real-time render loop of an LED installation.
pub mod mapping;
pub mod matrix_mapping;
pub mod strip_mapping;
pub mod topology;
pub mod frame;
pub mod render;
pub mod artnet;
pub mod pd_receive;
pub mod scheduler;
pub mod rlock;
pub mod transmit;
