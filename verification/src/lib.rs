pub mod data_structure;
pub mod devices;
pub mod interfaces;
pub mod net;
pub mod platform;
pub mod print;
pub mod protocols;
