//! Session lifecycle, configuration checks and transfer classification for a
//! software-defined-radio peripheral. The transport calls themselves are made
//! by the caller; every decision around them is made and proved here.
pub mod sample;
pub mod error;
pub mod config;
pub mod catalog;
pub mod channel;
pub mod session;
