//! Engineering data model for bolted joints: threads, materials, fasteners,
//! the library that stores them, and the strength and mass estimates derived
//! from them. Every magnitude is an exact fixed-point [`quantity::Quantity`].

pub mod wide;
pub mod error;
pub mod quantity;
pub mod thread;
pub mod material;
pub mod fastener;
pub mod elements;
pub mod joint;
pub mod library;
pub mod state;
