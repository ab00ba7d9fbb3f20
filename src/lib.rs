//! Turns an album description into a linked, render-ready view of a static
//! photo gallery, and decides the per-photo work of writing the site.

pub mod config;
pub mod error;
pub mod markdown;
pub mod site;
pub mod slug;
pub mod thumb;
pub mod view;
