//! Per-language runners and the raw-command service.

pub mod node;
pub mod python;
pub mod rust;
pub mod tool;
