//! Verified core of a UI component framework: the lowering of a component
//! function's signature into a props record, and the virtual-node model that
//! a renderer mounts and dispatches events through.

pub mod values;
pub mod text;
pub mod signature;
pub mod items;
pub mod record_equality;
pub mod component;
pub mod syntax;
pub mod render;
pub mod nodes;
pub mod utils;
