//! The names that most users of the layer need.

pub use crate::config::builder::WASMLayerConfigBuilder;
pub use crate::config::console::ConsoleConfig;
pub use crate::config::WASMLayerConfig;
pub use crate::layer::WASMLayer;
