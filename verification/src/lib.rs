pub mod lit;
pub mod textops;
pub mod tree;
pub mod state;
pub mod render_spec;
pub mod render;
pub mod api;
pub mod laws;

pub use api::{beautify, FormatError};
pub use state::{Arguments, Cfg, State};
pub use tree::{Field, Node, NodeKind};
