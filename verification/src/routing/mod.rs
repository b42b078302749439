//! Routing: which tools a caller may see, and which endpoint a path names.

pub mod path_router;
pub mod tool_filter;

pub use self::path_router::PathRouter;
pub use self::tool_filter::{apply_tool_filter, is_tool_allowed};
