//! Live ticker display core: subscription topics, the per-frame decisions of
//! the streaming client, the cursor position table and the render plan of one
//! price update.

pub mod casing;
pub mod client;
pub mod cursor;
pub mod frame;
pub mod render;
pub mod topic;
