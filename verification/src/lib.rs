//! A registry of to-do tasks, each owned by the identity that created it.

pub mod codec;
pub mod history;
pub mod laws;
pub mod registry;
pub mod storage;
pub mod store;
pub mod task;

pub use codec::{decoding, encoding, fits, storable};
pub use history::Call;
pub use registry::{Registry, NOT_OWNER, TASK_NOT_FOUND};
pub use store::{add_task, delete_task, get_tasks, update_task, TaskStore};
pub use task::{Identity, Task, TaskView};
