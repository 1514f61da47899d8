//! Scoped, auto-reverting mutation of process-global state: guards that
//! capture prior state (an environment variable's value, the working
//! directory) or own a fresh resource (a temporary directory), and hand back
//! the exact undo instruction when released.

pub mod dir_guard;
pub mod env_guard;
pub mod env_model;
pub mod random_id;
pub mod temp_dir;

pub use dir_guard::CurrentDir;
pub use env_guard::CurrentEnv;
pub use env_guard::RestoreAction;
pub use random_id::random_name;
pub use temp_dir::TmpDir;
