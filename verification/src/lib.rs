//! Native command handlers of a desktop shell: a greeting formatter and a
//! resolver of the user's conventional directories.
//!
//! Every function here is total and free of side effects. The process
//! environment is never read by the library: callers look the variables up
//! and hand the outcome in as plain values.

pub mod directories;
pub mod greeting;
pub mod home;
pub mod json;

pub use directories::DirectorySet;
pub use greeting::greet;
pub use home::resolve_home;
pub use json::get_user_dirs;
