//! Session and turn bookkeeping for a long-lived agent subprocess.
pub mod text;
pub mod channel;
pub mod envelope;
pub mod home;
pub mod install;
pub mod path_env;
pub mod turns;
