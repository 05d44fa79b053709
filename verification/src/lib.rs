//! Verified core of the Nubo shell: the fixed configuration of the single
//! webview window that the shell opens, the choice of start URL, the
//! platform-dependent chrome decisions, and the step taken when window
//! construction fails. The host GUI runtime itself is driven by unverified
//! glue around this library.

pub mod config;
pub mod launch;
