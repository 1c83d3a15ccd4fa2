//! Verified core of a Proton/umu game launcher: the game library model,
//! the add/edit form, launch-command construction, log handling and
//! playtime tracking.

pub mod text;
pub mod paths;
pub mod model;
pub mod session;
pub mod launch;
pub mod form;
pub mod library;
pub mod laws;
