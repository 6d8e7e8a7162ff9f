use vstd::prelude::*;

pub mod channel;
pub mod laws;
pub mod notification;
pub mod status;
pub mod updater;
pub mod version;
