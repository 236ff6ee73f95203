//! Backend logic of a menu-bar reminders utility: the permission gate, the
//! mapping between native calendar data and the shapes handed to the front
//! end, the selection of enabled lists, and the argument building for the
//! helper processes it starts.

pub mod model;
pub mod session;
pub mod settings;
pub mod process;
