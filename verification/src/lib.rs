//! The decisions of a trackball keyboard's firmware: which pointing settings
//! are in force, what each user key does to them, how the status LED shows the
//! active Bluetooth profile, and under which address the keyboard advertises.
//!
//! Nothing here touches hardware. Each function takes what was read from the
//! outside and returns what is to be sent there; the tasks that read and send
//! live in the application.

pub mod address;
pub mod board;
pub mod dispatcher;
pub mod effects;
pub mod keys;
pub mod laws;
pub mod led;
pub mod settings;
pub mod steps;
