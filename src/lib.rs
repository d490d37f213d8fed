//! The life of a single-window desktop application: start-up, the close
//! command, and the fatal errors that end it, as a verified transition table.
pub mod lifecycle;
