//! The SquareGolf launch-monitor wire protocol: the command frames the
//! connector writes and the notification frames it reads.
pub mod commands;
pub mod parser;
