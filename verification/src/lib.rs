//! A bedside vital-signs monitor: a generator of plausible readings and the
//! consumer that parses, validates, stores and raises alerts on them.

pub mod agent;
pub mod db;
pub mod laws;
pub mod models;
pub mod parser;
pub mod server;
pub mod text;
pub mod training_data;
