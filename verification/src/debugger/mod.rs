pub mod commands;
pub mod debugger;
pub mod disas;
pub mod metrics;
pub mod state;
