//! The verified core of a node monitoring agent: it turns what the machine reports into
//! the figures that the agent sends to its server, and decides what to do about the
//! server's commands.
//!
//! - `memory`, `process`, `network`, `disk`: the metrics taken from a `sysinfo` snapshot.
//! - `cpu`: which temperature sensors measure the CPU.
//! - `sysfs`, `gpu`: finding an AMD GPU, and the GPU figures reported for each vendor.
//! - `agent`: the handshake and the server's commands.
//! - `text`, `sum`, `rate`: characters, sums and rates that the above are built on.
//! - `sys`: the calls into `sysinfo`.
pub mod agent;
pub mod cpu;
pub mod disk;
pub mod gpu;
pub mod memory;
pub mod network;
pub mod process;
pub mod rate;
pub mod sum;
pub mod sys;
pub mod sysfs;
pub mod text;
