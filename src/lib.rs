//! Discrete core of a multi-axis robot arm: error kinds, recognition of
//! configuration descriptors, batched per-axis outcomes with the safety gate
//! before motion, and the session state machine for homing, motion and tool
//! selection.

pub mod conf;
pub mod group;
pub mod robot;
pub mod types;

pub use conf::{comp_kind, tool_kind, CompKind, ToolKind};
pub use group::{admit_drive, all_ok, batch_outcome, drive_outcome, gammas_verdict, DriveError};
pub use robot::{Phase, Session, ToolChange};
pub use types::{ErrType, SyArmError};
