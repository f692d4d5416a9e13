//! Verified decision logic of a mobile-robot motion and localisation core:
//! the periodic odometry scheduler, motion exit timers, motion-loop
//! sequencing and a small assertion toolkit.

pub mod task_manager;
pub mod task_system;
pub mod exit_conditions;
pub mod motion_controller;
pub mod chassis;
pub mod odometry;
pub mod test_framework;
