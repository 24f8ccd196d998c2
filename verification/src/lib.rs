//! Verified protocol, state and encoding logic of the Poulpe motor-controller board.

pub mod config;
pub mod dynamixel;
pub mod motor_control;
pub mod state_machine;
pub mod ethercat;
pub mod registers;
pub mod sensors;
pub mod shared_memory;
pub mod storage;
