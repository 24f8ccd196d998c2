pub mod coe;
pub mod mailbox;
pub mod foe;
pub mod task;
pub mod lan9252;
pub mod task1;
