pub mod conversion;
pub mod dxl;
pub mod handler;
pub mod packet;
pub mod receiver;
pub mod register;
pub mod v1;
