pub mod ads124s0x;
pub mod ltc4332;
