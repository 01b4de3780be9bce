pub mod block;
pub mod digest;
pub mod hex;
pub mod pad;
pub mod tables;
