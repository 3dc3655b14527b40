pub mod mips;
pub mod n64header;
pub mod toolchain;
