pub mod udt;
