pub mod start;
