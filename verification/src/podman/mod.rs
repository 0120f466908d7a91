pub mod init;
pub mod machine;
pub mod start;
