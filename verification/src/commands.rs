pub mod port_forwarding;
pub mod session;
pub mod sftp;
pub mod shell;
