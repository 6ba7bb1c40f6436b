pub mod client;
pub mod dispatch;
pub mod session;
pub mod subscription;
pub mod trading;
pub mod parse;
