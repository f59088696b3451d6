pub mod block;
pub mod dex;
pub mod validator;
