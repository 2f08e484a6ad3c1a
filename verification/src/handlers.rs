pub mod keypair;
pub mod message;
pub mod token;
pub mod transfer;
