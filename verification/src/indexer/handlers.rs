pub mod block;
pub mod block_data;
pub mod nullifier;
pub mod storage_decoder;
pub mod transaction;
pub mod note;
pub mod account;
