pub mod constants;
pub mod errors;
pub mod events;
pub mod hash;
pub mod instructions;
pub mod protocol;
pub mod signature;
pub mod state;
