pub mod create_tx_pda;
pub mod initialize_counter;
