pub mod claim_competition;
pub mod conclude_competition;
pub mod reset_competition;
pub mod create_competition;
pub mod deposit;
pub mod withdraw;
pub mod initialize_pool;
pub mod toggle_pool;
pub mod update_pool;
