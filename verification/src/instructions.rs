pub mod claim_drop;
pub mod initialize_drop;
