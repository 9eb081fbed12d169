pub mod collect_handler;
pub mod execute_handler;
pub mod transaction_handler;
