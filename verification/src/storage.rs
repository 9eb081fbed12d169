pub mod in_memory_accounts_storage;
pub mod store;
