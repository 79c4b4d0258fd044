pub mod data_store;
pub mod email_client;
pub mod hashmap_two_fa_code_store;
pub mod hashmap_user_store;
pub mod hashset_banned_token_store;
pub mod mock_email_client;
