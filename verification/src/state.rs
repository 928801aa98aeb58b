pub mod accounts;
pub mod records;
pub mod utils;
