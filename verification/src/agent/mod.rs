pub mod types;
pub mod tools;
pub mod traits;
pub mod v2;
pub mod worker;
