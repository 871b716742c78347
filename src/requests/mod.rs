pub mod aggregate;
pub mod delete;
pub mod find;
pub mod find_one;
pub mod insert_many;
pub mod insert_one;
pub mod update;
