pub mod commitment;
