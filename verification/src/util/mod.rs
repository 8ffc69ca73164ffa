pub mod ptr;
