pub mod swap_manager;
