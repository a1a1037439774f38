pub mod main_menu;
pub mod settings;
