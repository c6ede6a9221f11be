//! Terminal client for a pyLoad download server: the screens, forms, tables
//! and the decisions that the interface takes on keys and server events.
pub mod add_package_form;
pub mod append_files_form;
pub mod number_text;
pub mod palette;
pub mod model;
pub mod table;
pub mod status_bar;
pub mod key_hints;
pub mod text_input;
pub mod table_state;
pub mod app_action;
pub mod packages_screen;
pub mod files_screen;
pub mod downloads_screen;
pub mod text;
pub mod requests;
pub mod screens;
pub mod app;
pub mod search;
pub mod events;
pub mod utils;
pub mod laws;
pub mod action_laws;
