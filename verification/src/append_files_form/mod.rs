pub mod append_files_form;
pub mod selected_input;

pub use append_files_form::AppendFilesForm;
pub use selected_input::SelectedInput;
