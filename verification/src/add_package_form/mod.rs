pub mod add_package_form;
pub mod selected_input;

pub use add_package_form::AddPackageForm;
pub use selected_input::SelectedInput;
