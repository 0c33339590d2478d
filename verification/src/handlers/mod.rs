pub mod employee_handler;
pub mod project_handler;
pub mod project_upload;
pub mod reply;
