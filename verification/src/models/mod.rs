pub mod api_response;
pub mod employee;
pub mod project;
