pub mod cloudinary;
pub mod employee_service;
pub mod project_service;
