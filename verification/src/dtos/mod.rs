pub mod employee_dto;
pub mod project_dto;
