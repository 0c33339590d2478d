pub mod employee_postgres;
pub mod project_postgres;
pub mod statement;
