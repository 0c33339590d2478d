//! The employee service: a seam between the handlers and the repository.
//! Every method hands its arguments to the repository as they are and returns
//! what the repository returns.

use vstd::prelude::*;
use crate::dtos::employee_dto::{CreateEmployeeDTO, UpdateEmployeeDTO};
use crate::models::employee::{employee_views, Employee};
use crate::repositories::employee_postgres::{
    delete_statement, insert_statement, row_views, select_all_statement, select_statement,
    EmployeePostgresRepo, EmployeeRow, EmployeeUpdate,
};
use crate::repositories::statement::Statement;

verus! {

/// The employee service, over its repository.
#[derive(Debug, Clone, Copy, PartialEq, Eq)]
pub struct EmployeeService {
    pub pg_repo: EmployeePostgresRepo,
}

impl EmployeeService {
    pub fn add(&self, dto: CreateEmployeeDTO) -> (q: Statement)
        ensures
            exists|id: u128| q@ == #[trigger] insert_statement(id, dto@),
    {
        self.pg_repo.add(dto)
    }

    pub fn get_all(&self) -> (q: Statement)
        ensures
            q@ == select_all_statement(),
    {
        self.pg_repo.get_all()
    }

    pub fn get_by_id(&self, id: u128) -> (q: Statement)
        ensures
            q@ == select_statement(id),
    {
        self.pg_repo.get_by_id(id)
    }

    pub fn update(&self, id: u128, dto: UpdateEmployeeDTO) -> (u: EmployeeUpdate)
        ensures
            u.id == id,
            u.dto == dto,
            u.read@ == select_statement(id),
    {
        self.pg_repo.update(id, dto)
    }

    pub fn delete(&self, id: u128) -> (q: Statement)
        ensures
            q@ == delete_statement(id),
    {
        self.pg_repo.delete(id)
    }

    pub fn record(&self, reply: Result<EmployeeRow, String>) -> (r: Result<Employee, String>)
        ensures
            match reply {
                Ok(row) => r matches Ok(e) && e@ == row@,
                Err(message) => r == Err::<Employee, String>(message),
            },
    {
        self.pg_repo.record(reply)
    }

    pub fn records(&self, reply: Result<Vec<EmployeeRow>, String>) -> (r: Result<
        Vec<Employee>,
        String,
    >)
        ensures
            match reply {
                Ok(rows) => r matches Ok(list) && employee_views(list@) == row_views(rows@),
                Err(message) => r == Err::<Vec<Employee>, String>(message),
            },
    {
        self.pg_repo.records(reply)
    }

    pub fn removed(&self, reply: Result<u64, String>) -> (r: Result<u64, String>)
        ensures
            r == reply,
    {
        self.pg_repo.removed(reply)
    }
}

} // verus!
