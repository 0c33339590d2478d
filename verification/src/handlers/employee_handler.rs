//! The five employee routes. Each comes as the statement that the route runs
//! and the answer that the route gives to what the database said.

use vstd::prelude::*;
use crate::dtos::employee_dto::{CreateEmployeeDTO, UpdateEmployeeDTO};
use crate::handlers::reply::{Handling, HttpReply};
use crate::models::employee::{employee_views, Employee};
use crate::repositories::employee_postgres::{
    delete_statement, insert_statement, merged, row_views, select_all_statement,
    select_statement, update_statement, EmployeeRow, EmployeeUpdate,
};
use crate::repositories::statement::Statement;
use crate::services::employee_service::EmployeeService;
use crate::text::{decimal, decimal_text};

verus! {

pub const EMPLOYEE_ADDED: &'static str = "Employee added successfully";

pub const EMPLOYEES_FOUND: &'static str = " employees found";

pub const EMPLOYEE_FOUND: &'static str = "Employee found";

pub const EMPLOYEE_UPDATED: &'static str = "Employee updated successfully";

pub const EMPLOYEE_DELETED: &'static str = "Employee deleted successfully";

pub const EMPLOYEE_NOT_FOUND: &'static str = "Employee not found";

/// `POST /api/employees`: the insert to run.
pub fn add_employee(svc: &EmployeeService, body: CreateEmployeeDTO) -> (q: Statement)
    ensures
        exists|id: u128| q@ == #[trigger] insert_statement(id, body@),
{
    svc.add(body)
}

/// `POST /api/employees`: 200 with the stored employee, or 500 with the
/// failure's message.
pub fn add_employee_response(svc: &EmployeeService, reply: Result<EmployeeRow, String>) -> (r:
    HttpReply<Employee>)
    ensures
        match reply {
            Ok(row) => r.is_ok(EMPLOYEE_ADDED@) && (r.body.data matches Some(e) && e@ == row@),
            Err(message) => r.is_failure(500, message@),
        },
{
    match svc.record(reply) {
        Ok(employee) => HttpReply::ok(EMPLOYEE_ADDED.to_string(), employee),
        Err(message) => HttpReply::failure(500, message),
    }
}

/// `GET /api/employees`: the query to run.
pub fn get_all_employees(svc: &EmployeeService) -> (q: Statement)
    ensures
        q@ == select_all_statement(),
{
    svc.get_all()
}

/// `GET /api/employees`: 200 with the employees in the order of the rows and
/// their number in the message, or 500 with the failure's message.
pub fn get_all_employees_response(
    svc: &EmployeeService,
    reply: Result<Vec<EmployeeRow>, String>,
) -> (r: HttpReply<Vec<Employee>>)
    ensures
        match reply {
            Ok(rows) => r.is_ok(decimal(rows@.len()) + EMPLOYEES_FOUND@)
                && (r.body.data matches Some(list) && employee_views(list@) == row_views(rows@)),
            Err(message) => r.is_failure(500, message@),
        },
{
    match svc.records(reply) {
        Ok(list) => {
            let mut message = decimal_text(list.len() as u64);
            message.append(EMPLOYEES_FOUND);
            assert(employee_views(list@).len() == list@.len());
            HttpReply::ok(message, list)
        },
        Err(message) => HttpReply::failure(500, message),
    }
}

/// `GET /api/employees/{id}`: the query to run.
pub fn get_employee_by_id(svc: &EmployeeService, id: u128) -> (q: Statement)
    ensures
        q@ == select_statement(id),
{
    svc.get_by_id(id)
}

/// `GET /api/employees/{id}`: 200 with the employee, or 404 with the
/// failure's message, whatever the failure was.
pub fn get_employee_by_id_response(svc: &EmployeeService, reply: Result<EmployeeRow, String>) -> (r:
    HttpReply<Employee>)
    ensures
        match reply {
            Ok(row) => r.is_ok(EMPLOYEE_FOUND@) && (r.body.data matches Some(e) && e@ == row@),
            Err(message) => r.is_failure(404, message@),
        },
{
    match svc.record(reply) {
        Ok(employee) => HttpReply::ok(EMPLOYEE_FOUND.to_string(), employee),
        Err(message) => HttpReply::failure(404, message),
    }
}

/// `PUT /api/employees/{id}`: the update, which first reads the current row.
pub fn update_employee(svc: &EmployeeService, id: u128, body: UpdateEmployeeDTO) -> (u:
    EmployeeUpdate)
    ensures
        u.id == id,
        u.dto == body,
        u.read@ == select_statement(id),
{
    svc.update(id, body)
}

/// `PUT /api/employees/{id}`, after the read: the statement that writes the
/// merged fields, or 500 with the failure's message when the read failed.
pub fn update_employee_write(update: EmployeeUpdate, current: Result<EmployeeRow, String>) -> (r:
    Handling<Employee>)
    ensures
        match current {
            Ok(row) => r matches Handling::Run(q) && q@ == update_statement(
                update.id,
                merged(row@, update.dto@),
            ),
            Err(message) => r matches Handling::Respond(answer) && answer.is_failure(500, message@),
        },
{
    match update.write(current) {
        Ok(q) => Handling::Run(q),
        Err(message) => Handling::Respond(HttpReply::failure(500, message)),
    }
}

/// `PUT /api/employees/{id}`, after the write: 200 with the new state of the
/// employee, or 500 with the failure's message.
pub fn update_employee_response(svc: &EmployeeService, reply: Result<EmployeeRow, String>) -> (r:
    HttpReply<Employee>)
    ensures
        match reply {
            Ok(row) => r.is_ok(EMPLOYEE_UPDATED@) && (r.body.data matches Some(e) && e@ == row@),
            Err(message) => r.is_failure(500, message@),
        },
{
    match svc.record(reply) {
        Ok(employee) => HttpReply::ok(EMPLOYEE_UPDATED.to_string(), employee),
        Err(message) => HttpReply::failure(500, message),
    }
}

/// `DELETE /api/employees/{id}`: the statement to run.
pub fn delete_employee(svc: &EmployeeService, id: u128) -> (q: Statement)
    ensures
        q@ == delete_statement(id),
{
    svc.delete(id)
}

/// `DELETE /api/employees/{id}`: 200 when a row was removed, 404 when none
/// was, 500 with the failure's message when the statement failed. No answer
/// carries a payload.
pub fn delete_employee_response(svc: &EmployeeService, reply: Result<u64, String>) -> (r: HttpReply<
    (),
>)
    ensures
        r.body.data is None,
        match reply {
            Ok(count) => if count > 0 {
                r.is_ok(EMPLOYEE_DELETED@)
            } else {
                r.is_failure(404, EMPLOYEE_NOT_FOUND@)
            },
            Err(message) => r.is_failure(500, message@),
        },
{
    match svc.removed(reply) {
        Ok(count) => {
            if count > 0 {
                HttpReply::done(EMPLOYEE_DELETED.to_string())
            } else {
                HttpReply::failure(404, EMPLOYEE_NOT_FOUND.to_string())
            }
        },
        Err(message) => HttpReply::failure(500, message),
    }
}

} // verus!
