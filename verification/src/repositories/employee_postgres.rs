//! The employees table: the statements that read and write it, and the
//! records made from what the database answers.

use vstd::prelude::*;
use crate::dtos::employee_dto::{
    CreateEmployeeDTO, CreateEmployeeView, UpdateEmployeeDTO, UpdateEmployeeView,
};
use crate::models::employee::{employee_views, Employee, EmployeeView};
use crate::repositories::statement::{Fetch, SqlValue, SqlValueView, Statement, StatementView};
use crate::trusted::new_id;

verus! {

pub const INSERT_EMPLOYEE: &'static str =
    "INSERT INTO employees (id, name, position, email) VALUES ($1, $2, $3, $4) RETURNING id, name, position, email";

pub const SELECT_EMPLOYEES: &'static str = "SELECT id, name, position, email FROM employees";

pub const SELECT_EMPLOYEE: &'static str =
    "SELECT id, name, position, email FROM employees WHERE id = $1";

pub const UPDATE_EMPLOYEE: &'static str =
    "UPDATE employees SET name = $1, position = $2, email = $3 WHERE id = $4 RETURNING id, name, position, email";

pub const DELETE_EMPLOYEE: &'static str = "DELETE FROM employees WHERE id = $1";

/// One row of the employees table, with the columns `id`, `name`, `position`
/// and `email`.
#[derive(Debug, Clone, PartialEq, Eq)]
pub struct EmployeeRow {
    pub id: u128,
    pub name: String,
    pub position: String,
    pub email: String,
}

impl View for EmployeeRow {
    type V = EmployeeView;

    open spec fn view(&self) -> EmployeeView {
        EmployeeView { id: self.id, name: self.name@, position: self.position@, email: self.email@ }
    }
}

/// The views of a list of rows, in order.
pub open spec fn row_views(rows: Seq<EmployeeRow>) -> Seq<EmployeeView> {
    rows.map_values(|r: EmployeeRow| r@)
}

/// The stored values after a partial update: a field that the update names
/// takes its new value, every other field keeps the current one.
pub open spec fn merged(current: EmployeeView, dto: UpdateEmployeeView) -> EmployeeView {
    EmployeeView {
        id: current.id,
        name: match dto.name {
            Some(name) => name,
            None => current.name,
        },
        position: match dto.position {
            Some(position) => position,
            None => current.position,
        },
        email: match dto.email {
            Some(email) => email,
            None => current.email,
        },
    }
}

/// The insert that stores `dto` under `id` and returns the stored row.
pub open spec fn insert_statement(id: u128, dto: CreateEmployeeView) -> StatementView {
    StatementView {
        sql: INSERT_EMPLOYEE@,
        types: seq![],
        params: seq![
            SqlValueView::Uuid(id),
            SqlValueView::Text(dto.name),
            SqlValueView::Text(dto.position),
            SqlValueView::Text(dto.email),
        ],
        fetch: Fetch::One,
    }
}

/// The query for every employee.
pub open spec fn select_all_statement() -> StatementView {
    StatementView { sql: SELECT_EMPLOYEES@, types: seq![], params: seq![], fetch: Fetch::All }
}

/// The query for the employee stored under `id`.
pub open spec fn select_statement(id: u128) -> StatementView {
    StatementView {
        sql: SELECT_EMPLOYEE@,
        types: seq![],
        params: seq![SqlValueView::Uuid(id)],
        fetch: Fetch::One,
    }
}

/// The update that overwrites every field of the row of `id` with `values`
/// and returns the new row.
pub open spec fn update_statement(id: u128, values: EmployeeView) -> StatementView {
    StatementView {
        sql: UPDATE_EMPLOYEE@,
        types: seq![],
        params: seq![
            SqlValueView::Text(values.name),
            SqlValueView::Text(values.position),
            SqlValueView::Text(values.email),
            SqlValueView::Uuid(id),
        ],
        fetch: Fetch::One,
    }
}

/// The statement that deletes the row of `id`.
pub open spec fn delete_statement(id: u128) -> StatementView {
    StatementView {
        sql: DELETE_EMPLOYEE@,
        types: seq![],
        params: seq![SqlValueView::Uuid(id)],
        fetch: Fetch::Affected,
    }
}

/// The identifier that the insert of a record binds is the one that the
/// lookup by that identifier binds, and nothing else is bound by the lookup.
/// That two inserts never draw the same identifier rests on the random
/// source and on the table's key, and is not stated here.
pub proof fn lemma_stored_id_is_looked_up(id: u128, dto: CreateEmployeeView)
    ensures
        insert_statement(id, dto).params[0] == SqlValueView::Uuid(id),
        select_statement(id).params == seq![insert_statement(id, dto).params[0]],
{
}

/// An update that names no field is a no-op on the stored values: what is
/// written back is what was read.
pub proof fn lemma_empty_update_keeps_values(current: EmployeeView, dto: UpdateEmployeeView)
    requires
        dto.is_empty(),
    ensures
        merged(current, dto) == current,
        update_statement(current.id, merged(current, dto)) == update_statement(
            current.id,
            current,
        ),
{
}

/// The same update, applied again to its own outcome, changes nothing more.
pub proof fn lemma_update_twice_is_update_once(current: EmployeeView, dto: UpdateEmployeeView)
    ensures
        merged(merged(current, dto), dto) == merged(current, dto),
{
}

/// Two updates of one employee that both read the row before either wrote,
/// and then wrote one after the other. The row that is left is the merge of
/// the second update over the row that both read: each of its fields is the
/// second update's where that names the field, and else the value that was
/// read. Against the two updates done one after the other, exactly the fields
/// that only the first update names are lost; no field holds anything that
/// neither the row nor an update held.
pub proof fn lemma_last_write_wins(
    current: EmployeeView,
    first: UpdateEmployeeView,
    second: UpdateEmployeeView,
)
    ensures
        ({
            let left = merged(current, second);
            let in_turn = merged(merged(current, first), second);
            &&& left.id == current.id
            &&& left.name == if second.name is Some {
                second.name->0
            } else {
                current.name
            }
            &&& left.position == if second.position is Some {
                second.position->0
            } else {
                current.position
            }
            &&& left.email == if second.email is Some {
                second.email->0
            } else {
                current.email
            }
            &&& left.name != in_turn.name ==> first.name is Some && second.name is None
                && in_turn.name == first.name->0
            &&& left.position != in_turn.position ==> first.position is Some
                && second.position is None && in_turn.position == first.position->0
            &&& left.email != in_turn.email ==> first.email is Some && second.email is None
                && in_turn.email == first.email->0
        }),
{
}

/// The record that a row stands for.
pub fn from_row(row: EmployeeRow) -> (e: Employee)
    ensures
        e@ == row@,
{
    Employee { id: row.id, name: row.name, position: row.position, email: row.email }
}

/// An update that has asked for the current row and waits for it.
#[derive(Debug, Clone, PartialEq, Eq)]
pub struct EmployeeUpdate {
    pub id: u128,
    pub dto: UpdateEmployeeDTO,
    pub read: Statement,
}

impl EmployeeUpdate {
    /// The second step of an update. When the current row could not be read,
    /// the update ends with that failure. Otherwise the fields that the update
    /// names are laid over the current row, and the statement that writes all
    /// of them back is returned.
    pub fn write(self, current: Result<EmployeeRow, String>) -> (r: Result<Statement, String>)
        ensures
            match current {
                Ok(row) => r matches Ok(q) && q@ == update_statement(
                    self.id,
                    merged(row@, self.dto@),
                ),
                Err(message) => r == Err::<Statement, String>(message),
            },
    {
        match current {
            Err(message) => Err(message),
            Ok(row) => {
                let current = from_row(row);
                let name = match self.dto.name {
                    Some(name) => name,
                    None => current.name,
                };
                let position = match self.dto.position {
                    Some(position) => position,
                    None => current.position,
                };
                let email = match self.dto.email {
                    Some(email) => email,
                    None => current.email,
                };
                let mut params: Vec<SqlValue> = Vec::new();
                params.push(SqlValue::Text(name));
                params.push(SqlValue::Text(position));
                params.push(SqlValue::Text(email));
                params.push(SqlValue::Uuid(self.id));
                let q = Statement {
                    sql: UPDATE_EMPLOYEE.to_string(),
                    types: Vec::new(),
                    params,
                    fetch: Fetch::One,
                };
                assert(q@.params =~= update_statement(self.id, merged(row@, self.dto@)).params);
                Ok(q)
            },
        }
    }
}

/// Access to the employees table. It holds no connection: it says which
/// statement to run and reads what came back.
#[derive(Debug, Clone, Copy, PartialEq, Eq)]
pub struct EmployeePostgresRepo {}

impl EmployeePostgresRepo {
    /// The insert for a new employee under the identifier `id`.
    pub fn add_with_id(&self, id: u128, dto: CreateEmployeeDTO) -> (q: Statement)
        ensures
            q@ == insert_statement(id, dto@),
    {
        let mut params: Vec<SqlValue> = Vec::new();
        params.push(SqlValue::Uuid(id));
        params.push(SqlValue::Text(dto.name));
        params.push(SqlValue::Text(dto.position));
        params.push(SqlValue::Text(dto.email));
        let q = Statement {
            sql: INSERT_EMPLOYEE.to_string(),
            types: Vec::new(),
            params,
            fetch: Fetch::One,
        };
        assert(q@.params =~= insert_statement(id, dto@).params);
        q
    }

    /// The insert for a new employee under a fresh random identifier.
    pub fn add(&self, dto: CreateEmployeeDTO) -> (q: Statement)
        ensures
            exists|id: u128| q@ == #[trigger] insert_statement(id, dto@),
    {
        let id: u128 = new_id();
        self.add_with_id(id, dto)
    }

    /// The query for every employee. No order is asked for.
    pub fn get_all(&self) -> (q: Statement)
        ensures
            q@ == select_all_statement(),
    {
        let q = Statement {
            sql: SELECT_EMPLOYEES.to_string(),
            types: Vec::new(),
            params: Vec::new(),
            fetch: Fetch::All,
        };
        assert(q@.params =~= select_all_statement().params);
        q
    }

    /// The query for the employee stored under `id`.
    pub fn get_by_id(&self, id: u128) -> (q: Statement)
        ensures
            q@ == select_statement(id),
    {
        let mut params: Vec<SqlValue> = Vec::new();
        params.push(SqlValue::Uuid(id));
        let q = Statement {
            sql: SELECT_EMPLOYEE.to_string(),
            types: Vec::new(),
            params,
            fetch: Fetch::One,
        };
        assert(q@.params =~= select_statement(id).params);
        q
    }

    /// The first step of an update: the current row is asked for, and the
    /// update waits for it with the fields to change.
    pub fn update(&self, id: u128, dto: UpdateEmployeeDTO) -> (u: EmployeeUpdate)
        ensures
            u.id == id,
            u.dto == dto,
            u.read@ == select_statement(id),
    {
        let read = self.get_by_id(id);
        EmployeeUpdate { id, dto, read }
    }

    /// The statement that deletes the employee stored under `id`.
    pub fn delete(&self, id: u128) -> (q: Statement)
        ensures
            q@ == delete_statement(id),
    {
        let mut params: Vec<SqlValue> = Vec::new();
        params.push(SqlValue::Uuid(id));
        let q = Statement {
            sql: DELETE_EMPLOYEE.to_string(),
            types: Vec::new(),
            params,
            fetch: Fetch::Affected,
        };
        assert(q@.params =~= delete_statement(id).params);
        q
    }

    /// The record for the one row that a statement brought back, or the
    /// failure that it met.
    pub fn record(&self, reply: Result<EmployeeRow, String>) -> (r: Result<Employee, String>)
        ensures
            match reply {
                Ok(row) => r matches Ok(e) && e@ == row@,
                Err(message) => r == Err::<Employee, String>(message),
            },
    {
        match reply {
            Ok(row) => Ok(from_row(row)),
            Err(message) => Err(message),
        }
    }

    /// The records for the rows that a query brought back, in the same order,
    /// or the failure that it met.
    pub fn records(&self, reply: Result<Vec<EmployeeRow>, String>) -> (r: Result<
        Vec<Employee>,
        String,
    >)
        ensures
            match reply {
                Ok(rows) => r matches Ok(list) && employee_views(list@) == row_views(rows@),
                Err(message) => r == Err::<Vec<Employee>, String>(message),
            },
    {
        match reply {
            Err(message) => Err(message),
            Ok(rows) => {
                let ghost all = rows@;
                let mut list: Vec<Employee> = Vec::new();
                for row in it: rows
                    invariant
                        it.seq() == all,
                        list@.len() == it.index(),
                        forall|i: int| 0 <= i < list@.len() ==> (#[trigger] list@[i])@ == all[i]@,
                {
                    list.push(from_row(row));
                }
                assert(employee_views(list@) =~= row_views(all));
                Ok(list)
            },
        }
    }

    /// The number of rows that a delete removed, or the failure that it met.
    pub fn removed(&self, reply: Result<u64, String>) -> (r: Result<u64, String>)
        ensures
            r == reply,
    {
        reply
    }
}

} // verus!
