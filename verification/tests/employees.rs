use portfolio_api::dtos::employee_dto::{CreateEmployeeDTO, UpdateEmployeeDTO};
use portfolio_api::handlers::employee_handler::{
    add_employee, add_employee_response, delete_employee, delete_employee_response,
    get_all_employees, get_all_employees_response, get_employee_by_id,
    get_employee_by_id_response, update_employee, update_employee_response,
    update_employee_write,
};
use portfolio_api::handlers::reply::{Handling, HttpReply};
use portfolio_api::models::api_response::ApiResponse;
use portfolio_api::models::employee::Employee;
use portfolio_api::repositories::employee_postgres::{
    from_row, EmployeePostgresRepo, EmployeeRow,
};
use portfolio_api::repositories::statement::{Fetch, SqlValue, Statement};
use portfolio_api::services::employee_service::EmployeeService;

const ID: u128 = 0xa1a2a3a4_b1b2_c1c2_d1d2_d3d4d5d6d7d8;

fn service() -> EmployeeService {
    EmployeeService { pg_repo: EmployeePostgresRepo {} }
}

fn ada() -> CreateEmployeeDTO {
    CreateEmployeeDTO {
        name: String::from("Ada"),
        position: String::from("Engineer"),
        email: String::from("ada@example.com"),
    }
}

fn ada_row() -> EmployeeRow {
    EmployeeRow {
        id: ID,
        name: String::from("Ada"),
        position: String::from("Engineer"),
        email: String::from("ada@example.com"),
    }
}

fn ada_record() -> Employee {
    Employee {
        id: ID,
        name: String::from("Ada"),
        position: String::from("Engineer"),
        email: String::from("ada@example.com"),
    }
}

fn text(s: &str) -> SqlValue {
    SqlValue::Text(String::from(s))
}

fn failure<T>(code: u16, message: &str) -> HttpReply<T> {
    HttpReply {
        code,
        body: ApiResponse {
            status: String::from("error"),
            message: String::from(message),
            data: None,
        },
    }
}

fn success<T>(message: &str, data: Option<T>) -> HttpReply<T> {
    HttpReply {
        code: 200,
        body: ApiResponse {
            status: String::from("success"),
            message: String::from(message),
            data,
        },
    }
}

#[test]
fn add_with_id_is_the_insert_of_all_fields() {
    let q = EmployeePostgresRepo {}.add_with_id(ID, ada());
    assert_eq!(
        q,
        Statement {
            sql: String::from(
                "INSERT INTO employees (id, name, position, email) VALUES ($1, $2, $3, $4) RETURNING id, name, position, email"
            ),
            types: vec![],
            params: vec![
                SqlValue::Uuid(ID),
                text("Ada"),
                text("Engineer"),
                text("ada@example.com")
            ],
            fetch: Fetch::One,
        }
    );
}

#[test]
fn add_draws_a_fresh_id_each_time() {
    let repo = EmployeePostgresRepo {};
    let first = repo.add(ada());
    let second = repo.add(ada());
    assert_eq!(first.params.len(), 4);
    assert_eq!(first.params[1..], second.params[1..]);
    assert_eq!(first.params[1..], [text("Ada"), text("Engineer"), text("ada@example.com")]);
    let (a, b) = match (&first.params[0], &second.params[0]) {
        (SqlValue::Uuid(a), SqlValue::Uuid(b)) => (*a, *b),
        other => panic!("no identifiers: {:?}", other),
    };
    assert_ne!(a, b);
    assert_eq!(first.sql, second.sql);
    assert_eq!(first.fetch, Fetch::One);
}

#[test]
fn stored_id_is_the_id_of_the_record_and_of_its_lookup() {
    let repo = EmployeePostgresRepo {};
    let insert = repo.add_with_id(ID, ada());
    let lookup = repo.get_by_id(ID);
    assert_eq!(insert.params[0], lookup.params[0]);
    assert_eq!(repo.record(Ok(ada_row())).map(|e| e.id), Ok(ID));
}

#[test]
fn get_all_selects_every_employee() {
    let q = EmployeePostgresRepo {}.get_all();
    assert_eq!(
        q,
        Statement {
            sql: String::from("SELECT id, name, position, email FROM employees"),
            types: vec![],
            params: vec![],
            fetch: Fetch::All,
        }
    );
}

#[test]
fn get_by_id_selects_one_row() {
    let q = EmployeePostgresRepo {}.get_by_id(ID);
    assert_eq!(
        q,
        Statement {
            sql: String::from("SELECT id, name, position, email FROM employees WHERE id = $1"),
            types: vec![],
            params: vec![SqlValue::Uuid(ID)],
            fetch: Fetch::One,
        }
    );
}

#[test]
fn delete_counts_the_removed_rows() {
    let q = EmployeePostgresRepo {}.delete(ID);
    assert_eq!(
        q,
        Statement {
            sql: String::from("DELETE FROM employees WHERE id = $1"),
            types: vec![],
            params: vec![SqlValue::Uuid(ID)],
            fetch: Fetch::Affected,
        }
    );
}

#[test]
fn from_row_moves_every_column() {
    assert_eq!(from_row(ada_row()), ada_record());
}

#[test]
fn update_reads_before_it_writes() {
    let dto = UpdateEmployeeDTO { name: Some(String::from("Grace")), position: None, email: None };
    let update = EmployeePostgresRepo {}.update(ID, dto.clone());
    assert_eq!(update.id, ID);
    assert_eq!(update.dto, dto);
    assert_eq!(update.read, EmployeePostgresRepo {}.get_by_id(ID));
}

#[test]
fn update_write_lays_named_fields_over_the_current_row() {
    let dto = UpdateEmployeeDTO {
        name: Some(String::from("Grace")),
        position: None,
        email: Some(String::from("grace@example.com")),
    };
    let update = EmployeePostgresRepo {}.update(ID, dto);
    let q = update.write(Ok(ada_row()));
    assert_eq!(
        q,
        Ok(Statement {
            sql: String::from(
                "UPDATE employees SET name = $1, position = $2, email = $3 WHERE id = $4 RETURNING id, name, position, email"
            ),
            types: vec![],
            params: vec![
                text("Grace"),
                text("Engineer"),
                text("grace@example.com"),
                SqlValue::Uuid(ID)
            ],
            fetch: Fetch::One,
        })
    );
}

#[test]
fn update_write_with_nothing_named_writes_back_what_was_read() {
    let dto = UpdateEmployeeDTO { name: None, position: None, email: None };
    let q = EmployeePostgresRepo {}.update(ID, dto).write(Ok(ada_row())).unwrap();
    assert_eq!(
        q.params,
        vec![text("Ada"), text("Engineer"), text("ada@example.com"), SqlValue::Uuid(ID)]
    );
}

#[test]
fn update_write_fails_when_the_read_failed() {
    let dto = UpdateEmployeeDTO { name: Some(String::from("Grace")), position: None, email: None };
    let q = EmployeePostgresRepo {}
        .update(ID, dto)
        .write(Err(String::from("query returned an unexpected number of rows")));
    assert_eq!(q, Err(String::from("query returned an unexpected number of rows")));
}

#[test]
fn racing_updates_end_in_the_merge_of_the_last_one() {
    let repo = EmployeePostgresRepo {};
    let first = UpdateEmployeeDTO {
        name: Some(String::from("Grace")),
        position: Some(String::from("Admiral")),
        email: None,
    };
    let second = UpdateEmployeeDTO {
        name: None,
        position: Some(String::from("Professor")),
        email: Some(String::from("new@example.com")),
    };
    // Both read the same row; the first writes, then the second.
    let first_write = repo.update(ID, first).write(Ok(ada_row())).unwrap();
    let second_write = repo.update(ID, second).write(Ok(ada_row())).unwrap();
    assert_eq!(
        first_write.params,
        vec![text("Grace"), text("Admiral"), text("ada@example.com"), SqlValue::Uuid(ID)]
    );
    // The name of the first update is lost; nothing else is out of place.
    assert_eq!(
        second_write.params,
        vec![text("Ada"), text("Professor"), text("new@example.com"), SqlValue::Uuid(ID)]
    );
}

#[test]
fn records_keep_the_order_of_the_rows() {
    let other = EmployeeRow {
        id: 2,
        name: String::from("Bob"),
        position: String::from("Designer"),
        email: String::from("bob@example.com"),
    };
    let list = EmployeePostgresRepo {}.records(Ok(vec![ada_row(), other.clone()]));
    assert_eq!(list, Ok(vec![ada_record(), from_row(other)]));
    assert_eq!(EmployeePostgresRepo {}.records(Ok(vec![])), Ok(vec![]));
    assert_eq!(
        EmployeePostgresRepo {}.records(Err(String::from("down"))),
        Err(String::from("down"))
    );
}

#[test]
fn removed_hands_the_count_on() {
    let repo = EmployeePostgresRepo {};
    assert_eq!(repo.removed(Ok(0)), Ok(0));
    assert_eq!(repo.removed(Ok(3)), Ok(3));
    assert_eq!(repo.removed(Err(String::from("down"))), Err(String::from("down")));
}

#[test]
fn service_hands_everything_to_the_repository() {
    let svc = service();
    let repo = EmployeePostgresRepo {};
    assert_eq!(svc.get_all(), repo.get_all());
    assert_eq!(svc.get_by_id(ID), repo.get_by_id(ID));
    assert_eq!(svc.delete(ID), repo.delete(ID));
    let dto = UpdateEmployeeDTO { name: None, position: None, email: None };
    assert_eq!(svc.update(ID, dto.clone()), repo.update(ID, dto));
    assert_eq!(svc.add(ada()).params[1..], repo.add(ada()).params[1..]);
    assert_eq!(svc.record(Ok(ada_row())), repo.record(Ok(ada_row())));
    assert_eq!(svc.records(Ok(vec![ada_row()])), repo.records(Ok(vec![ada_row()])));
    assert_eq!(svc.removed(Ok(1)), repo.removed(Ok(1)));
}

#[test]
fn add_employee_answers_200_or_500() {
    let svc = service();
    let q = add_employee(&svc, ada());
    assert_eq!(q.params[1..], [text("Ada"), text("Engineer"), text("ada@example.com")]);
    assert_eq!(
        add_employee_response(&svc, Ok(ada_row())),
        success("Employee added successfully", Some(ada_record()))
    );
    assert_eq!(
        add_employee_response(&svc, Err(String::from("duplicate key"))),
        failure(500, "duplicate key")
    );
}

#[test]
fn get_all_employees_counts_in_the_message() {
    let svc = service();
    assert_eq!(get_all_employees(&svc), EmployeePostgresRepo {}.get_all());
    assert_eq!(
        get_all_employees_response(&svc, Ok(vec![ada_row(), ada_row()])),
        success("2 employees found", Some(vec![ada_record(), ada_record()]))
    );
    assert_eq!(
        get_all_employees_response(&svc, Ok(vec![])),
        success("0 employees found", Some(vec![]))
    );
    assert_eq!(
        get_all_employees_response(&svc, Err(String::from("down"))),
        failure(500, "down")
    );
}

#[test]
fn get_employee_by_id_answers_404_on_any_failure() {
    let svc = service();
    assert_eq!(get_employee_by_id(&svc, ID), EmployeePostgresRepo {}.get_by_id(ID));
    assert_eq!(
        get_employee_by_id_response(&svc, Ok(ada_row())),
        success("Employee found", Some(ada_record()))
    );
    assert_eq!(
        get_employee_by_id_response(&svc, Err(String::from("connection refused"))),
        failure(404, "connection refused")
    );
}

#[test]
fn update_employee_runs_read_then_write() {
    let svc = service();
    let dto = UpdateEmployeeDTO { name: None, position: Some(String::from("Lead")), email: None };
    let update = update_employee(&svc, ID, dto);
    assert_eq!(update.read, EmployeePostgresRepo {}.get_by_id(ID));
    match update_employee_write(update, Ok(ada_row())) {
        Handling::Run(q) => assert_eq!(
            q.params,
            vec![text("Ada"), text("Lead"), text("ada@example.com"), SqlValue::Uuid(ID)]
        ),
        other => panic!("no statement: {:?}", other),
    }
    let mut lead = ada_row();
    lead.position = String::from("Lead");
    let mut expected = ada_record();
    expected.position = String::from("Lead");
    assert_eq!(
        update_employee_response(&svc, Ok(lead)),
        success("Employee updated successfully", Some(expected))
    );
    assert_eq!(
        update_employee_response(&svc, Err(String::from("down"))),
        failure(500, "down")
    );
}

#[test]
fn update_employee_answers_500_when_the_read_failed() {
    let svc = service();
    let dto = UpdateEmployeeDTO { name: None, position: None, email: None };
    let update = update_employee(&svc, ID, dto);
    assert_eq!(
        update_employee_write(update, Err(String::from("no rows"))),
        Handling::Respond(failure(500, "no rows"))
    );
}

#[test]
fn delete_employee_answers_404_when_nothing_was_removed() {
    let svc = service();
    assert_eq!(delete_employee(&svc, ID), EmployeePostgresRepo {}.delete(ID));
    assert_eq!(
        delete_employee_response(&svc, Ok(1)),
        success("Employee deleted successfully", None)
    );
    assert_eq!(delete_employee_response(&svc, Ok(0)), failure(404, "Employee not found"));
    assert_eq!(
        delete_employee_response(&svc, Err(String::from("down"))),
        failure(500, "down")
    );
}
