use portfolio_api::dtos::project_dto::{CreateProjectDTO, UpdateProjectDTO};
use portfolio_api::handlers::project_handler::{
    add_project, add_project_response, delete_project, delete_project_response,
    get_all_projects, get_all_projects_response, get_project_by_id,
    get_project_by_id_response, update_project, update_project_response, update_project_write,
};
use portfolio_api::handlers::reply::{Handling, HttpReply};
use portfolio_api::models::api_response::ApiResponse;
use portfolio_api::models::project::Project;
use portfolio_api::repositories::project_postgres::{
    decode_images, encode_images, from_row, show_timestamp, ProjectPostgresRepo, ProjectRow,
};
use portfolio_api::repositories::statement::{Fetch, SqlType, SqlValue, Statement};
use portfolio_api::services::project_service::ProjectService;

const ID: u128 = 0x0123_4567_89ab_cdef_0123_4567_89ab_cdef;

// Sun, 11 Sep 2022 18:34:48 UTC
const CREATED: i64 = 1_662_921_288_000_000;

// Mon, 1 Jan 1900 14:38:45 UTC
const UPDATED: i64 = -2_208_936_075_000_000;

const SELECT_ONE: &str =
    "SELECT id, name, description, images::text, category, created_at, updated_at FROM projects WHERE id = $1";

const UPDATE: &str =
    "UPDATE projects SET name = $1, description = $2, images = $3::jsonb, category = $4, updated_at = CURRENT_TIMESTAMP WHERE id = $5 RETURNING id, name, description, images::text, category, created_at, updated_at";

fn service() -> ProjectService {
    ProjectService { pg_repo: ProjectPostgresRepo {} }
}

fn text(s: &str) -> SqlValue {
    SqlValue::Text(String::from(s))
}

fn strings(items: &[&str]) -> Vec<String> {
    items.iter().map(|s| String::from(*s)).collect()
}

fn site() -> CreateProjectDTO {
    CreateProjectDTO {
        name: String::from("Site"),
        description: String::from("A web site"),
        images: strings(&["https://img/a.png", "https://img/b.png"]),
        category: String::from("web"),
    }
}

fn site_row() -> ProjectRow {
    ProjectRow {
        id: ID,
        name: String::from("Site"),
        description: String::from("A web site"),
        images: String::from("[\"https://img/a.png\", \"https://img/b.png\"]"),
        category: String::from("web"),
        created_at: Some(CREATED),
        updated_at: Some(UPDATED),
    }
}

fn site_record() -> Project {
    Project {
        id: ID,
        name: String::from("Site"),
        description: String::from("A web site"),
        images: strings(&["https://img/a.png", "https://img/b.png"]),
        category: String::from("web"),
        created_at: Some(String::from("11/09/2022 18:34")),
        updated_at: Some(String::from("01/01/1900 14:38")),
    }
}

fn failure<T>(code: u16, message: &str) -> HttpReply<T> {
    HttpReply {
        code,
        body: ApiResponse {
            status: String::from("error"),
            message: String::from(message),
            data: None,
        },
    }
}

fn success<T>(message: &str, data: Option<T>) -> HttpReply<T> {
    HttpReply {
        code: 200,
        body: ApiResponse {
            status: String::from("success"),
            message: String::from(message),
            data,
        },
    }
}

#[test]
fn images_are_stored_as_a_json_list() {
    assert_eq!(encode_images(&strings(&["a", "b"])), Ok(String::from("[\"a\",\"b\"]")));
    assert_eq!(encode_images(&vec![]), Ok(String::from("[]")));
    assert_eq!(
        encode_images(&strings(&["say \"hi\"", "back\\slash"])),
        Ok(String::from("[\"say \\\"hi\\\"\",\"back\\\\slash\"]"))
    );
}

#[test]
fn stored_images_are_read_in_their_order() {
    assert_eq!(decode_images("[\"a\", \"b\"]"), strings(&["a", "b"]));
    assert_eq!(decode_images(" [ \"b\" ,\n \"a\" ] "), strings(&["b", "a"]));
    assert_eq!(decode_images("[]"), strings(&[]));
    assert_eq!(decode_images("[\"\\u00e9\\n\"]"), strings(&["é\n"]));
}

#[test]
fn stored_text_that_is_no_list_of_strings_reads_as_no_image() {
    assert_eq!(decode_images(""), strings(&[]));
    assert_eq!(decode_images("not json"), strings(&[]));
    assert_eq!(decode_images("{\"a\": 1}"), strings(&[]));
    assert_eq!(decode_images("[1, 2]"), strings(&[]));
    assert_eq!(decode_images("[\"a\""), strings(&[]));
    assert_eq!(decode_images("[\"a\"] x"), strings(&[]));
    assert_eq!(decode_images("null"), strings(&[]));
}

#[test]
fn images_round_trip_through_storage() {
    let lists = vec![
        strings(&[]),
        strings(&["https://res.cloudinary.com/demo/image/upload/v1/portfolio/a.png"]),
        strings(&["b", "a", "b", ""]),
        strings(&["quote\"", "back\\slash", "tab\there", "line\nbreak", "nul\u{0}", "é", "日本", "🦀"]),
        strings(&["del\u{7f}", "sep\u{2028}\u{2029}", "esc\u{1b}", "/slash", "\u{feff}bom", "\u{10ffff}"]),
        strings(&["[\"nested\"]", "a,b", " spaced "]),
    ];
    for images in lists {
        let stored = encode_images(&images).unwrap();
        assert_eq!(decode_images(&stored), images);
    }
}

#[test]
fn timestamps_show_day_month_year_hour_minute_in_utc() {
    assert_eq!(show_timestamp(Some(CREATED)), Some(String::from("11/09/2022 18:34")));
    assert_eq!(show_timestamp(Some(UPDATED)), Some(String::from("01/01/1900 14:38")));
    assert_eq!(show_timestamp(Some(0)), Some(String::from("01/01/1970 00:00")));
    assert_eq!(show_timestamp(Some(59_999_999)), Some(String::from("01/01/1970 00:00")));
    assert_eq!(show_timestamp(Some(-1)), Some(String::from("31/12/1969 23:59")));
    assert_eq!(show_timestamp(None), None);
}

#[test]
fn timestamps_out_of_range_show_nothing() {
    assert_eq!(show_timestamp(Some(i64::MAX)), None);
    assert_eq!(show_timestamp(Some(i64::MIN)), None);
}

#[test]
fn from_row_decodes_images_and_shows_timestamps() {
    assert_eq!(from_row(site_row()), site_record());
    let mut bare = site_row();
    bare.images = String::from("oops");
    bare.created_at = None;
    bare.updated_at = None;
    let mut expected = site_record();
    expected.images = vec![];
    expected.created_at = None;
    expected.updated_at = None;
    assert_eq!(from_row(bare), expected);
}

#[test]
fn created_timestamp_shows_the_same_at_every_read() {
    let first = from_row(site_row());
    let second = from_row(site_row());
    assert_eq!(first.created_at, second.created_at);
    assert_eq!(first.created_at, Some(String::from("11/09/2022 18:34")));
}

#[test]
fn add_with_id_is_the_typed_insert() {
    let q = ProjectPostgresRepo {}.add_with_id(ID, site());
    assert_eq!(
        q,
        Ok(Statement {
            sql: String::from(
                "INSERT INTO projects (id, name, description, images, category) VALUES ($1, $2, $3, $4::jsonb, $5) RETURNING id, name, description, images::text, category, created_at, updated_at"
            ),
            types: vec![
                SqlType::Uuid,
                SqlType::Varchar,
                SqlType::Text,
                SqlType::Text,
                SqlType::Varchar
            ],
            params: vec![
                SqlValue::Uuid(ID),
                text("Site"),
                text("A web site"),
                text("[\"https://img/a.png\",\"https://img/b.png\"]"),
                text("web"),
            ],
            fetch: Fetch::One,
        })
    );
}

#[test]
fn project_add_draws_a_fresh_id_each_time() {
    let repo = ProjectPostgresRepo {};
    let first = repo.add(site()).unwrap();
    let second = repo.add(site()).unwrap();
    assert_eq!(first.params[1..], second.params[1..]);
    let (a, b) = match (&first.params[0], &second.params[0]) {
        (SqlValue::Uuid(a), SqlValue::Uuid(b)) => (*a, *b),
        other => panic!("no identifiers: {:?}", other),
    };
    assert_ne!(a, b);
}

#[test]
fn get_all_orders_newest_first() {
    assert_eq!(
        ProjectPostgresRepo {}.get_all(),
        Statement {
            sql: String::from(
                "SELECT id, name, description, images::text, category, created_at, updated_at FROM projects ORDER BY created_at DESC"
            ),
            types: vec![],
            params: vec![],
            fetch: Fetch::All,
        }
    );
}

#[test]
fn get_by_category_matches_exactly_and_orders_newest_first() {
    assert_eq!(
        ProjectPostgresRepo {}.get_by_category(String::from("web")),
        Statement {
            sql: String::from(
                "SELECT id, name, description, images::text, category, created_at, updated_at FROM projects WHERE category = $1 ORDER BY created_at DESC"
            ),
            types: vec![],
            params: vec![text("web")],
            fetch: Fetch::All,
        }
    );
}

#[test]
fn get_by_id_and_delete_bind_the_id() {
    let repo = ProjectPostgresRepo {};
    assert_eq!(
        repo.get_by_id(ID),
        Statement {
            sql: String::from(SELECT_ONE),
            types: vec![],
            params: vec![SqlValue::Uuid(ID)],
            fetch: Fetch::One,
        }
    );
    assert_eq!(
        repo.delete(ID),
        Statement {
            sql: String::from("DELETE FROM projects WHERE id = $1"),
            types: vec![],
            params: vec![SqlValue::Uuid(ID)],
            fetch: Fetch::Affected,
        }
    );
}

#[test]
fn update_write_lays_named_fields_over_the_current_record() {
    let dto = UpdateProjectDTO {
        name: Some(String::from("Shop")),
        description: None,
        images: Some(strings(&["https://img/c.png"])),
        category: None,
    };
    let update = ProjectPostgresRepo {}.update(ID, dto);
    assert_eq!(update.read, ProjectPostgresRepo {}.get_by_id(ID));
    assert_eq!(
        update.write(Ok(site_row())),
        Ok(Statement {
            sql: String::from(UPDATE),
            types: vec![
                SqlType::Varchar,
                SqlType::Text,
                SqlType::Text,
                SqlType::Varchar,
                SqlType::Uuid
            ],
            params: vec![
                text("Shop"),
                text("A web site"),
                text("[\"https://img/c.png\"]"),
                text("web"),
                SqlValue::Uuid(ID),
            ],
            fetch: Fetch::One,
        })
    );
}

#[test]
fn update_write_with_nothing_named_keeps_values_and_refreshes_the_timestamp() {
    let dto = UpdateProjectDTO { name: None, description: None, images: None, category: None };
    let q = ProjectPostgresRepo {}.update(ID, dto).write(Ok(site_row())).unwrap();
    assert_eq!(q.params[0], text("Site"));
    assert_eq!(q.params[1], text("A web site"));
    assert_eq!(q.params[3], text("web"));
    assert_eq!(q.params[4], SqlValue::Uuid(ID));
    match &q.params[2] {
        SqlValue::Text(stored) => {
            assert_eq!(decode_images(stored), decode_images(&site_row().images))
        }
        other => panic!("no text: {:?}", other),
    }
    assert!(q.sql.contains("updated_at = CURRENT_TIMESTAMP"));
    assert!(!q.sql.contains("created_at ="));
}

#[test]
fn update_without_images_never_empties_the_list() {
    let dto = UpdateProjectDTO {
        name: Some(String::from("Shop")),
        description: Some(String::from("d")),
        images: None,
        category: Some(String::from("c")),
    };
    let q = ProjectPostgresRepo {}.update(ID, dto).write(Ok(site_row())).unwrap();
    assert_eq!(q.params[2], text("[\"https://img/a.png\",\"https://img/b.png\"]"));
}

#[test]
fn project_update_write_fails_when_the_read_failed() {
    let dto = UpdateProjectDTO { name: None, description: None, images: None, category: None };
    assert_eq!(
        ProjectPostgresRepo {}.update(ID, dto).write(Err(String::from("no rows"))),
        Err(String::from("no rows"))
    );
}

#[test]
fn project_racing_updates_end_in_the_merge_of_the_last_one() {
    let repo = ProjectPostgresRepo {};
    let first = UpdateProjectDTO {
        name: Some(String::from("Shop")),
        description: None,
        images: Some(strings(&["x"])),
        category: None,
    };
    let second = UpdateProjectDTO {
        name: None,
        description: Some(String::from("Better")),
        images: None,
        category: None,
    };
    let first_write = repo.update(ID, first).write(Ok(site_row())).unwrap();
    let second_write = repo.update(ID, second).write(Ok(site_row())).unwrap();
    assert_eq!(
        first_write.params,
        vec![text("Shop"), text("A web site"), text("[\"x\"]"), text("web"), SqlValue::Uuid(ID)]
    );
    assert_eq!(
        second_write.params,
        vec![
            text("Site"),
            text("Better"),
            text("[\"https://img/a.png\",\"https://img/b.png\"]"),
            text("web"),
            SqlValue::Uuid(ID)
        ]
    );
}

#[test]
fn project_records_keep_the_order_of_the_rows() {
    let mut other = site_row();
    other.id = 9;
    other.images = String::from("[]");
    let mut other_record = site_record();
    other_record.id = 9;
    other_record.images = vec![];
    let repo = ProjectPostgresRepo {};
    assert_eq!(
        repo.records(Ok(vec![other.clone(), site_row()])),
        Ok(vec![other_record, site_record()])
    );
    assert_eq!(repo.records(Err(String::from("down"))), Err(String::from("down")));
    assert_eq!(repo.record(Ok(site_row())), Ok(site_record()));
    assert_eq!(repo.record(Err(String::from("down"))), Err(String::from("down")));
    assert_eq!(repo.removed(Ok(0)), Ok(0));
}

#[test]
fn project_service_hands_everything_to_the_repository() {
    let svc = service();
    let repo = ProjectPostgresRepo {};
    assert_eq!(svc.get_all(), repo.get_all());
    assert_eq!(svc.get_by_category(String::from("x")), repo.get_by_category(String::from("x")));
    assert_eq!(svc.get_by_id(ID), repo.get_by_id(ID));
    assert_eq!(svc.delete(ID), repo.delete(ID));
    let dto = UpdateProjectDTO { name: None, description: None, images: None, category: None };
    assert_eq!(svc.update(ID, dto.clone()), repo.update(ID, dto));
    assert_eq!(svc.add(site()).unwrap().params[1..], repo.add(site()).unwrap().params[1..]);
    assert_eq!(svc.record(Ok(site_row())), repo.record(Ok(site_row())));
    assert_eq!(svc.records(Ok(vec![site_row()])), repo.records(Ok(vec![site_row()])));
    assert_eq!(svc.removed(Ok(2)), repo.removed(Ok(2)));
}

#[test]
fn add_project_without_images_is_refused_before_any_statement() {
    let mut body = site();
    body.images = vec![];
    assert_eq!(
        add_project(&service(), body),
        Handling::Respond(failure(400, "At least one image is required"))
    );
}

#[test]
fn add_project_with_images_runs_the_insert() {
    match add_project(&service(), site()) {
        Handling::Run(q) => {
            assert_eq!(q.fetch, Fetch::One);
            assert_eq!(
                q.params[1..],
                [
                    text("Site"),
                    text("A web site"),
                    text("[\"https://img/a.png\",\"https://img/b.png\"]"),
                    text("web")
                ]
            );
        }
        other => panic!("no statement: {:?}", other),
    }
}

#[test]
fn add_project_answers_200_or_500() {
    let svc = service();
    assert_eq!(
        add_project_response(&svc, Ok(site_row())),
        success("Project added successfully", Some(site_record()))
    );
    assert_eq!(add_project_response(&svc, Err(String::from("down"))), failure(500, "down"));
}

#[test]
fn get_all_projects_filters_when_a_category_is_given() {
    let svc = service();
    let repo = ProjectPostgresRepo {};
    assert_eq!(get_all_projects(&svc, None), repo.get_all());
    assert_eq!(
        get_all_projects(&svc, Some(String::from("web"))),
        repo.get_by_category(String::from("web"))
    );
    assert_eq!(
        get_all_projects(&svc, Some(String::new())),
        repo.get_by_category(String::new())
    );
}

#[test]
fn get_all_projects_counts_in_the_message() {
    let svc = service();
    assert_eq!(
        get_all_projects_response(&svc, Ok(vec![site_row()])),
        success("1 projects found", Some(vec![site_record()]))
    );
    let twelve: Vec<ProjectRow> = (0..12).map(|_| site_row()).collect();
    let answer = get_all_projects_response(&svc, Ok(twelve));
    assert_eq!(answer.body.message, "12 projects found");
    assert_eq!(answer.body.data.map(|list| list.len()), Some(12));
    assert_eq!(
        get_all_projects_response(&svc, Err(String::from("down"))),
        failure(500, "down")
    );
}

#[test]
fn get_project_by_id_answers_404_on_any_failure() {
    let svc = service();
    assert_eq!(get_project_by_id(&svc, ID), ProjectPostgresRepo {}.get_by_id(ID));
    assert_eq!(
        get_project_by_id_response(&svc, Ok(site_row())),
        success("Project found", Some(site_record()))
    );
    assert_eq!(
        get_project_by_id_response(&svc, Err(String::from("timeout"))),
        failure(404, "timeout")
    );
}

#[test]
fn update_project_runs_read_then_write() {
    let svc = service();
    let dto = UpdateProjectDTO {
        name: None,
        description: None,
        images: None,
        category: Some(String::from("shop")),
    };
    let update = update_project(&svc, ID, dto);
    match update_project_write(update, Ok(site_row())) {
        Handling::Run(q) => {
            assert_eq!(q.sql, UPDATE);
            assert_eq!(q.params[3], text("shop"));
        }
        other => panic!("no statement: {:?}", other),
    }
    assert_eq!(
        update_project_response(&svc, Ok(site_row())),
        success("Project updated successfully", Some(site_record()))
    );
    assert_eq!(update_project_response(&svc, Err(String::from("down"))), failure(500, "down"));
}

#[test]
fn update_project_answers_500_when_the_read_failed() {
    let dto = UpdateProjectDTO { name: None, description: None, images: None, category: None };
    let update = update_project(&service(), ID, dto);
    assert_eq!(
        update_project_write(update, Err(String::from("no rows"))),
        Handling::Respond(failure(500, "no rows"))
    );
}

#[test]
fn delete_project_answers_404_when_nothing_was_removed() {
    let svc = service();
    assert_eq!(delete_project(&svc, ID), ProjectPostgresRepo {}.delete(ID));
    assert_eq!(
        delete_project_response(&svc, Ok(1)),
        success("Project deleted successfully", None)
    );
    assert_eq!(delete_project_response(&svc, Ok(0)), failure(404, "Project not found"));
    assert_eq!(delete_project_response(&svc, Err(String::from("down"))), failure(500, "down"));
}
