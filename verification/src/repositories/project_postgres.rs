//! The projects table: the statements that read and write it, the form in
//! which a project's images are stored, and the records made from what the
//! database answers.

use vstd::prelude::*;
use crate::dtos::project_dto::{
    CreateProjectDTO, CreateProjectView, UpdateProjectDTO, UpdateProjectView,
};
use crate::models::project::{project_views, text_of, Project, ProjectView};
use crate::repositories::statement::{
    Fetch, SqlType, SqlValue, SqlValueView, Statement, StatementView,
};
use crate::text::joined;
use crate::trusted::{
    json_of_strings, new_id, strings_from_json, strings_of_json, strings_to_json, utc_minute,
    utc_minute_text,
};

verus! {

pub const INSERT_PROJECT: &'static str =
    "INSERT INTO projects (id, name, description, images, category) VALUES ($1, $2, $3, $4::jsonb, $5) RETURNING id, name, description, images::text, category, created_at, updated_at";

pub const SELECT_PROJECTS: &'static str =
    "SELECT id, name, description, images::text, category, created_at, updated_at FROM projects ORDER BY created_at DESC";

pub const SELECT_PROJECTS_OF_CATEGORY: &'static str =
    "SELECT id, name, description, images::text, category, created_at, updated_at FROM projects WHERE category = $1 ORDER BY created_at DESC";

pub const SELECT_PROJECT: &'static str =
    "SELECT id, name, description, images::text, category, created_at, updated_at FROM projects WHERE id = $1";

/// The update of a project comes in three parts, so that what refreshes the
/// timestamp of the last change can be told from the rest.
pub const UPDATE_PROJECT_FIELDS: &'static str =
    "UPDATE projects SET name = $1, description = $2, images = $3::jsonb, category = $4, ";

pub const REFRESH_UPDATED_AT: &'static str = "updated_at = CURRENT_TIMESTAMP";

pub const UPDATE_PROJECT_ROW: &'static str =
    " WHERE id = $5 RETURNING id, name, description, images::text, category, created_at, updated_at";

pub const DELETE_PROJECT: &'static str = "DELETE FROM projects WHERE id = $1";

pub const SERIALIZE_FAILED: &'static str = "Failed to serialize images: ";

/// One row of the projects table. `images` is the JSON text of the column;
/// the timestamps count microseconds from the Unix epoch, in UTC.
#[derive(Debug, Clone, PartialEq, Eq)]
pub struct ProjectRow {
    pub id: u128,
    pub name: String,
    pub description: String,
    pub images: String,
    pub category: String,
    pub created_at: Option<i64>,
    pub updated_at: Option<i64>,
}

/// A row as plain values.
pub struct ProjectRowView {
    pub id: u128,
    pub name: Seq<char>,
    pub description: Seq<char>,
    pub images: Seq<char>,
    pub category: Seq<char>,
    pub created_at: Option<i64>,
    pub updated_at: Option<i64>,
}

impl View for ProjectRow {
    type V = ProjectRowView;

    open spec fn view(&self) -> ProjectRowView {
        ProjectRowView {
            id: self.id,
            name: self.name@,
            description: self.description@,
            images: self.images@,
            category: self.category@,
            created_at: self.created_at,
            updated_at: self.updated_at,
        }
    }
}

/// The images that a stored text stands for: the list it holds as JSON, and
/// no image at all where it is not a JSON list of strings.
pub open spec fn decoded_images(text: Seq<char>) -> Seq<Seq<char>> {
    match strings_of_json(text) {
        Some(images) => images,
        None => seq![],
    }
}

/// A stored timestamp as the record shows it.
pub open spec fn shown_timestamp(at: Option<i64>) -> Option<Seq<char>> {
    match at {
        Some(micros) => utc_minute(micros),
        None => None,
    }
}

/// The record that a row stands for.
pub open spec fn project_of(row: ProjectRowView) -> ProjectView {
    ProjectView {
        id: row.id,
        name: row.name,
        description: row.description,
        images: decoded_images(row.images),
        category: row.category,
        created_at: shown_timestamp(row.created_at),
        updated_at: shown_timestamp(row.updated_at),
    }
}

/// The records that a list of rows stands for, in order.
pub open spec fn projects_of(rows: Seq<ProjectRow>) -> Seq<ProjectView> {
    rows.map_values(|r: ProjectRow| project_of(r@))
}

/// The stored values after a partial update: a field that the update names
/// takes its new value, every other field keeps the current one. A list of
/// images is replaced as a whole or not at all.
pub open spec fn merged(current: ProjectView, dto: UpdateProjectView) -> ProjectView {
    ProjectView {
        id: current.id,
        name: match dto.name {
            Some(name) => name,
            None => current.name,
        },
        description: match dto.description {
            Some(description) => description,
            None => current.description,
        },
        images: match dto.images {
            Some(images) => images,
            None => current.images,
        },
        category: match dto.category {
            Some(category) => category,
            None => current.category,
        },
        created_at: current.created_at,
        updated_at: current.updated_at,
    }
}

/// The insert that stores `dto` under `id`, its images as the JSON text
/// `images`, and returns the stored row. The database sets both timestamps.
pub open spec fn insert_statement(
    id: u128,
    dto: CreateProjectView,
    images: Seq<char>,
) -> StatementView {
    StatementView {
        sql: INSERT_PROJECT@,
        types: seq![SqlType::Uuid, SqlType::Varchar, SqlType::Text, SqlType::Text, SqlType::Varchar],
        params: seq![
            SqlValueView::Uuid(id),
            SqlValueView::Text(dto.name),
            SqlValueView::Text(dto.description),
            SqlValueView::Text(images),
            SqlValueView::Text(dto.category),
        ],
        fetch: Fetch::One,
    }
}

/// The query for every project, the newest first.
pub open spec fn select_all_statement() -> StatementView {
    StatementView { sql: SELECT_PROJECTS@, types: seq![], params: seq![], fetch: Fetch::All }
}

/// The query for the projects of exactly this category, the newest first.
pub open spec fn select_category_statement(category: Seq<char>) -> StatementView {
    StatementView {
        sql: SELECT_PROJECTS_OF_CATEGORY@,
        types: seq![],
        params: seq![SqlValueView::Text(category)],
        fetch: Fetch::All,
    }
}

/// The query for the project stored under `id`.
pub open spec fn select_statement(id: u128) -> StatementView {
    StatementView {
        sql: SELECT_PROJECT@,
        types: seq![],
        params: seq![SqlValueView::Uuid(id)],
        fetch: Fetch::One,
    }
}

/// The text of the update statement.
pub open spec fn update_sql() -> Seq<char> {
    UPDATE_PROJECT_FIELDS@ + REFRESH_UPDATED_AT@ + UPDATE_PROJECT_ROW@
}

/// The update that overwrites the four fields of the row of `id` with those
/// of `values`, the images as the JSON text `images`, refreshes the
/// timestamp of the last change, and returns the new row.
pub open spec fn update_statement(id: u128, values: ProjectView, images: Seq<char>) -> StatementView {
    StatementView {
        sql: update_sql(),
        types: seq![SqlType::Varchar, SqlType::Text, SqlType::Text, SqlType::Varchar, SqlType::Uuid],
        params: seq![
            SqlValueView::Text(values.name),
            SqlValueView::Text(values.description),
            SqlValueView::Text(images),
            SqlValueView::Text(values.category),
            SqlValueView::Uuid(id),
        ],
        fetch: Fetch::One,
    }
}

/// The statement that deletes the row of `id`.
pub open spec fn delete_statement(id: u128) -> StatementView {
    StatementView {
        sql: DELETE_PROJECT@,
        types: seq![],
        params: seq![SqlValueView::Uuid(id)],
        fetch: Fetch::Affected,
    }
}

/// The identifier that the insert of a record binds is the one that the
/// lookup by that identifier binds, and a record carries the identifier of
/// the row it was made from. That two inserts never draw the same identifier
/// rests on the random source and on the table's key, and is not stated here.
pub proof fn lemma_stored_id_is_looked_up(
    id: u128,
    dto: CreateProjectView,
    images: Seq<char>,
    row: ProjectRowView,
)
    ensures
        insert_statement(id, dto, images).params[0] == SqlValueView::Uuid(id),
        select_statement(id).params == seq![insert_statement(id, dto, images).params[0]],
        project_of(row).id == row.id,
{
}

/// An update that names no field is a no-op on the stored values: the four
/// fields that are written back are those of the record that was read. The
/// statement still refreshes the timestamp of the last change, as every
/// update does.
pub proof fn lemma_empty_update_keeps_values(
    current: ProjectView,
    dto: UpdateProjectView,
    images: Seq<char>,
)
    requires
        dto.is_empty(),
    ensures
        merged(current, dto) == current,
        update_statement(current.id, merged(current, dto), images) == update_statement(
            current.id,
            current,
            images,
        ),
        update_statement(current.id, merged(current, dto), images).sql == UPDATE_PROJECT_FIELDS@
            + REFRESH_UPDATED_AT@ + UPDATE_PROJECT_ROW@,
{
}

/// The same update, applied again to its own outcome, changes nothing more.
pub proof fn lemma_update_twice_is_update_once(current: ProjectView, dto: UpdateProjectView)
    ensures
        merged(merged(current, dto), dto) == merged(current, dto),
{
}

/// An update that leaves out the images keeps the stored list as it is: it
/// is never emptied by the way.
pub proof fn lemma_images_kept_unless_replaced(current: ProjectView, dto: UpdateProjectView)
    ensures
        dto.images is None ==> merged(current, dto).images == current.images,
        dto.images is Some ==> merged(current, dto).images == dto.images->0,
{
}

/// Two updates of one project that both read the row before either wrote,
/// and then wrote one after the other. The row that is left is the merge of
/// the second update over the record that both read: each of its fields is
/// the second update's where that names the field, and else the value that
/// was read. Against the two updates done one after the other, exactly the
/// fields that only the first update names are lost; no field holds anything
/// that neither the record nor an update held.
pub proof fn lemma_last_write_wins(
    current: ProjectView,
    first: UpdateProjectView,
    second: UpdateProjectView,
)
    ensures
        ({
            let left = merged(current, second);
            let in_turn = merged(merged(current, first), second);
            &&& left.id == current.id
            &&& left.name == if second.name is Some {
                second.name->0
            } else {
                current.name
            }
            &&& left.description == if second.description is Some {
                second.description->0
            } else {
                current.description
            }
            &&& left.images == if second.images is Some {
                second.images->0
            } else {
                current.images
            }
            &&& left.category == if second.category is Some {
                second.category->0
            } else {
                current.category
            }
            &&& left.name != in_turn.name ==> first.name is Some && second.name is None
                && in_turn.name == first.name->0
            &&& left.description != in_turn.description ==> first.description is Some
                && second.description is None && in_turn.description == first.description->0
            &&& left.images != in_turn.images ==> first.images is Some && second.images is None
                && in_turn.images == first.images->0
            &&& left.category != in_turn.category ==> first.category is Some
                && second.category is None && in_turn.category == first.category->0
        }),
{
}

/// A stored text that is no JSON list of strings stands for no image at all,
/// and so does the record made of a row that holds it.
pub proof fn lemma_unreadable_images_are_none(row: ProjectRowView)
    requires
        strings_of_json(row.images) is None,
    ensures
        decoded_images(row.images) == Seq::<Seq<char>>::empty(),
        project_of(row).images.len() == 0,
{
}

/// The text under which a list of images is stored. What comes back as `Ok`
/// stands for the same images, in the same order, when it is read again.
pub fn encode_images(images: &Vec<String>) -> (r: Result<String, String>)
    ensures
        match r {
            Ok(text) => json_of_strings(images.deep_view()) == Some(text@) && decoded_images(text@)
                == images.deep_view(),
            Err(message) => json_of_strings(images.deep_view()) is None
                && SERIALIZE_FAILED@.is_prefix_of(message@),
        },
{
    match strings_to_json(images) {
        Ok(text) => Ok(text),
        Err(cause) => Err(joined(SERIALIZE_FAILED, cause.as_str())),
    }
}

/// The images that a stored text stands for.
pub fn decode_images(text: &str) -> (images: Vec<String>)
    ensures
        images.deep_view() == decoded_images(text@),
{
    match strings_from_json(text) {
        Some(images) => images,
        None => {
            let images: Vec<String> = Vec::new();
            assert(images.deep_view() =~= decoded_images(text@));
            images
        },
    }
}

/// A stored timestamp as text: day, month, year, hour and minute in UTC.
pub fn show_timestamp(at: Option<i64>) -> (r: Option<String>)
    ensures
        text_of(r) == shown_timestamp(at),
{
    match at {
        Some(micros) => utc_minute_text(micros),
        None => None,
    }
}

/// The record that a row stands for.
pub fn from_row(row: ProjectRow) -> (p: Project)
    ensures
        p@ == project_of(row@),
{
    let images = decode_images(row.images.as_str());
    let created_at = show_timestamp(row.created_at);
    let updated_at = show_timestamp(row.updated_at);
    Project {
        id: row.id,
        name: row.name,
        description: row.description,
        images,
        category: row.category,
        created_at,
        updated_at,
    }
}

/// An update that has asked for the current row and waits for it.
#[derive(Debug, Clone, PartialEq, Eq)]
pub struct ProjectUpdate {
    pub id: u128,
    pub dto: UpdateProjectDTO,
    pub read: Statement,
}

impl ProjectUpdate {
    /// The second step of an update. When the current row could not be read,
    /// the update ends with that failure. Otherwise the fields that the update
    /// names are laid over the current record, and the statement that writes
    /// all of them back is returned; the update ends in a failure where the
    /// images cannot be written as JSON.
    pub fn write(self, current: Result<ProjectRow, String>) -> (r: Result<Statement, String>)
        ensures
            match current {
                Ok(row) => {
                    let values = merged(project_of(row@), self.dto@);
                    match json_of_strings(values.images) {
                        Some(images) => r matches Ok(q) && q@ == update_statement(
                            self.id,
                            values,
                            images,
                        ) && decoded_images(images) == values.images,
                        None => r matches Err(message) && SERIALIZE_FAILED@.is_prefix_of(message@),
                    }
                },
                Err(message) => r == Err::<Statement, String>(message),
            },
    {
        match current {
            Err(message) => Err(message),
            Ok(row) => {
                let current = from_row(row);
                let name = match self.dto.name {
                    Some(name) => name,
                    None => current.name,
                };
                let description = match self.dto.description {
                    Some(description) => description,
                    None => current.description,
                };
                let images = match self.dto.images {
                    Some(images) => images,
                    None => current.images,
                };
                let category = match self.dto.category {
                    Some(category) => category,
                    None => current.category,
                };
                match encode_images(&images) {
                    Err(message) => Err(message),
                    Ok(images_json) => {
                        let mut types: Vec<SqlType> = Vec::new();
                        types.push(SqlType::Varchar);
                        types.push(SqlType::Text);
                        types.push(SqlType::Text);
                        types.push(SqlType::Varchar);
                        types.push(SqlType::Uuid);
                        let mut params: Vec<SqlValue> = Vec::new();
                        params.push(SqlValue::Text(name));
                        params.push(SqlValue::Text(description));
                        params.push(SqlValue::Text(images_json));
                        params.push(SqlValue::Text(category));
                        params.push(SqlValue::Uuid(self.id));
                        let mut sql = joined(UPDATE_PROJECT_FIELDS, REFRESH_UPDATED_AT);
                        sql.append(UPDATE_PROJECT_ROW);
                        let q = Statement { sql, types, params, fetch: Fetch::One };
                        proof {
                            let values = merged(project_of(row@), self.dto@);
                            let expected = update_statement(self.id, values, images_json@);
                            assert(q@.types =~= expected.types);
                            assert(q@.params =~= expected.params);
                        }
                        Ok(q)
                    },
                }
            },
        }
    }
}

/// Access to the projects table. It holds no connection: it says which
/// statement to run and reads what came back.
#[derive(Debug, Clone, Copy, PartialEq, Eq)]
pub struct ProjectPostgresRepo {}

impl ProjectPostgresRepo {
    /// The insert for a new project under the identifier `id`; a failure where
    /// the images cannot be written as JSON.
    pub fn add_with_id(&self, id: u128, dto: CreateProjectDTO) -> (r: Result<Statement, String>)
        ensures
            match json_of_strings(dto@.images) {
                Some(images) => r matches Ok(q) && q@ == insert_statement(id, dto@, images)
                    && decoded_images(images) == dto@.images,
                None => r matches Err(message) && SERIALIZE_FAILED@.is_prefix_of(message@),
            },
    {
        match encode_images(&dto.images) {
            Err(message) => Err(message),
            Ok(images_json) => {
                let mut types: Vec<SqlType> = Vec::new();
                types.push(SqlType::Uuid);
                types.push(SqlType::Varchar);
                types.push(SqlType::Text);
                types.push(SqlType::Text);
                types.push(SqlType::Varchar);
                let mut params: Vec<SqlValue> = Vec::new();
                params.push(SqlValue::Uuid(id));
                params.push(SqlValue::Text(dto.name));
                params.push(SqlValue::Text(dto.description));
                params.push(SqlValue::Text(images_json));
                params.push(SqlValue::Text(dto.category));
                let q = Statement { sql: INSERT_PROJECT.to_string(), types, params, fetch: Fetch::One };
                proof {
                    let expected = insert_statement(id, dto@, images_json@);
                    assert(q@.types =~= expected.types);
                    assert(q@.params =~= expected.params);
                }
                Ok(q)
            },
        }
    }

    /// The insert for a new project under a fresh random identifier.
    pub fn add(&self, dto: CreateProjectDTO) -> (r: Result<Statement, String>)
        ensures
            match json_of_strings(dto@.images) {
                Some(images) => r matches Ok(q) && decoded_images(images) == dto@.images
                    && exists|id: u128| q@ == #[trigger] insert_statement(id, dto@, images),
                None => r matches Err(message) && SERIALIZE_FAILED@.is_prefix_of(message@),
            },
    {
        let id: u128 = new_id();
        self.add_with_id(id, dto)
    }

    /// The query for every project, the newest first.
    pub fn get_all(&self) -> (q: Statement)
        ensures
            q@ == select_all_statement(),
    {
        let q = Statement {
            sql: SELECT_PROJECTS.to_string(),
            types: Vec::new(),
            params: Vec::new(),
            fetch: Fetch::All,
        };
        assert(q@.params =~= select_all_statement().params);
        q
    }

    /// The query for the projects whose category is exactly `category`, the
    /// newest first.
    pub fn get_by_category(&self, category: String) -> (q: Statement)
        ensures
            q@ == select_category_statement(category@),
    {
        let mut params: Vec<SqlValue> = Vec::new();
        params.push(SqlValue::Text(category));
        let q = Statement {
            sql: SELECT_PROJECTS_OF_CATEGORY.to_string(),
            types: Vec::new(),
            params,
            fetch: Fetch::All,
        };
        assert(q@.params =~= select_category_statement(category@).params);
        q
    }

    /// The query for the project stored under `id`.
    pub fn get_by_id(&self, id: u128) -> (q: Statement)
        ensures
            q@ == select_statement(id),
    {
        let mut params: Vec<SqlValue> = Vec::new();
        params.push(SqlValue::Uuid(id));
        let q = Statement {
            sql: SELECT_PROJECT.to_string(),
            types: Vec::new(),
            params,
            fetch: Fetch::One,
        };
        assert(q@.params =~= select_statement(id).params);
        q
    }

    /// The first step of an update: the current row is asked for, and the
    /// update waits for it with the fields to change.
    pub fn update(&self, id: u128, dto: UpdateProjectDTO) -> (u: ProjectUpdate)
        ensures
            u.id == id,
            u.dto == dto,
            u.read@ == select_statement(id),
    {
        let read = self.get_by_id(id);
        ProjectUpdate { id, dto, read }
    }

    /// The statement that deletes the project stored under `id`.
    pub fn delete(&self, id: u128) -> (q: Statement)
        ensures
            q@ == delete_statement(id),
    {
        let mut params: Vec<SqlValue> = Vec::new();
        params.push(SqlValue::Uuid(id));
        let q = Statement {
            sql: DELETE_PROJECT.to_string(),
            types: Vec::new(),
            params,
            fetch: Fetch::Affected,
        };
        assert(q@.params =~= delete_statement(id).params);
        q
    }

    /// The record for the one row that a statement brought back, or the
    /// failure that it met.
    pub fn record(&self, reply: Result<ProjectRow, String>) -> (r: Result<Project, String>)
        ensures
            match reply {
                Ok(row) => r matches Ok(p) && p@ == project_of(row@),
                Err(message) => r == Err::<Project, String>(message),
            },
    {
        match reply {
            Ok(row) => Ok(from_row(row)),
            Err(message) => Err(message),
        }
    }

    /// The records for the rows that a query brought back, in the same order,
    /// or the failure that it met.
    pub fn records(&self, reply: Result<Vec<ProjectRow>, String>) -> (r: Result<
        Vec<Project>,
        String,
    >)
        ensures
            match reply {
                Ok(rows) => r matches Ok(list) && project_views(list@) == projects_of(rows@),
                Err(message) => r == Err::<Vec<Project>, String>(message),
            },
    {
        match reply {
            Err(message) => Err(message),
            Ok(rows) => {
                let ghost all = rows@;
                let mut list: Vec<Project> = Vec::new();
                for row in it: rows
                    invariant
                        it.seq() == all,
                        list@.len() == it.index(),
                        forall|i: int|
                            0 <= i < list@.len() ==> (#[trigger] list@[i])@ == project_of(all[i]@),
                {
                    list.push(from_row(row));
                }
                assert(project_views(list@) =~= projects_of(all));
                Ok(list)
            },
        }
    }

    /// The number of rows that a delete removed, or the failure that it met.
    pub fn removed(&self, reply: Result<u64, String>) -> (r: Result<u64, String>)
        ensures
            r == reply,
    {
        reply
    }
}

} // verus!
