//! The project routes: the five that read and write the table, and the
//! upload of one file to the local directory. Each comes as what the route
//! does first and the answer that it gives to what came back.

use vstd::prelude::*;
use crate::dtos::project_dto::{CreateProjectDTO, UpdateProjectDTO};
use crate::handlers::reply::{Handling, HttpReply};
use crate::models::project::{project_views, Project};
use crate::repositories::project_postgres::{
    decoded_images, delete_statement, insert_statement, merged, project_of, projects_of,
    select_all_statement, select_category_statement, select_statement, update_statement,
    ProjectRow, ProjectUpdate, SERIALIZE_FAILED,
};
use crate::repositories::statement::Statement;
use crate::services::project_service::ProjectService;
use crate::text::{decimal, decimal_text, joined};
use crate::ids::{hyphenated, lemma_text_tells_ids_apart};
use crate::trusted::{
    id_text, is_dot_name, json_of_strings, new_id, sanitized, sanitized_name,
    unsafe_in_file_name,
};

verus! {

pub const IMAGE_REQUIRED: &'static str = "At least one image is required";

pub const PROJECT_ADDED: &'static str = "Project added successfully";

pub const PROJECTS_FOUND: &'static str = " projects found";

pub const PROJECT_FOUND: &'static str = "Project found";

pub const PROJECT_UPDATED: &'static str = "Project updated successfully";

pub const PROJECT_DELETED: &'static str = "Project deleted successfully";

pub const PROJECT_NOT_FOUND: &'static str = "Project not found";

pub const MULTIPART_UNREADABLE: &'static str = "Error reading multipart: ";

pub const NO_FILE: &'static str = "No file uploaded";

pub const FILE_NOT_CREATED: &'static str = "Error creating file: ";

pub const BLOCKING_FAILED: &'static str = "Blocking error: ";

pub const CHUNK_UNREADABLE: &'static str = "Error reading chunk: ";

pub const FILE_NOT_WRITTEN: &'static str = "Error writing file: ";

pub const IMAGE_UPLOADED: &'static str = "Image uploaded successfully";

pub const UPLOAD_DIR: &'static str = "./uploads";

pub const UPLOAD_DIR_SLASH: &'static str = "./uploads/";

pub const UPLOAD_URL_PREFIX: &'static str = "/uploads/";

pub const PNG_SUFFIX: &'static str = ".png";

/// `POST /api/projects`. A project without an image is refused with 400
/// before anything is asked of the database. Otherwise the insert to run is
/// returned, or 500 where the images cannot be written as JSON.
pub fn add_project(svc: &ProjectService, body: CreateProjectDTO) -> (r: Handling<Project>)
    ensures
        if body@.images.len() == 0 {
            r matches Handling::Respond(answer) && answer.is_failure(400, IMAGE_REQUIRED@)
        } else {
            match json_of_strings(body@.images) {
                Some(images) => r matches Handling::Run(q) && decoded_images(images)
                    == body@.images && exists|id: u128|
                    q@ == #[trigger] insert_statement(id, body@, images),
                None => r matches Handling::Respond(answer) && answer.is_failure_with(
                    500,
                    SERIALIZE_FAILED@,
                ),
            }
        },
{
    if body.images.len() == 0 {
        return Handling::Respond(HttpReply::failure(400, IMAGE_REQUIRED.to_string()));
    }
    match svc.add(body) {
        Ok(q) => Handling::Run(q),
        Err(message) => Handling::Respond(HttpReply::failure(500, message)),
    }
}

/// `POST /api/projects`: 200 with the stored project, or 500 with the
/// failure's message.
pub fn add_project_response(svc: &ProjectService, reply: Result<ProjectRow, String>) -> (r:
    HttpReply<Project>)
    ensures
        match reply {
            Ok(row) => r.is_ok(PROJECT_ADDED@) && (r.body.data matches Some(p) && p@ == project_of(
                row@,
            )),
            Err(message) => r.is_failure(500, message@),
        },
{
    match svc.record(reply) {
        Ok(project) => HttpReply::ok(PROJECT_ADDED.to_string(), project),
        Err(message) => HttpReply::failure(500, message),
    }
}

/// `GET /api/projects`: the projects of one category where the query names
/// one, and all projects otherwise; the newest first either way.
pub fn get_all_projects(svc: &ProjectService, category: Option<String>) -> (q: Statement)
    ensures
        q@ == match category {
            Some(c) => select_category_statement(c@),
            None => select_all_statement(),
        },
{
    match category {
        Some(c) => svc.get_by_category(c),
        None => svc.get_all(),
    }
}

/// `GET /api/projects`: 200 with the projects in the order of the rows and
/// their number in the message, or 500 with the failure's message.
pub fn get_all_projects_response(svc: &ProjectService, reply: Result<Vec<ProjectRow>, String>) -> (r:
    HttpReply<Vec<Project>>)
    ensures
        match reply {
            Ok(rows) => r.is_ok(decimal(rows@.len()) + PROJECTS_FOUND@) && (
            r.body.data matches Some(list) && project_views(list@) == projects_of(rows@)),
            Err(message) => r.is_failure(500, message@),
        },
{
    match svc.records(reply) {
        Ok(list) => {
            let mut message = decimal_text(list.len() as u64);
            message.append(PROJECTS_FOUND);
            assert(project_views(list@).len() == list@.len());
            HttpReply::ok(message, list)
        },
        Err(message) => HttpReply::failure(500, message),
    }
}

/// `GET /api/projects/{id}`: the query to run.
pub fn get_project_by_id(svc: &ProjectService, id: u128) -> (q: Statement)
    ensures
        q@ == select_statement(id),
{
    svc.get_by_id(id)
}

/// `GET /api/projects/{id}`: 200 with the project, or 404 with the failure's
/// message, whatever the failure was.
pub fn get_project_by_id_response(svc: &ProjectService, reply: Result<ProjectRow, String>) -> (r:
    HttpReply<Project>)
    ensures
        match reply {
            Ok(row) => r.is_ok(PROJECT_FOUND@) && (r.body.data matches Some(p) && p@ == project_of(
                row@,
            )),
            Err(message) => r.is_failure(404, message@),
        },
{
    match svc.record(reply) {
        Ok(project) => HttpReply::ok(PROJECT_FOUND.to_string(), project),
        Err(message) => HttpReply::failure(404, message),
    }
}

/// `PUT /api/projects/{id}`: the update, which first reads the current row.
pub fn update_project(svc: &ProjectService, id: u128, body: UpdateProjectDTO) -> (u: ProjectUpdate)
    ensures
        u.id == id,
        u.dto == body,
        u.read@ == select_statement(id),
{
    svc.update(id, body)
}

/// `PUT /api/projects/{id}`, after the read: the statement that writes the
/// merged fields, or 500 when the read failed or the images cannot be written
/// as JSON.
pub fn update_project_write(update: ProjectUpdate, current: Result<ProjectRow, String>) -> (r:
    Handling<Project>)
    ensures
        match current {
            Ok(row) => {
                let values = merged(project_of(row@), update.dto@);
                match json_of_strings(values.images) {
                    Some(images) => r matches Handling::Run(q) && q@ == update_statement(
                        update.id,
                        values,
                        images,
                    ) && decoded_images(images) == values.images,
                    None => r matches Handling::Respond(answer) && answer.is_failure_with(
                        500,
                        SERIALIZE_FAILED@,
                    ),
                }
            },
            Err(message) => r matches Handling::Respond(answer) && answer.is_failure(500, message@),
        },
{
    match update.write(current) {
        Ok(q) => Handling::Run(q),
        Err(message) => Handling::Respond(HttpReply::failure(500, message)),
    }
}

/// `PUT /api/projects/{id}`, after the write: 200 with the new state of the
/// project, or 500 with the failure's message.
pub fn update_project_response(svc: &ProjectService, reply: Result<ProjectRow, String>) -> (r:
    HttpReply<Project>)
    ensures
        match reply {
            Ok(row) => r.is_ok(PROJECT_UPDATED@) && (r.body.data matches Some(p) && p@
                == project_of(row@)),
            Err(message) => r.is_failure(500, message@),
        },
{
    match svc.record(reply) {
        Ok(project) => HttpReply::ok(PROJECT_UPDATED.to_string(), project),
        Err(message) => HttpReply::failure(500, message),
    }
}

/// `DELETE /api/projects/{id}`: the statement to run.
pub fn delete_project(svc: &ProjectService, id: u128) -> (q: Statement)
    ensures
        q@ == delete_statement(id),
{
    svc.delete(id)
}

/// `DELETE /api/projects/{id}`: 200 when a row was removed, 404 when none
/// was, 500 with the failure's message when the statement failed. No answer
/// carries a payload.
pub fn delete_project_response(svc: &ProjectService, reply: Result<u64, String>) -> (r: HttpReply<
    (),
>)
    ensures
        r.body.data is None,
        match reply {
            Ok(count) => if count > 0 {
                r.is_ok(PROJECT_DELETED@)
            } else {
                r.is_failure(404, PROJECT_NOT_FOUND@)
            },
            Err(message) => r.is_failure(500, message@),
        },
{
    match svc.removed(reply) {
        Ok(count) => {
            if count > 0 {
                HttpReply::done(PROJECT_DELETED.to_string())
            } else {
                HttpReply::failure(404, PROJECT_NOT_FOUND.to_string())
            }
        },
        Err(message) => HttpReply::failure(500, message),
    }
}

/// What a body of `POST /api/projects/upload` begins with.
#[derive(Debug, Clone, PartialEq, Eq)]
pub enum IncomingFile {
    /// The body holds no part.
    Missing,
    /// The first part could not be read; the text says why.
    Unreadable(String),
    /// The first part, with the file name that the client gave it, if any.
    File { filename: Option<String> },
}

/// A file to store in the upload directory.
#[derive(Debug, Clone, PartialEq, Eq)]
pub struct LocalFile {
    /// The directory, which is made if it is not there.
    pub dir: String,
    /// The name of the file inside the directory.
    pub filename: String,
    /// Directory and name together: where the bytes go.
    pub path: String,
}

/// What the upload answers with: the name under which the file was stored and
/// the path under which it is served.
#[derive(Debug, Clone, PartialEq, Eq)]
pub struct StoredFile {
    pub filename: String,
    pub url: String,
}

/// The next move of the upload route.
#[derive(Debug, Clone, PartialEq, Eq)]
pub enum LocalUpload {
    /// Write the part's bytes to this file, chunk by chunk in their order.
    Store(LocalFile),
    /// Send this answer.
    Respond(HttpReply<StoredFile>),
}

/// Why a file could not be stored. Each carries the text of its cause.
#[derive(Debug, Clone, PartialEq, Eq)]
pub enum StoreFailure {
    Create(String),
    Blocking(String),
    ReadChunk(String),
    Write(String),
}

/// True when `name` cannot lead out of the directory that it is put in: it
/// holds no path separator, nor any other reserved or control character, and
/// is neither `.` nor `..`.
pub open spec fn is_safe_file_name(name: Seq<char>) -> bool {
    &&& forall|i: int| 0 <= i < name.len() ==> !unsafe_in_file_name(#[trigger] name[i])
    &&& !is_dot_name(name)
}

/// The name for a file that came without one.
pub open spec fn unnamed_file_name(id: u128) -> Seq<char> {
    hyphenated(id) + PNG_SUFFIX@
}

/// Names made from different identifiers differ: no two files that came
/// without a name are stored under the same one as long as no identifier is
/// drawn twice.
pub proof fn lemma_unnamed_files_differ(first: u128, second: u128)
    requires
        first != second,
    ensures
        unnamed_file_name(first) != unnamed_file_name(second),
{
    let a = unnamed_file_name(first);
    let b = unnamed_file_name(second);
    if a == b {
        assert(a.subrange(0, 36) =~= hyphenated(first));
        assert(b.subrange(0, 36) =~= hyphenated(second));
        lemma_text_tells_ids_apart(first, second);
    }
}

/// The name for a file that came without one, made from a fresh identifier.
pub fn file_name_for(id: u128) -> (name: String)
    ensures
        name@ == unnamed_file_name(id),
        is_safe_file_name(name@),
{
    let mut name = id_text(id);
    name.append(PNG_SUFFIX);
    proof {
        reveal_strlit(".png");
        assert forall|i: int| 0 <= i < name@.len() implies !unsafe_in_file_name(
            #[trigger] name@[i],
        ) by {
            if i < 36 {
                assert(name@[i] == hyphenated(id)[i]);
            } else {
                assert(name@[i] == PNG_SUFFIX@[i - 36]);
            }
        }
    }
    name
}

/// The place of a file of this name in the upload directory.
pub fn local_file(filename: String) -> (file: LocalFile)
    ensures
        file.dir@ == UPLOAD_DIR@,
        file.filename == filename,
        file.path@ == UPLOAD_DIR_SLASH@ + filename@,
{
    let path = joined(UPLOAD_DIR_SLASH, filename.as_str());
    LocalFile { dir: UPLOAD_DIR.to_string(), filename, path }
}

/// `POST /api/projects/upload`. Without a part the answer is 400; so it is
/// when the part cannot be read. Otherwise the file is to be stored in the
/// upload directory: under the name that the client gave, as the sanitizer
/// leaves it, or under a fresh name ending in `.png` when the client gave
/// none. Either name is safe in the directory.
pub fn upload_project_image(part: IncomingFile) -> (r: LocalUpload)
    ensures
        match part {
            IncomingFile::Missing => r matches LocalUpload::Respond(answer) && answer.is_failure(
                400,
                NO_FILE@,
            ),
            IncomingFile::Unreadable(cause) => r matches LocalUpload::Respond(answer)
                && answer.is_failure(400, MULTIPART_UNREADABLE@ + cause@),
            IncomingFile::File { filename } => r matches LocalUpload::Store(file) && file.dir@
                == UPLOAD_DIR@ && file.path@ == UPLOAD_DIR_SLASH@ + file.filename@
                && is_safe_file_name(file.filename@) && match filename {
                Some(given) => exists|windows: bool|
                    file.filename@ == #[trigger] sanitized_name(given@, windows),
                None => exists|id: u128| file.filename@ == #[trigger] unnamed_file_name(id),
            },
        },
{
    match part {
        IncomingFile::Missing => LocalUpload::Respond(HttpReply::failure(400, NO_FILE.to_string())),
        IncomingFile::Unreadable(cause) => LocalUpload::Respond(
            HttpReply::failure(400, joined(MULTIPART_UNREADABLE, cause.as_str())),
        ),
        IncomingFile::File { filename } => {
            let name = match filename {
                Some(given) => sanitized(given.as_str()),
                None => {
                    let id: u128 = new_id();
                    file_name_for(id)
                },
            };
            LocalUpload::Store(local_file(name))
        },
    }
}

/// What `upload_project_image_response` says when the file could not be
/// stored.
pub open spec fn store_failure_message(failure: StoreFailure) -> Seq<char> {
    match failure {
        StoreFailure::Create(cause) => FILE_NOT_CREATED@ + cause@,
        StoreFailure::Blocking(cause) => BLOCKING_FAILED@ + cause@,
        StoreFailure::ReadChunk(cause) => CHUNK_UNREADABLE@ + cause@,
        StoreFailure::Write(cause) => FILE_NOT_WRITTEN@ + cause@,
    }
}

/// `POST /api/projects/upload`, after the file was written or was not: 200
/// with the stored name and the path under which the file is served, or 500
/// with the failure. A file that was written in part is not reported.
pub fn upload_project_image_response(file: LocalFile, outcome: Result<(), StoreFailure>) -> (r:
    HttpReply<StoredFile>)
    ensures
        match outcome {
            Ok(_) => r.is_ok(IMAGE_UPLOADED@) && (r.body.data matches Some(stored)
                && stored.filename == file.filename && stored.url@ == UPLOAD_URL_PREFIX@
                + file.filename@),
            Err(failure) => r.is_failure(500, store_failure_message(failure)),
        },
{
    match outcome {
        Ok(_) => {
            let url = joined(UPLOAD_URL_PREFIX, file.filename.as_str());
            HttpReply::ok(IMAGE_UPLOADED.to_string(), StoredFile { filename: file.filename, url })
        },
        Err(failure) => {
            let message = match failure {
                StoreFailure::Create(cause) => joined(FILE_NOT_CREATED, cause.as_str()),
                StoreFailure::Blocking(cause) => joined(BLOCKING_FAILED, cause.as_str()),
                StoreFailure::ReadChunk(cause) => joined(CHUNK_UNREADABLE, cause.as_str()),
                StoreFailure::Write(cause) => joined(FILE_NOT_WRITTEN, cause.as_str()),
            };
            HttpReply::failure(500, message)
        },
    }
}

} // verus!
