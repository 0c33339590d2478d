//! The project service: a seam between the handlers and the repository.
//! Every method hands its arguments to the repository as they are and returns
//! what the repository returns.

use vstd::prelude::*;
use crate::dtos::project_dto::{CreateProjectDTO, UpdateProjectDTO};
use crate::models::project::{project_views, Project};
use crate::repositories::project_postgres::{
    decoded_images, delete_statement, insert_statement, project_of, projects_of, select_all_statement,
    select_category_statement, select_statement, ProjectPostgresRepo, ProjectRow, ProjectUpdate,
    SERIALIZE_FAILED,
};
use crate::repositories::statement::Statement;
use crate::trusted::json_of_strings;

verus! {

/// The project service, over its repository.
#[derive(Debug, Clone, Copy, PartialEq, Eq)]
pub struct ProjectService {
    pub pg_repo: ProjectPostgresRepo,
}

impl ProjectService {
    pub fn add(&self, dto: CreateProjectDTO) -> (r: Result<Statement, String>)
        ensures
            match json_of_strings(dto@.images) {
                Some(images) => r matches Ok(q) && decoded_images(images) == dto@.images
                    && exists|id: u128| q@ == #[trigger] insert_statement(id, dto@, images),
                None => r matches Err(message) && SERIALIZE_FAILED@.is_prefix_of(message@),
            },
    {
        self.pg_repo.add(dto)
    }

    pub fn get_all(&self) -> (q: Statement)
        ensures
            q@ == select_all_statement(),
    {
        self.pg_repo.get_all()
    }

    pub fn get_by_category(&self, category: String) -> (q: Statement)
        ensures
            q@ == select_category_statement(category@),
    {
        self.pg_repo.get_by_category(category)
    }

    pub fn get_by_id(&self, id: u128) -> (q: Statement)
        ensures
            q@ == select_statement(id),
    {
        self.pg_repo.get_by_id(id)
    }

    pub fn update(&self, id: u128, dto: UpdateProjectDTO) -> (u: ProjectUpdate)
        ensures
            u.id == id,
            u.dto == dto,
            u.read@ == select_statement(id),
    {
        self.pg_repo.update(id, dto)
    }

    pub fn delete(&self, id: u128) -> (q: Statement)
        ensures
            q@ == delete_statement(id),
    {
        self.pg_repo.delete(id)
    }

    pub fn record(&self, reply: Result<ProjectRow, String>) -> (r: Result<Project, String>)
        ensures
            match reply {
                Ok(row) => r matches Ok(p) && p@ == project_of(row@),
                Err(message) => r == Err::<Project, String>(message),
            },
    {
        self.pg_repo.record(reply)
    }

    pub fn records(&self, reply: Result<Vec<ProjectRow>, String>) -> (r: Result<
        Vec<Project>,
        String,
    >)
        ensures
            match reply {
                Ok(rows) => r matches Ok(list) && project_views(list@) == projects_of(rows@),
                Err(message) => r == Err::<Vec<Project>, String>(message),
            },
    {
        self.pg_repo.records(reply)
    }

    pub fn removed(&self, reply: Result<u64, String>) -> (r: Result<u64, String>)
        ensures
            r == reply,
    {
        self.pg_repo.removed(reply)
    }
}

} // verus!
