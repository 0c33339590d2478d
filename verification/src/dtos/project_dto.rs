use vstd::prelude::*;
use crate::models::project::text_of;

verus! {

/// What a client sends to create a project.
#[derive(Debug, Clone, PartialEq, Eq)]
pub struct CreateProjectDTO {
    pub name: String,
    pub description: String,
    pub images: Vec<String>,
    pub category: String,
}

/// What a client sends to change a project: each field may be left out, and a
/// list of images that is sent replaces the stored one as a whole.
#[derive(Debug, Clone, PartialEq, Eq)]
pub struct UpdateProjectDTO {
    pub name: Option<String>,
    pub description: Option<String>,
    pub images: Option<Vec<String>>,
    pub category: Option<String>,
}

/// The fields of a new project as plain values.
pub struct CreateProjectView {
    pub name: Seq<char>,
    pub description: Seq<char>,
    pub images: Seq<Seq<char>>,
    pub category: Seq<char>,
}

/// The fields of a partial update as plain values.
pub struct UpdateProjectView {
    pub name: Option<Seq<char>>,
    pub description: Option<Seq<char>>,
    pub images: Option<Seq<Seq<char>>>,
    pub category: Option<Seq<char>>,
}

/// The texts of a list that may be absent.
pub open spec fn texts_of(list: Option<Vec<String>>) -> Option<Seq<Seq<char>>> {
    match list {
        Some(l) => Some(l.deep_view()),
        None => None,
    }
}

impl View for CreateProjectDTO {
    type V = CreateProjectView;

    open spec fn view(&self) -> CreateProjectView {
        CreateProjectView {
            name: self.name@,
            description: self.description@,
            images: self.images.deep_view(),
            category: self.category@,
        }
    }
}

impl View for UpdateProjectDTO {
    type V = UpdateProjectView;

    open spec fn view(&self) -> UpdateProjectView {
        UpdateProjectView {
            name: text_of(self.name),
            description: text_of(self.description),
            images: texts_of(self.images),
            category: text_of(self.category),
        }
    }
}

impl UpdateProjectView {
    /// True when the update names no field at all.
    pub open spec fn is_empty(self) -> bool {
        self.name is None && self.description is None && self.images is None
            && self.category is None
    }
}

} // verus!
