use vstd::prelude::*;

verus! {

/// A stored project. `images` holds the URLs of its pictures in the order in
/// which they are shown; the two timestamps are written as text.
#[derive(Debug, Clone, PartialEq, Eq)]
pub struct Project {
    pub id: u128,
    pub name: String,
    pub description: String,
    pub images: Vec<String>,
    pub category: String,
    pub created_at: Option<String>,
    pub updated_at: Option<String>,
}

/// A project as plain values.
pub struct ProjectView {
    pub id: u128,
    pub name: Seq<char>,
    pub description: Seq<char>,
    pub images: Seq<Seq<char>>,
    pub category: Seq<char>,
    pub created_at: Option<Seq<char>>,
    pub updated_at: Option<Seq<char>>,
}

/// The characters of a text that may be absent.
pub open spec fn text_of(text: Option<String>) -> Option<Seq<char>> {
    match text {
        Some(t) => Some(t@),
        None => None,
    }
}

impl View for Project {
    type V = ProjectView;

    open spec fn view(&self) -> ProjectView {
        ProjectView {
            id: self.id,
            name: self.name@,
            description: self.description@,
            images: self.images.deep_view(),
            category: self.category@,
            created_at: text_of(self.created_at),
            updated_at: text_of(self.updated_at),
        }
    }
}

/// The views of a list of projects, in order.
pub open spec fn project_views(list: Seq<Project>) -> Seq<ProjectView> {
    list.map_values(|p: Project| p@)
}

} // verus!
