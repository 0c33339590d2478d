use vstd::prelude::*;
use crate::models::project::text_of;

verus! {

/// What a client sends to create an employee.
#[derive(Debug, Clone, PartialEq, Eq)]
pub struct CreateEmployeeDTO {
    pub name: String,
    pub position: String,
    pub email: String,
}

/// What a client sends to change an employee: each field may be left out.
#[derive(Debug, Clone, PartialEq, Eq)]
pub struct UpdateEmployeeDTO {
    pub name: Option<String>,
    pub position: Option<String>,
    pub email: Option<String>,
}

/// The fields of a new employee as plain values.
pub struct CreateEmployeeView {
    pub name: Seq<char>,
    pub position: Seq<char>,
    pub email: Seq<char>,
}

/// The fields of a partial update as plain values.
pub struct UpdateEmployeeView {
    pub name: Option<Seq<char>>,
    pub position: Option<Seq<char>>,
    pub email: Option<Seq<char>>,
}

impl View for CreateEmployeeDTO {
    type V = CreateEmployeeView;

    open spec fn view(&self) -> CreateEmployeeView {
        CreateEmployeeView { name: self.name@, position: self.position@, email: self.email@ }
    }
}

impl View for UpdateEmployeeDTO {
    type V = UpdateEmployeeView;

    open spec fn view(&self) -> UpdateEmployeeView {
        UpdateEmployeeView {
            name: text_of(self.name),
            position: text_of(self.position),
            email: text_of(self.email),
        }
    }
}

impl UpdateEmployeeView {
    /// True when the update names no field at all.
    pub open spec fn is_empty(self) -> bool {
        self.name is None && self.position is None && self.email is None
    }
}

} // verus!
