use vstd::prelude::*;

verus! {

/// A stored employee.
#[derive(Debug, Clone, PartialEq, Eq)]
pub struct Employee {
    pub id: u128,
    pub name: String,
    pub position: String,
    pub email: String,
}

/// An employee as plain values.
pub struct EmployeeView {
    pub id: u128,
    pub name: Seq<char>,
    pub position: Seq<char>,
    pub email: Seq<char>,
}

impl View for Employee {
    type V = EmployeeView;

    open spec fn view(&self) -> EmployeeView {
        EmployeeView { id: self.id, name: self.name@, position: self.position@, email: self.email@ }
    }
}

/// The views of a list of employees, in order.
pub open spec fn employee_views(list: Seq<Employee>) -> Seq<EmployeeView> {
    list.map_values(|e: Employee| e@)
}

} // verus!
