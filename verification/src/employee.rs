//! The employee record that serves as a core payload.

use vstd::prelude::*;
use vstd::string::*;

verus! {

/// An employee: the fixed payload around which facets are attached.
#[derive(Debug)]
pub struct Employee {
    pub name: String,
    pub id: String,
    pub department: String,
}

impl Employee {
    /// An employee with the given name, identifier and department.
    pub fn new(name: &str, id: &str, department: &str) -> (employee: Self)
        ensures
            employee.name@ == name@,
            employee.id@ == id@,
            employee.department@ == department@,
    {
        Self { name: name.to_owned(), id: id.to_owned(), department: department.to_owned() }
    }
}

} // verus!
