//! The permission facet: a table of named permissions, seeded from a role.

use vstd::prelude::*;
use vstd::string::*;
use crate::keyed::distinct_keys;
use crate::keyed::keyed;
use crate::keyed::lemma_keyed_absent;
use crate::keyed::lemma_keyed_present;
use crate::keyed::lemma_keyed_push;
use crate::keyed::lemma_keyed_update;

verus! {

/// What a permission facet holds, as plain values: for each permission that
/// was ever set, whether it is granted, and the role the facet was made for.
pub struct PermissionView {
    pub table: Map<Seq<char>, bool>,
    pub role: Seq<char>,
}

/// One line of the table.
#[derive(Debug)]
struct Grant {
    name: String,
    allowed: bool,
}

/// The permissions of one role.
#[derive(Debug)]
pub struct PermissionFacet {
    permissions: Vec<Grant>,
    role: String,
}

/// The table that a role starts with. A role that is not known starts with
/// an empty table.
pub open spec fn role_permissions(role: Seq<char>) -> Map<Seq<char>, bool> {
    if role == "admin"@ {
        Map::<Seq<char>, bool>::empty().insert("read"@, true).insert("write"@, true).insert(
            "delete"@,
            true,
        ).insert("financial_operations"@, true)
    } else if role == "manager"@ {
        Map::<Seq<char>, bool>::empty().insert("read"@, true).insert("write"@, true).insert(
            "financial_operations"@,
            true,
        )
    } else if role == "employee"@ {
        Map::<Seq<char>, bool>::empty().insert("read"@, true)
    } else {
        Map::<Seq<char>, bool>::empty()
    }
}

/// Whether `table` grants the permission `name`: it was set, and set to true.
pub open spec fn grants(table: Map<Seq<char>, bool>, name: Seq<char>) -> bool {
    table.dom().contains(name) && table[name]
}

spec fn name_key() -> spec_fn(Grant) -> Seq<char> {
    |grant: Grant| grant.name@
}

spec fn table_of(entries: Seq<Grant>) -> Map<Seq<char>, bool> {
    keyed(entries, name_key()).map_values(|grant: Grant| grant.allowed)
}

fn find(entries: &Vec<Grant>, name: &String) -> (found: Option<usize>)
    ensures
        match found {
            Some(i) => i < entries.len() && entries[i as int].name@ == name@,
            None => forall|i: int| 0 <= i < entries.len() ==> entries[i].name@ != name@,
        },
{
    let mut i: usize = 0;
    while i < entries.len()
        invariant
            i <= entries.len(),
            forall|k: int| 0 <= k < i ==> entries[k].name@ != name@,
        decreases entries.len() - i,
    {
        if entries[i].name == *name {
            return Some(i);
        }
        i = i + 1;
    }
    None
}

impl View for PermissionFacet {
    type V = PermissionView;

    closed spec fn view(&self) -> PermissionView {
        PermissionView { table: table_of(self.permissions@), role: self.role@ }
    }
}

impl PermissionFacet {
    /// No permission stands twice in the table.
    #[verifier::type_invariant]
    spec fn each_name_once(&self) -> bool {
        distinct_keys(self.permissions@, name_key())
    }

    /// The facet of `role`, with the permissions that the role starts with.
    pub fn new(role: &str) -> (facet: Self)
        ensures
            facet@.role == role@,
            facet@.table == role_permissions(role@),
    {
        let name = role.to_owned();
        let mut facet = Self { permissions: Vec::new(), role: role.to_owned() };
        if name == "admin".to_owned() {
            facet.set("read", true);
            facet.set("write", true);
            facet.set("delete", true);
            facet.set("financial_operations", true);
        } else if name == "manager".to_owned() {
            facet.set("read", true);
            facet.set("write", true);
            facet.set("financial_operations", true);
        } else if name == "employee".to_owned() {
            facet.set("read", true);
        }
        facet
    }

    fn set(&mut self, permission: &str, allowed: bool)
        ensures
            final(self)@.role == old(self)@.role,
            final(self)@.table == old(self)@.table.insert(permission@, allowed),
    {
        proof {
            use_type_invariant(&*self);
        }
        let name = permission.to_owned();
        let mut entries: Vec<Grant> = Vec::new();
        std::mem::swap(&mut entries, &mut self.permissions);
        let ghost before = entries@;
        match find(&entries, &name) {
            Some(i) => {
                entries[i].allowed = allowed;
                proof {
                    lemma_keyed_update(before, name_key(), i as int, entries@[i as int]);
                }
            },
            None => {
                let grant = Grant { name, allowed };
                proof {
                    lemma_keyed_push(before, name_key(), grant);
                    assert(table_of(before.push(grant)) =~= table_of(before).insert(
                        name@,
                        allowed,
                    ));
                }
                entries.push(grant);
            },
        }
        self.permissions = entries;
    }

    /// Whether the permission is granted. One that was never set is not.
    pub fn has_permission(&self, permission: &str) -> (granted: bool)
        ensures
            granted == grants(self@.table, permission@),
    {
        proof {
            use_type_invariant(self);
        }
        let name = permission.to_owned();
        match find(&self.permissions, &name) {
            Some(i) => {
                proof {
                    lemma_keyed_present(self.permissions@, name_key(), i as int);
                }
                self.permissions[i].allowed
            },
            None => {
                proof {
                    lemma_keyed_absent(self.permissions@, name_key(), name@);
                }
                false
            },
        }
    }

    /// Grants the permission, whether or not it was set before.
    pub fn grant_permission(&mut self, permission: &str)
        ensures
            final(self)@.role == old(self)@.role,
            final(self)@.table == old(self)@.table.insert(permission@, true),
    {
        self.set(permission, true);
    }

    /// Withdraws the permission: it stays in the table, as not granted.
    pub fn revoke_permission(&mut self, permission: &str)
        ensures
            final(self)@.role == old(self)@.role,
            final(self)@.table == old(self)@.table.insert(permission@, false),
    {
        self.set(permission, false);
    }

    /// The role the facet was made for.
    pub fn get_role(&self) -> (role: &str)
        ensures
            role@ == self@.role,
    {
        self.role.as_str()
    }
}

} // verus!
