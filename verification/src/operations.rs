//! Operations that work across the facets of an employee object: the
//! guarded financial operation and the summary.

use vstd::prelude::*;
use vstd::string::*;
use crate::account::AccountFacet;
use crate::audit::recent;
use crate::audit::AuditEntry;
use crate::audit::AuditFacet;
use crate::audit::AuditRecord;
use crate::audit::records_of;
use crate::employee::Employee;
use crate::error::FacetError;
use crate::error::LedgerError;
use crate::error::OperationError;
use crate::object::FacetedObject;
use crate::object::ObjectView;
use crate::payload::Payload;
use crate::payload::TypeTag;
use crate::permission::grants;
use crate::permission::PermissionFacet;
use crate::text::append_decimal;
use crate::text::append_signed_decimal;
use crate::text::decimal;
use crate::text::signed_decimal;

verus! {

/// Whether the object may perform financial operations: a permission facet
/// is attached and grants them. Without the facet the answer is no.
pub open spec fn authorized(object: ObjectView) -> bool {
    object.facet::<PermissionFacet>() matches Some(permissions) && grants(
        permissions@.table,
        "financial_operations"@,
    )
}

/// The name under which an operation on the object is reported: that of the
/// employee at its core, or "Unknown" where the core is no employee.
pub open spec fn employee_name(object: ObjectView) -> Seq<char> {
    match Employee::held(object.core) {
        Some(employee) => employee.name@,
        None => "Unknown"@,
    }
}

/// What is recorded about an operation that left `balance`.
pub open spec fn balance_text(balance: int) -> Seq<char> {
    "New balance: "@ + signed_decimal(balance)
}

/// What a completed operation reports.
pub open spec fn completion_text(name: Seq<char>, balance: int) -> Seq<char> {
    "Financial operation completed for "@ + name + ". "@ + balance_text(balance)
}

/// `after` is `before` with one more entry at the end of its audit trail,
/// for `operation` with `details` and no older than the entry before it. An
/// object without an audit facet stays as it is.
pub open spec fn recorded(
    before: ObjectView,
    after: ObjectView,
    operation: Seq<char>,
    details: Seq<char>,
) -> bool {
    match before.facet::<AuditFacet>() {
        None => after == before,
        Some(trail) => exists|extended: AuditFacet|
            {
                &&& after == before.with_slot(#[trigger] extended.erased())
                &&& extended@ == trail@.push(extended@.last())
                &&& extended@.last().operation == operation
                &&& extended@.last().details == details
                &&& trail@.len() > 0 ==> extended@.last().timestamp >= trail@.last().timestamp
            },
    }
}

/// How a guarded operation ends once the mutation has run on the account
/// facet, left it as `account` and returned `outcome`. The account facet is
/// written in either case. A failed mutation is reported and nothing is
/// recorded; a successful one is recorded in the audit trail, if there is
/// one, and reported with the new balance.
pub open spec fn completes(
    before: ObjectView,
    account: AccountFacet,
    outcome: Result<i64, LedgerError>,
    result: Result<String, OperationError>,
    after: ObjectView,
) -> bool {
    let executed = before.with_slot(account.erased());
    match outcome {
        Err(error) => result == Err::<String, OperationError>(OperationError::Domain(error))
            && after == executed,
        Ok(balance) => {
            &&& result matches Ok(text) && text@ == completion_text(
                employee_name(before),
                balance as int,
            )
            &&& recorded(executed, after, "financial_operation"@, balance_text(balance as int))
        },
    }
}

/// The lines of the summary that tell of the core: the employee's name,
/// identifier and department, or nothing where the core is no employee.
pub open spec fn core_lines(core: Option<Employee>) -> Seq<char> {
    match core {
        Some(employee) => "Employee: "@ + employee.name@ + " (ID: "@ + employee.id@ + ")\n"@
            + "Department: "@ + employee.department@ + "\n"@,
        None => Seq::<char>::empty(),
    }
}

/// The line of the summary that tells of the account: its number and its
/// balance with two decimal places, or that there is none.
pub open spec fn account_line(account: Option<AccountFacet>) -> Seq<char> {
    match account {
        Some(account) => "Account: "@ + account@.account_number + " (Balance: $"@ + decimal(
            account@.balance as nat,
        ) + ".00)\n"@,
        None => "No account information\n"@,
    }
}

/// The line of the summary that tells of the permissions: the role, or that
/// there are none.
pub open spec fn permission_line(permissions: Option<PermissionFacet>) -> Seq<char> {
    match permissions {
        Some(permissions) => "Role: "@ + permissions@.role + "\n"@,
        None => "No permission information\n"@,
    }
}

/// The line of the summary for one entry of the audit trail.
pub open spec fn entry_line(record: AuditRecord) -> Seq<char> {
    "  - "@ + decimal(record.timestamp as nat) + ": "@ + record.operation + " ("@
        + record.details + ")\n"@
}

/// The lines for the given entries, one after the other.
pub open spec fn entry_lines(records: Seq<AuditRecord>) -> Seq<char>
    decreases records.len(),
{
    if records.len() == 0 {
        Seq::<char>::empty()
    } else {
        entry_lines(records.drop_last()) + entry_line(records.last())
    }
}

/// The lines of the summary that tell of the audit trail: its last three
/// entries under a heading, or that it is empty, or that there is none.
pub open spec fn audit_lines(audit: Option<AuditFacet>) -> Seq<char> {
    match audit {
        Some(audit) => if audit@.len() > 0 {
            "Recent Activity:\n"@ + entry_lines(recent(audit@, 3))
        } else {
            "No recent activity\n"@
        },
        None => "No audit information\n"@,
    }
}

/// The summary of an object: what its core and each of the three facets
/// contribute, in this order. A facet that is not attached contributes a
/// fixed line.
pub open spec fn summary_text(object: ObjectView) -> Seq<char> {
    core_lines(Employee::held(object.core)) + account_line(object.facet::<AccountFacet>())
        + permission_line(object.facet::<PermissionFacet>()) + audit_lines(
        object.facet::<AuditFacet>(),
    )
}

fn render_account(account: &AccountFacet) -> (line: String)
    ensures
        line@ == account_line(Some(*account)),
{
    let mut line = "Account: ".to_owned();
    line.append(account.get_account_number());
    line.append(" (Balance: $");
    append_decimal(&mut line, account.get_balance() as u128);
    line.append(".00)\n");
    line
}

fn render_permissions(permissions: &PermissionFacet) -> (line: String)
    ensures
        line@ == permission_line(Some(*permissions)),
{
    let mut line = "Role: ".to_owned();
    line.append(permissions.get_role());
    line.append("\n");
    line
}

fn render_audit(audit: &AuditFacet) -> (lines: String)
    ensures
        lines@ == audit_lines(Some(*audit)),
{
    let entries = audit.get_recent_entries(3);
    if entries.len() == 0 {
        return "No recent activity\n".to_owned();
    }
    let ghost records = records_of(entries@);
    let mut lines = "Recent Activity:\n".to_owned();
    let mut i: usize = 0;
    while i < entries.len()
        invariant
            i <= entries.len(),
            records == records_of(entries@),
            lines@ == "Recent Activity:\n"@ + entry_lines(records.take(i as int)),
        decreases entries.len() - i,
    {
        let entry: &AuditEntry = &entries[i];
        lines.append("  - ");
        append_decimal(&mut lines, entry.timestamp());
        lines.append(": ");
        lines.append(entry.operation());
        lines.append(" (");
        lines.append(entry.details());
        lines.append(")\n");
        assert(records.take(i + 1).drop_last() =~= records.take(i as int));
        i = i + 1;
    }
    assert(records.take(i as int) =~= records);
    lines
}

/// Appends an entry for `operation` with `details` to the audit trail of
/// the object, if it has one, and says whether it did. An object without an
/// audit facet is left as it is: that is no failure.
pub fn record_best_effort(
    object: &mut FacetedObject,
    operation: &str,
    details: &str,
) -> (done: bool)
    ensures
        done == old(object)@.has(TypeTag::Audit),
        recorded(old(object)@, final(object)@, operation@, details@),
{
    let attempt = object.with_facet_mut::<AuditFacet, ()>(
        |audit: &mut AuditFacet|
            ensures
                final(audit)@ == old(audit)@.push(final(audit)@.last()),
                final(audit)@.last().operation == operation@,
                final(audit)@.last().details == details@,
                old(audit)@.len() > 0
                    ==> old(audit)@.last().timestamp <= final(audit)@.last().timestamp,
            { audit.log_operation(operation, details) }
    );
    proof {
        old(object).lemma_view_well_formed();
        if old(object)@.has(TypeTag::Audit) {
            AuditFacet::lemma_held(old(object)@.facets[TypeTag::Audit]);
        }
    }
    match attempt {
        Ok(_) => true,
        Err(_) => false,
    }
}

/// Composite operations on an employee object.
pub struct EmployeeOperations;

impl EmployeeOperations {
    /// Runs `operation` on the account facet of the object, under guard.
    ///
    /// First the permission facet must grant financial operations; without
    /// that, or without the facet, the call is denied and nothing is
    /// touched. Then `operation` runs on the account facet; where there is
    /// none, or `operation` fails, the call fails with that error. Last, a
    /// success is recorded in the audit trail, if the object has one.
    pub fn perform_financial_operation<F>(
        employee_obj: &mut FacetedObject,
        operation: F,
    ) -> (result: Result<String, OperationError>) where
        F: FnMut(&mut AccountFacet) -> Result<i64, LedgerError>,

        requires
            authorized(old(employee_obj)@) ==> forall|account: &mut AccountFacet|
                old(employee_obj)@.facet::<AccountFacet>() == Some(*account) ==> call_requires(
                    operation,
                    (account,),
                ),
        ensures
            !authorized(old(employee_obj)@) ==> {
                &&& result == Err::<String, OperationError>(OperationError::AuthorizationDenied)
                &&& final(employee_obj)@ == old(employee_obj)@
            },
            authorized(old(employee_obj)@) && !old(employee_obj)@.has(TypeTag::Account) ==> {
                &&& result == Err::<String, OperationError>(
                    OperationError::Registry(FacetError::FacetNotFound(TypeTag::Account)),
                )
                &&& final(employee_obj)@ == old(employee_obj)@
            },
            authorized(old(employee_obj)@) && old(employee_obj)@.has(TypeTag::Account)
                ==> exists|account: &mut AccountFacet, outcome: Result<i64, LedgerError>|
                {
                    &&& old(employee_obj)@.facet::<AccountFacet>() == Some(*account)
                    &&& call_ensures(operation, (account,), outcome)
                    &&& completes(
                        old(employee_obj)@,
                        *final(account),
                        outcome,
                        result,
                        final(employee_obj)@,
                    )
                },
    {
        let ghost before = employee_obj@;
        proof {
            employee_obj.lemma_view_well_formed();
            if before.has(TypeTag::Account) {
                AccountFacet::lemma_held(before.facets[TypeTag::Account]);
            }
        }
        let has_permission = match employee_obj.with_facet::<PermissionFacet, bool>(
            |permissions: &PermissionFacet| -> (granted: bool)
                ensures
                    granted == grants(permissions@.table, "financial_operations"@),
                { permissions.has_permission("financial_operations") }
        ) {
            Ok(granted) => granted,
            Err(_) => false,
        };
        if !has_permission {
            return Err(OperationError::AuthorizationDenied);
        }
        let employee_name = match employee_obj.get_core::<Employee>() {
            Some(employee) => employee.name.clone(),
            None => "Unknown".to_owned(),
        };
        let outcome = match employee_obj.with_facet_mut::<AccountFacet, Result<i64, LedgerError>>(
            operation,
        ) {
            Ok(outcome) => outcome,
            Err(error) => {
                return Err(OperationError::Registry(error));
            },
        };
        let ghost account = choose|account: &mut AccountFacet|
            before.facet::<AccountFacet>() == Some(*account) && call_ensures(
                operation,
                (account,),
                outcome,
            ) && employee_obj@ == before.with_slot((*final(account)).erased());
        let balance = match outcome {
            Ok(balance) => balance,
            Err(error) => {
                let result = Err(OperationError::Domain(error));
                assert(completes(before, *final(account), outcome, result, employee_obj@));
                return result;
            },
        };
        let mut details = "New balance: ".to_owned();
        append_signed_decimal(&mut details, balance);
        record_best_effort(employee_obj, "financial_operation", details.as_str());
        let mut text = "Financial operation completed for ".to_owned();
        text.append(employee_name.as_str());
        text.append(". ");
        text.append(details.as_str());
        let result = Ok(text);
        proof {
            assert(completes(before, *final(account), outcome, result, employee_obj@));
        }
        result
    }

    /// The summary of the object as text: the employee at its core, then the
    /// account, the role and the recent activity, each as far as the facet
    /// is attached. A missing facet gives a fixed line, never an error.
    pub fn get_employee_summary(employee_obj: &FacetedObject) -> (summary: String)
        ensures
            summary@ == summary_text(employee_obj@),
    {
        let mut summary = String::new();
        match employee_obj.get_core::<Employee>() {
            Some(employee) => {
                summary.append("Employee: ");
                summary.append(employee.name.as_str());
                summary.append(" (ID: ");
                summary.append(employee.id.as_str());
                summary.append(")\n");
                summary.append("Department: ");
                summary.append(employee.department.as_str());
                summary.append("\n");
            },
            None => {},
        }
        let account_info = match employee_obj.with_facet::<AccountFacet, String>(render_account) {
            Ok(line) => line,
            Err(_) => "No account information\n".to_owned(),
        };
        summary.append(account_info.as_str());
        let permission_info = match employee_obj.with_facet::<PermissionFacet, String>(
            render_permissions,
        ) {
            Ok(line) => line,
            Err(_) => "No permission information\n".to_owned(),
        };
        summary.append(permission_info.as_str());
        let audit_info = match employee_obj.with_facet::<AuditFacet, String>(render_audit) {
            Ok(lines) => lines,
            Err(_) => "No audit information\n".to_owned(),
        };
        summary.append(audit_info.as_str());
        summary
    }
}

} // verus!
