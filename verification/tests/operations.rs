use facets::operations::record_best_effort;
use facets::text::append_decimal;
use facets::text::append_signed_decimal;
use facets::AccountFacet;
use facets::AuditFacet;
use facets::Employee;
use facets::EmployeeOperations;
use facets::FacetError;
use facets::FacetedObject;
use facets::LedgerError;
use facets::OperationError;
use facets::PermissionFacet;
use facets::TypeTag;

fn employee_object(role: &str) -> FacetedObject {
    let mut object = FacetedObject::new(Employee::new("Alice Johnson", "EMP001", "Engineering"));
    object.attach_facet(AccountFacet::new("ACC001")).unwrap();
    object.attach_facet(PermissionFacet::new(role)).unwrap();
    object.attach_facet(AuditFacet::new()).unwrap();
    object
}

fn balance_of(object: &FacetedObject) -> i64 {
    object.with_facet::<AccountFacet, i64>(|account| account.get_balance()).unwrap()
}

fn trail_of(object: &FacetedObject) -> Vec<(String, String)> {
    object
        .with_facet::<AuditFacet, Vec<(String, String)>>(|audit| {
            audit
                .get_audit_trail()
                .iter()
                .map(|entry| (entry.operation().to_string(), entry.details().to_string()))
                .collect()
        })
        .unwrap()
}

#[test]
fn employee_role_is_denied_and_nothing_is_touched() {
    let mut object = employee_object("employee");
    let before = EmployeeOperations::get_employee_summary(&object);
    let mut called = false;
    let result = EmployeeOperations::perform_financial_operation(&mut object, |account| {
        called = true;
        account.deposit(1000)
    });
    assert_eq!(result, Err(OperationError::AuthorizationDenied));
    assert!(!called);
    assert_eq!(balance_of(&object), 0);
    assert!(trail_of(&object).is_empty());
    assert_eq!(EmployeeOperations::get_employee_summary(&object), before);
}

#[test]
fn missing_permission_facet_is_denied() {
    let mut object = FacetedObject::new(Employee::new("Alice Johnson", "EMP001", "Engineering"));
    object.attach_facet(AccountFacet::new("ACC001")).unwrap();
    object.attach_facet(AuditFacet::new()).unwrap();
    let result =
        EmployeeOperations::perform_financial_operation(&mut object, |account| account.deposit(1));
    assert_eq!(result, Err(OperationError::AuthorizationDenied));
    assert_eq!(balance_of(&object), 0);
    assert!(trail_of(&object).is_empty());
}

#[test]
fn revoked_permission_is_denied() {
    let mut object = employee_object("admin");
    object
        .with_facet_mut::<PermissionFacet, ()>(|p| p.revoke_permission("financial_operations"))
        .unwrap();
    let result =
        EmployeeOperations::perform_financial_operation(&mut object, |account| account.deposit(1));
    assert_eq!(result, Err(OperationError::AuthorizationDenied));
    assert_eq!(balance_of(&object), 0);
}

#[test]
fn manager_deposits_and_withdraws() {
    let mut object = employee_object("manager");
    let deposit =
        EmployeeOperations::perform_financial_operation(&mut object, |account| account.deposit(1000));
    assert_eq!(
        deposit,
        Ok("Financial operation completed for Alice Johnson. New balance: 1000".to_string())
    );
    let withdrawal =
        EmployeeOperations::perform_financial_operation(&mut object, |account| account.withdraw(250));
    assert_eq!(
        withdrawal,
        Ok("Financial operation completed for Alice Johnson. New balance: 750".to_string())
    );
    assert_eq!(balance_of(&object), 750);
    assert_eq!(
        trail_of(&object),
        vec![
            ("financial_operation".to_string(), "New balance: 1000".to_string()),
            ("financial_operation".to_string(), "New balance: 750".to_string()),
        ]
    );
    let stamps = object
        .with_facet::<AuditFacet, Vec<u128>>(|audit| {
            audit.get_audit_trail().iter().map(|entry| entry.timestamp()).collect()
        })
        .unwrap();
    assert!(stamps[0] <= stamps[1]);
}

#[test]
fn granted_permission_is_enough() {
    let mut object = employee_object("employee");
    object
        .with_facet_mut::<PermissionFacet, ()>(|p| p.grant_permission("financial_operations"))
        .unwrap();
    let result =
        EmployeeOperations::perform_financial_operation(&mut object, |account| account.deposit(7));
    assert_eq!(
        result,
        Ok("Financial operation completed for Alice Johnson. New balance: 7".to_string())
    );
}

#[test]
fn result_is_the_same_without_an_audit_facet() {
    let mut logged = employee_object("manager");
    let mut silent = FacetedObject::new(Employee::new("Alice Johnson", "EMP001", "Engineering"));
    silent.attach_facet(AccountFacet::new("ACC001")).unwrap();
    silent.attach_facet(PermissionFacet::new("manager")).unwrap();

    let with_log =
        EmployeeOperations::perform_financial_operation(&mut logged, |account| account.deposit(1000));
    let without_log =
        EmployeeOperations::perform_financial_operation(&mut silent, |account| account.deposit(1000));
    assert_eq!(with_log, without_log);
    assert_eq!(balance_of(&logged), balance_of(&silent));
    assert!(!silent.has_facet::<AuditFacet>());

    let with_log =
        EmployeeOperations::perform_financial_operation(&mut logged, |account| account.withdraw(5000));
    let without_log =
        EmployeeOperations::perform_financial_operation(&mut silent, |account| account.withdraw(5000));
    assert_eq!(with_log, Err(OperationError::Domain(LedgerError::InsufficientFunds)));
    assert_eq!(with_log, without_log);
    assert_eq!(balance_of(&logged), 1000);
    assert_eq!(balance_of(&silent), 1000);
}

#[test]
fn missing_account_facet_is_reported() {
    let mut object = FacetedObject::new(Employee::new("Alice Johnson", "EMP001", "Engineering"));
    object.attach_facet(PermissionFacet::new("manager")).unwrap();
    object.attach_facet(AuditFacet::new()).unwrap();
    let mut called = false;
    let result = EmployeeOperations::perform_financial_operation(&mut object, |account| {
        called = true;
        account.deposit(1)
    });
    assert_eq!(
        result,
        Err(OperationError::Registry(FacetError::FacetNotFound(TypeTag::Account)))
    );
    assert!(!called);
    assert!(trail_of(&object).is_empty());
}

#[test]
fn failed_mutation_is_reported_and_not_recorded() {
    let mut object = employee_object("manager");
    let result =
        EmployeeOperations::perform_financial_operation(&mut object, |account| account.withdraw(250));
    assert_eq!(result, Err(OperationError::Domain(LedgerError::InsufficientFunds)));
    let result =
        EmployeeOperations::perform_financial_operation(&mut object, |account| account.deposit(0));
    assert_eq!(result, Err(OperationError::Domain(LedgerError::NonPositiveDeposit)));
    let result =
        EmployeeOperations::perform_financial_operation(&mut object, |account| account.withdraw(-1));
    assert_eq!(result, Err(OperationError::Domain(LedgerError::NonPositiveWithdrawal)));
    assert_eq!(balance_of(&object), 0);
    assert!(trail_of(&object).is_empty());
}

#[test]
fn mutation_that_fails_late_keeps_what_it_wrote() {
    let mut object = employee_object("manager");
    let result = EmployeeOperations::perform_financial_operation(&mut object, |account| {
        account.deposit(10)?;
        account.withdraw(100)
    });
    assert_eq!(result, Err(OperationError::Domain(LedgerError::InsufficientFunds)));
    assert_eq!(balance_of(&object), 10);
    assert!(trail_of(&object).is_empty());
}

#[test]
fn operation_on_another_core_is_reported_as_unknown() {
    let mut object = FacetedObject::new(AuditFacet::new());
    object.attach_facet(AccountFacet::new("ACC001")).unwrap();
    object.attach_facet(PermissionFacet::new("admin")).unwrap();
    let result =
        EmployeeOperations::perform_financial_operation(&mut object, |account| account.deposit(12));
    assert_eq!(
        result,
        Ok("Financial operation completed for Unknown. New balance: 12".to_string())
    );
}

#[test]
fn reported_balance_is_what_the_mutation_returned() {
    let mut object = employee_object("manager");
    let result = EmployeeOperations::perform_financial_operation(&mut object, |_| Ok(-42));
    assert_eq!(
        result,
        Ok("Financial operation completed for Alice Johnson. New balance: -42".to_string())
    );
    assert_eq!(
        trail_of(&object),
        vec![("financial_operation".to_string(), "New balance: -42".to_string())]
    );
    assert_eq!(balance_of(&object), 0);
}

#[test]
fn operation_errors_have_messages() {
    assert_eq!(
        OperationError::AuthorizationDenied.message(),
        "Access denied: insufficient permissions for financial operations"
    );
    assert_eq!(
        OperationError::Registry(FacetError::FacetNotFound(TypeTag::Account)).message(),
        "Required facet not found: AccountFacet"
    );
    assert_eq!(
        OperationError::Domain(LedgerError::InsufficientFunds).message(),
        "Insufficient funds"
    );
}

#[test]
fn recording_is_best_effort() {
    let mut silent = FacetedObject::new(Employee::new("Alice Johnson", "EMP001", "Engineering"));
    assert!(!record_best_effort(&mut silent, "financial_operation", "New balance: 1"));
    assert!(!silent.has_facet::<AuditFacet>());

    let mut logged = employee_object("manager");
    assert!(record_best_effort(&mut logged, "financial_operation", "New balance: 1"));
    assert_eq!(
        trail_of(&logged),
        vec![("financial_operation".to_string(), "New balance: 1".to_string())]
    );
}

#[test]
fn summary_of_a_bare_object() {
    let object = FacetedObject::new(Employee::new("Alice Johnson", "EMP001", "Engineering"));
    assert_eq!(
        EmployeeOperations::get_employee_summary(&object),
        "Employee: Alice Johnson (ID: EMP001)\n\
         Department: Engineering\n\
         No account information\n\
         No permission information\n\
         No audit information\n"
    );
}

#[test]
fn summary_of_an_object_with_another_core() {
    let object = FacetedObject::new(AccountFacet::new("CORE"));
    assert_eq!(
        EmployeeOperations::get_employee_summary(&object),
        "No account information\nNo permission information\nNo audit information\n"
    );
}

#[test]
fn summary_with_fresh_facets() {
    let object = employee_object("manager");
    assert_eq!(
        EmployeeOperations::get_employee_summary(&object),
        "Employee: Alice Johnson (ID: EMP001)\n\
         Department: Engineering\n\
         Account: ACC001 (Balance: $0.00)\n\
         Role: manager\n\
         No recent activity\n"
    );
}

#[test]
fn summary_shows_the_last_three_entries() {
    let mut object = FacetedObject::new(Employee::new("Alice Johnson", "EMP001", "Engineering"));
    let mut account = AccountFacet::new("ACC001");
    account.deposit(750).unwrap();
    object.attach_facet(account).unwrap();
    object.attach_facet(PermissionFacet::new("admin")).unwrap();
    let mut audit = AuditFacet::new();
    audit.log_operation_at(1, "opened", "ACC001");
    audit.log_operation_at(20, "financial_operation", "New balance: 1000");
    audit.log_operation_at(300, "financial_operation", "New balance: 750");
    audit.log_operation_at(4000, "reviewed", "");
    object.attach_facet(audit).unwrap();
    assert_eq!(
        EmployeeOperations::get_employee_summary(&object),
        "Employee: Alice Johnson (ID: EMP001)\n\
         Department: Engineering\n\
         Account: ACC001 (Balance: $750.00)\n\
         Role: admin\n\
         Recent Activity:\n\
         \x20 - 20: financial_operation (New balance: 1000)\n\
         \x20 - 300: financial_operation (New balance: 750)\n\
         \x20 - 4000: reviewed ()\n"
    );
}

#[test]
fn summary_with_fewer_than_three_entries() {
    let mut object = FacetedObject::new(Employee::new("Bob", "EMP002", "Sales"));
    let mut audit = AuditFacet::new();
    audit.log_operation_at(12345678901234567890, "opened", "by hand");
    object.attach_facet(audit).unwrap();
    assert_eq!(
        EmployeeOperations::get_employee_summary(&object),
        "Employee: Bob (ID: EMP002)\n\
         Department: Sales\n\
         No account information\n\
         No permission information\n\
         Recent Activity:\n\
         \x20 - 12345678901234567890: opened (by hand)\n"
    );
}

#[test]
fn decimal_text_of_unsigned_numbers() {
    let render = |n: u128| -> String {
        let mut out = String::from("n=");
        append_decimal(&mut out, n);
        out
    };
    assert_eq!(render(0), "n=0");
    assert_eq!(render(7), "n=7");
    assert_eq!(render(10), "n=10");
    assert_eq!(render(1234567890), "n=1234567890");
    assert_eq!(render(u128::MAX), "n=340282366920938463463374607431768211455");
}

#[test]
fn decimal_text_of_signed_numbers() {
    let render = |n: i64| -> String {
        let mut out = String::new();
        append_signed_decimal(&mut out, n);
        out
    };
    assert_eq!(render(0), "0");
    assert_eq!(render(750), "750");
    assert_eq!(render(-1), "-1");
    assert_eq!(render(-1000), "-1000");
    assert_eq!(render(i64::MAX), "9223372036854775807");
    assert_eq!(render(i64::MIN), "-9223372036854775808");
}
