use facets::AccountFacet;
use facets::AuditFacet;
use facets::Employee;
use facets::LedgerError;
use facets::PermissionFacet;

#[test]
fn employee_keeps_its_fields() {
    let employee = Employee::new("Alice Johnson", "EMP001", "Engineering");
    assert_eq!(employee.name, "Alice Johnson");
    assert_eq!(employee.id, "EMP001");
    assert_eq!(employee.department, "Engineering");
}

#[test]
fn new_account_is_empty() {
    let account = AccountFacet::new("ACC001");
    assert_eq!(account.get_balance(), 0);
    assert_eq!(account.get_account_number(), "ACC001");
}

#[test]
fn deposit_adds_to_the_balance() {
    let mut account = AccountFacet::new("ACC001");
    assert_eq!(account.deposit(1000), Ok(1000));
    assert_eq!(account.deposit(1), Ok(1001));
    assert_eq!(account.get_balance(), 1001);
}

#[test]
fn deposit_must_be_positive() {
    let mut account = AccountFacet::new("ACC001");
    account.deposit(10).unwrap();
    assert_eq!(account.deposit(0), Err(LedgerError::NonPositiveDeposit));
    assert_eq!(account.deposit(-5), Err(LedgerError::NonPositiveDeposit));
    assert_eq!(account.deposit(i64::MIN), Err(LedgerError::NonPositiveDeposit));
    assert_eq!(account.get_balance(), 10);
}

#[test]
fn deposit_stops_at_the_largest_balance() {
    let mut account = AccountFacet::new("ACC001");
    assert_eq!(account.deposit(i64::MAX - 1), Ok(i64::MAX - 1));
    assert_eq!(account.deposit(2), Err(LedgerError::LimitExceeded));
    assert_eq!(account.get_balance(), i64::MAX - 1);
    assert_eq!(account.deposit(1), Ok(i64::MAX));
    assert_eq!(account.deposit(1), Err(LedgerError::LimitExceeded));
    assert_eq!(account.deposit(i64::MAX), Err(LedgerError::LimitExceeded));
    assert_eq!(account.get_balance(), i64::MAX);
}

#[test]
fn withdraw_takes_from_the_balance() {
    let mut account = AccountFacet::new("ACC001");
    account.deposit(1000).unwrap();
    assert_eq!(account.withdraw(250), Ok(750));
    assert_eq!(account.get_balance(), 750);
    assert_eq!(account.withdraw(750), Ok(0));
    assert_eq!(account.get_balance(), 0);
}

#[test]
fn withdraw_must_be_positive_and_covered() {
    let mut account = AccountFacet::new("ACC001");
    account.deposit(100).unwrap();
    assert_eq!(account.withdraw(0), Err(LedgerError::NonPositiveWithdrawal));
    assert_eq!(account.withdraw(-1), Err(LedgerError::NonPositiveWithdrawal));
    assert_eq!(account.withdraw(101), Err(LedgerError::InsufficientFunds));
    assert_eq!(account.withdraw(i64::MAX), Err(LedgerError::InsufficientFunds));
    assert_eq!(account.get_balance(), 100);

    let mut empty = AccountFacet::new("ACC002");
    assert_eq!(empty.withdraw(1), Err(LedgerError::InsufficientFunds));
    assert_eq!(empty.get_balance(), 0);
}

#[test]
fn ledger_errors_have_messages() {
    assert_eq!(LedgerError::NonPositiveDeposit.message(), "Deposit amount must be positive");
    assert_eq!(LedgerError::NonPositiveWithdrawal.message(), "Withdrawal amount must be positive");
    assert_eq!(LedgerError::InsufficientFunds.message(), "Insufficient funds");
    assert_eq!(LedgerError::LimitExceeded.message(), "Balance limit exceeded");
}

#[test]
fn admin_role_has_every_permission() {
    let facet = PermissionFacet::new("admin");
    assert_eq!(facet.get_role(), "admin");
    assert!(facet.has_permission("read"));
    assert!(facet.has_permission("write"));
    assert!(facet.has_permission("delete"));
    assert!(facet.has_permission("financial_operations"));
    assert!(!facet.has_permission("audit"));
}

#[test]
fn manager_role_cannot_delete() {
    let facet = PermissionFacet::new("manager");
    assert_eq!(facet.get_role(), "manager");
    assert!(facet.has_permission("read"));
    assert!(facet.has_permission("write"));
    assert!(!facet.has_permission("delete"));
    assert!(facet.has_permission("financial_operations"));
}

#[test]
fn employee_role_can_only_read() {
    let facet = PermissionFacet::new("employee");
    assert_eq!(facet.get_role(), "employee");
    assert!(facet.has_permission("read"));
    assert!(!facet.has_permission("write"));
    assert!(!facet.has_permission("delete"));
    assert!(!facet.has_permission("financial_operations"));
}

#[test]
fn unknown_role_has_no_permission() {
    for role in ["guest", "", "Admin", "administrator", "employees"] {
        let facet = PermissionFacet::new(role);
        assert_eq!(facet.get_role(), role);
        assert!(!facet.has_permission("read"));
        assert!(!facet.has_permission("write"));
        assert!(!facet.has_permission("delete"));
        assert!(!facet.has_permission("financial_operations"));
    }
}

#[test]
fn permissions_are_granted_and_revoked() {
    let mut facet = PermissionFacet::new("employee");
    facet.grant_permission("financial_operations");
    assert!(facet.has_permission("financial_operations"));
    assert!(facet.has_permission("read"));

    facet.revoke_permission("read");
    assert!(!facet.has_permission("read"));
    assert!(facet.has_permission("financial_operations"));

    facet.grant_permission("read");
    assert!(facet.has_permission("read"));

    facet.revoke_permission("never_set");
    assert!(!facet.has_permission("never_set"));
    facet.grant_permission("never_set");
    assert!(facet.has_permission("never_set"));
    facet.grant_permission("never_set");
    assert!(facet.has_permission("never_set"));
    assert_eq!(facet.get_role(), "employee");
}

#[test]
fn permission_names_are_compared_exactly() {
    let mut facet = PermissionFacet::new("guest");
    facet.grant_permission("read");
    assert!(facet.has_permission("read"));
    assert!(!facet.has_permission("Read"));
    assert!(!facet.has_permission("read "));
    assert!(!facet.has_permission("rea"));
    assert!(!facet.has_permission(""));
}

#[test]
fn new_trail_is_empty() {
    let audit = AuditFacet::new();
    assert!(audit.get_audit_trail().is_empty());
    assert!(audit.get_recent_entries(3).is_empty());
    assert!(audit.get_recent_entries(0).is_empty());
}

#[test]
fn entries_are_appended_in_order() {
    let mut audit = AuditFacet::new();
    audit.log_operation_at(10, "open", "first");
    audit.log_operation_at(20, "deposit", "second");
    audit.log_operation_at(30, "close", "third");
    let trail = audit.get_audit_trail();
    assert_eq!(trail.len(), 3);
    assert_eq!(trail[0].timestamp(), 10);
    assert_eq!(trail[0].operation(), "open");
    assert_eq!(trail[0].details(), "first");
    assert_eq!(trail[1].timestamp(), 20);
    assert_eq!(trail[1].operation(), "deposit");
    assert_eq!(trail[1].details(), "second");
    assert_eq!(trail[2].timestamp(), 30);
    assert_eq!(trail[2].operation(), "close");
    assert_eq!(trail[2].details(), "third");
}

#[test]
fn timestamps_never_go_back() {
    let mut audit = AuditFacet::new();
    audit.log_operation_at(100, "a", "");
    audit.log_operation_at(40, "b", "");
    audit.log_operation_at(100, "c", "");
    audit.log_operation_at(0, "d", "");
    audit.log_operation_at(101, "e", "");
    let stamps: Vec<u128> = audit.get_audit_trail().iter().map(|e| e.timestamp()).collect();
    assert_eq!(stamps, vec![100, 100, 100, 100, 101]);
    let names: Vec<&str> = audit.get_audit_trail().iter().map(|e| e.operation()).collect();
    assert_eq!(names, vec!["a", "b", "c", "d", "e"]);
}

#[test]
fn the_clock_stamps_logged_entries_in_order() {
    let mut audit = AuditFacet::new();
    audit.log_operation_at(5, "seed", "before the clock");
    for _ in 0..20 {
        audit.log_operation("financial_operation", "New balance: 1");
    }
    let trail = audit.get_audit_trail();
    assert_eq!(trail.len(), 21);
    for pair in trail.windows(2) {
        assert!(pair[0].timestamp() <= pair[1].timestamp());
    }
    assert_eq!(trail[20].operation(), "financial_operation");
    assert_eq!(trail[20].details(), "New balance: 1");
}

#[test]
fn recent_entries_are_the_last_ones() {
    let mut audit = AuditFacet::new();
    for (stamp, name) in [(1, "a"), (2, "b"), (3, "c"), (4, "d"), (5, "e")] {
        audit.log_operation_at(stamp, name, "details");
    }
    let names = |count: usize| -> Vec<String> {
        audit.get_recent_entries(count).iter().map(|e| e.operation().to_string()).collect()
    };
    assert_eq!(names(0), Vec::<String>::new());
    assert_eq!(names(1), vec!["e"]);
    assert_eq!(names(3), vec!["c", "d", "e"]);
    assert_eq!(names(5), vec!["a", "b", "c", "d", "e"]);
    assert_eq!(names(6), vec!["a", "b", "c", "d", "e"]);
    assert_eq!(names(usize::MAX), vec!["a", "b", "c", "d", "e"]);
}

#[test]
fn entries_can_be_cloned() {
    let mut audit = AuditFacet::new();
    audit.log_operation_at(8, "open", "first");
    let copy = audit.get_audit_trail()[0].clone();
    assert_eq!(copy.timestamp(), 8);
    assert_eq!(copy.operation(), "open");
    assert_eq!(copy.details(), "first");
}
