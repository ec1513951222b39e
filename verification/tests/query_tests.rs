use sfind::query::{composite_query, escape_value, join, line_item_query, lookup_plan, LookupPlan};
use sfind::sf::{Entity, EntityField};

fn fields(specs: &[&str]) -> Vec<EntityField> {
    specs
        .iter()
        .map(|s| EntityField::from_str(s).unwrap())
        .collect()
}

#[test]
fn join_fields() {
    let parts = vec![String::from("a"), String::from("b"), String::from("c")];
    assert_eq!(join(&parts, ", "), "a, b, c");
    let one = vec![String::from("a")];
    assert_eq!(join(&one, ", "), "a");
    let none: Vec<String> = vec![];
    assert_eq!(join(&none, ", "), "");
}

#[test]
fn escape_value_quotes_and_backslashes() {
    assert_eq!(escape_value("plain"), "plain");
    assert_eq!(escape_value("O'Brien"), "O\\'Brien");
    assert_eq!(escape_value("a\\b"), "a\\\\b");
    assert_eq!(escape_value(""), "");
}

#[test]
fn composite_query_base_fields() {
    let q = composite_query("0012500001Lhk3hAAB", &vec![]);
    assert_eq!(
        q,
        "SELECT Id, Name, AccountNumber, BillingAddress, CreatedDate, LastModifiedDate, \
         (SELECT Id, Name, Product2.ProductCode, Product2.Name, Product2.LastModifiedDate, \
         Price, Quantity, Status, ContactId, InstallDate, PurchaseDate, UsageEndDate, \
         CreatedDate, LastModifiedDate FROM assets), \
         (SELECT Id, Email, FirstName, LastName, CreatedDate, LastModifiedDate FROM contacts), \
         (SELECT Id, Name, RecordType.Name, StageName, Amount, CurrencyIsoCode, IsWon, \
         IsClosed, CloseDate, LeadSource, CreatedDate, LastModifiedDate FROM opportunities) \
         FROM Account WHERE Id = '0012500001Lhk3hAAB'"
    );
}

#[test]
fn composite_query_additional_fields_in_order() {
    let additional = fields(&[
        "Account.Foo__c",
        "Contact.Birthdate",
        "Account.Bar__c",
        "Account.Foo__c",
    ]);
    let q = composite_query("001x", &additional);
    assert!(q.starts_with(
        "SELECT Id, Name, AccountNumber, BillingAddress, CreatedDate, LastModifiedDate, \
         Foo__c, Bar__c, Foo__c, (SELECT "
    ));
    assert!(q.contains(
        "(SELECT Id, Email, FirstName, LastName, CreatedDate, LastModifiedDate, Birthdate \
         FROM contacts)"
    ));
    assert!(q.ends_with("FROM Account WHERE Id = '001x'"));
}

#[test]
fn composite_query_escapes_id() {
    let q = composite_query("00'1", &vec![]);
    assert!(q.ends_with("FROM Account WHERE Id = '00\\'1'"));
}

#[test]
fn line_item_query_base_fields() {
    let q = line_item_query("006abc", &vec![]);
    assert_eq!(
        q,
        "SELECT UnitPrice, Quantity, TotalPrice, CurrencyISOCode, ServiceDate \
         FROM OpportunityLineItem WHERE OpportunityId = '006abc'"
    );
}

#[test]
fn line_item_query_additional_fields() {
    let additional = fields(&["OpportunityLineItem.Discount", "Account.Ignored"]);
    let q = line_item_query("006abc", &additional);
    assert_eq!(
        q,
        "SELECT UnitPrice, Quantity, TotalPrice, CurrencyISOCode, ServiceDate, Discount \
         FROM OpportunityLineItem WHERE OpportunityId = '006abc'"
    );
}

#[test]
fn lookup_plan_account_id_short_circuit() {
    let ef = Entity::Account.to_field("Id");
    let plan = lookup_plan(&ef, "0012500001Lhk3hAAB");
    assert!(matches!(plan, LookupPlan::UseValue));
}

#[test]
fn lookup_plan_account_field() {
    let ef = Entity::Account.to_field("Name");
    let plan = lookup_plan(&ef, "acme");
    match plan {
        LookupPlan::AccountQuery(q) => assert_eq!(
            q,
            "SELECT Id FROM Account WHERE Name = 'acme' ORDER BY LastModifiedDate DESC"
        ),
        _ => panic!("expected an account query"),
    }
}

#[test]
fn lookup_plan_child_field() {
    let ef = Entity::Contact.to_field("email");
    let plan = lookup_plan(&ef, "who@example.com");
    match plan {
        LookupPlan::ChildQuery(q) => assert_eq!(
            q,
            "SELECT AccountId FROM Contact WHERE email = 'who@example.com' \
             ORDER BY LastModifiedDate DESC"
        ),
        _ => panic!("expected a child query"),
    }
}

#[test]
fn lookup_plan_escapes_value() {
    let ef = Entity::Account.to_field("Name");
    let plan = lookup_plan(&ef, "O'Brien");
    match plan {
        LookupPlan::AccountQuery(q) => assert_eq!(
            q,
            "SELECT Id FROM Account WHERE Name = 'O\\'Brien' ORDER BY LastModifiedDate DESC"
        ),
        _ => panic!("expected an account query"),
    }
}
