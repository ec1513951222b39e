use sfind::config::Config;
use sfind::finder::run;
use sfind::sf::{self, Account, Address, EntityField, Related};

/// A Salesforce client implementing the sf::Client trait for testing.
struct TestClient<T: Fn(MockArgs) -> MockResult> {
    request: T,
}

impl<T: Fn(MockArgs) -> MockResult> TestClient<T> {
    fn new(f: T) -> Self {
        Self { request: f }
    }
}

impl<T: Fn(MockArgs) -> MockResult> sf::Client for TestClient<T> {
    fn get_account(
        &self,
        id: &str,
        _additional_fields: Vec<EntityField>,
    ) -> Result<Account, sf::Error> {
        match (self.request)(MockArgs::GetAccount(id)) {
            MockResult::Account(acc) => Ok(acc),
            MockResult::Fail(err) => Err(err),
            _ => panic!("invalid mock result for account"),
        }
    }

    fn get_account_id_by_field(
        &self,
        ef: &EntityField,
        value: &str,
    ) -> Result<String, sf::Error> {
        match (self.request)(MockArgs::GetAccountIDByField(&ef.to_string(), value)) {
            MockResult::ID(id) => Ok(id),
            MockResult::Fail(err) => Err(err),
            _ => panic!("invalid mock result for {}", ef.to_string()),
        }
    }
}

#[derive(Debug)]
enum MockArgs<'a> {
    GetAccount(&'a str),
    GetAccountIDByField(&'a str, &'a str),
}

enum MockResult {
    Account(Account),
    Fail(sf::Error),
    ID(String),
}

/// Return an account for testing.
fn account_for_tests() -> Account {
    Account {
        id: String::from("id-for-tests"),
        name: String::from("name"),
        account_number: None,
        billing_address: Address {
            city: None,
            country: None,
            postal_code: None,
            state: None,
            street: None,
        },
        created_date: String::from("name"),
        last_modified_date: Some(String::from("name")),
        assets: Related { records: vec![] },
        contacts: Related { records: vec![] },
        opportunities: Related { records: vec![] },
        extra: vec![],
    }
}

/// Return an empty config.
fn empty_config() -> Config {
    Config {
        additional_fields: vec![],
        search_fields: vec![],
    }
}

fn search_fields(specs: &[&str]) -> Vec<EntityField> {
    specs
        .iter()
        .map(|s| EntityField::from_str(s).unwrap())
        .collect()
}

#[test]
fn run_from_id_ok_get_account_ok() {
    let q = "0012500001Lhk3hAAB";
    let config = empty_config();
    let client = TestClient::new(|args| match args {
        MockArgs::GetAccountIDByField("Account.Id", "0012500001Lhk3hAAB") => {
            MockResult::ID(String::from("0012500001Lhk3hAAB"))
        }
        MockArgs::GetAccount("0012500001Lhk3hAAB") => MockResult::Account(account_for_tests()),
        _ => panic!("unhandled request/response: {:?}", args),
    });
    let acc = run(&client, q, config).unwrap();
    assert_eq!(acc.id, "id-for-tests");
}

#[test]
fn run_from_id_ok_get_account_not_found() {
    let q = "0012500001Lhk3hAAB";
    let config = empty_config();
    let client = TestClient::new(|args| match args {
        MockArgs::GetAccountIDByField("Account.Id", "0012500001Lhk3hAAB") => {
            MockResult::ID(String::from("0012500001Lhk3hAAB"))
        }
        MockArgs::GetAccount("0012500001Lhk3hAAB") => MockResult::Fail(sf::Error::NotFound),
        _ => panic!("unhandled request/response: {:?}", args),
    });
    let err = run(&client, q, config).unwrap_err();
    assert_eq!(err.message, "nothing found for query \"0012500001Lhk3hAAB\"");
}

#[test]
fn run_from_id_ok_get_account_error() {
    let q = "0012500001Lhk3hAAB";
    let config = empty_config();
    let client = TestClient::new(|args| match args {
        MockArgs::GetAccountIDByField("Account.Id", "0012500001Lhk3hAAB") => {
            MockResult::ID(String::from("0012500001Lhk3hAAB"))
        }
        MockArgs::GetAccount("0012500001Lhk3hAAB") => {
            MockResult::Fail(sf::Error::Message(String::from("bad wolf")))
        }
        _ => panic!("unhandled request/response: {:?}", args),
    });
    let err = run(&client, q, config).unwrap_err();
    assert_eq!(err.message, "bad wolf");
}

#[test]
fn run_from_id_error() {
    let q = "02i2500000HTaW9AAL";
    let config = empty_config();
    let client = TestClient::new(|args| match args {
        MockArgs::GetAccountIDByField("Asset.Id", "02i2500000HTaW9AAL") => {
            MockResult::Fail(sf::Error::Message(String::from("bad wolf")))
        }
        _ => panic!("unhandled request/response: {:?}", args),
    });
    let err = run(&client, q, config).unwrap_err();
    assert_eq!(err.message, "bad wolf");
}

#[test]
fn run_from_extra_ok_get_account_ok() {
    let q = "02i2500000HTaW9AAL";
    let config = Config {
        additional_fields: vec![],
        search_fields: search_fields(&["Account.SomeField", "Opportunity.AnotherField"]),
    };
    let client = TestClient::new(|args| match args {
        MockArgs::GetAccountIDByField("Asset.Id", "02i2500000HTaW9AAL") => {
            MockResult::Fail(sf::Error::NotFound)
        }
        MockArgs::GetAccountIDByField("Account.SomeField", "02i2500000HTaW9AAL") => {
            MockResult::Fail(sf::Error::NotFound)
        }
        MockArgs::GetAccountIDByField("Opportunity.AnotherField", "02i2500000HTaW9AAL") => {
            MockResult::ID(String::from("0012500001Lhk3hAAB"))
        }
        MockArgs::GetAccount("0012500001Lhk3hAAB") => MockResult::Account(account_for_tests()),
        _ => panic!("unhandled request/response: {:?}", args),
    });
    let acc = run(&client, q, config).unwrap();
    assert_eq!(acc.id, "id-for-tests");
}

#[test]
fn run_from_extra_ok_get_account_not_found() {
    let q = "some-query";
    let config = Config {
        additional_fields: vec![],
        search_fields: search_fields(&["Account.SomeField"]),
    };
    let client = TestClient::new(|args| match args {
        MockArgs::GetAccountIDByField("Account.SomeField", "some-query") => {
            MockResult::ID(String::from("0012500001Lhk3hAAB"))
        }
        MockArgs::GetAccount("0012500001Lhk3hAAB") => MockResult::Fail(sf::Error::NotFound),
        _ => panic!("unhandled request/response: {:?}", args),
    });
    let err = run(&client, q, config).unwrap_err();
    assert_eq!(err.message, "nothing found for query \"some-query\"");
}

#[test]
fn run_from_extra_ok_get_account_error() {
    let q = "some-query";
    let config = Config {
        additional_fields: vec![],
        search_fields: search_fields(&["Asset.OpportunityId__c"]),
    };
    let client = TestClient::new(|args| match args {
        MockArgs::GetAccountIDByField("Asset.OpportunityId__c", "some-query") => {
            MockResult::ID(String::from("0012500001Lhk3hAAA"))
        }
        MockArgs::GetAccount("0012500001Lhk3hAAA") => {
            MockResult::Fail(sf::Error::Message(String::from("bad wolf")))
        }
        _ => panic!("unhandled request/response: {:?}", args),
    });
    let err = run(&client, q, config).unwrap_err();
    assert_eq!(err.message, "bad wolf");
}

#[test]
fn run_from_extra_not_found() {
    let q = "some-query";
    let config = Config {
        additional_fields: vec![],
        search_fields: search_fields(&["Account.SomeField", "Opportunity.AnotherField"]),
    };
    let client = TestClient::new(|args| match args {
        MockArgs::GetAccountIDByField("Account.SomeField", "some-query") => {
            MockResult::Fail(sf::Error::NotFound)
        }
        MockArgs::GetAccountIDByField("Opportunity.AnotherField", "some-query") => {
            MockResult::Fail(sf::Error::NotFound)
        }
        _ => panic!("unhandled request/response: {:?}", args),
    });
    let err = run(&client, q, config).unwrap_err();
    assert_eq!(err.message, "nothing found for query \"some-query\"");
}

#[test]
fn run_from_extra_not_found_no_fields() {
    let q = "some-query";
    let config = empty_config();
    let client = TestClient::new(|args| match args {
        _ => panic!("unhandled request/response: {:?}", args),
    });
    let err = run(&client, q, config).unwrap_err();
    assert_eq!(err.message, "nothing found for query \"some-query\"");
}

#[test]
fn run_from_extra_error() {
    let q = "some-query";
    let config = Config {
        additional_fields: vec![],
        search_fields: search_fields(&["Account.SomeField", "Opportunity.AnotherField"]),
    };
    let client = TestClient::new(|args| match args {
        MockArgs::GetAccountIDByField("Account.SomeField", "some-query") => {
            MockResult::Fail(sf::Error::Message(String::from("bad wolf")))
        }
        _ => panic!("unhandled request/response: {:?}", args),
    });
    let err = run(&client, q, config).unwrap_err();
    assert_eq!(err.message, "bad wolf");
}

#[test]
fn run_from_email_ok_get_account_ok() {
    let q = "who@example.com";
    let config = Config {
        additional_fields: vec![],
        search_fields: search_fields(&["Account.SomeField"]),
    };
    let client = TestClient::new(|args| match args {
        MockArgs::GetAccountIDByField("Contact.email", "who@example.com") => {
            MockResult::ID(String::from("0012500001Lhk3hAAB"))
        }
        MockArgs::GetAccount("0012500001Lhk3hAAB") => MockResult::Account(account_for_tests()),
        _ => panic!("unhandled request/response: {:?}", args),
    });
    let acc = run(&client, q, config).unwrap();
    assert_eq!(acc.id, "id-for-tests");
}

#[test]
fn run_from_email_not_found_get_account_ok() {
    let q = "who@example.com";
    let config = Config {
        additional_fields: vec![],
        search_fields: search_fields(&["Account.SomeField"]),
    };
    let client = TestClient::new(|args| match args {
        MockArgs::GetAccountIDByField("Contact.email", "who@example.com") => {
            MockResult::Fail(sf::Error::NotFound)
        }
        MockArgs::GetAccountIDByField("Account.SomeField", "who@example.com") => {
            MockResult::ID(String::from("0012500001Lhk3hAAB"))
        }
        MockArgs::GetAccount("0012500001Lhk3hAAB") => MockResult::Account(account_for_tests()),
        _ => panic!("unhandled request/response: {:?}", args),
    });
    let acc = run(&client, q, config).unwrap();
    assert_eq!(acc.id, "id-for-tests");
}

#[test]
fn run_from_email_error() {
    let q = "who@example.com";
    let config = Config {
        additional_fields: vec![],
        search_fields: search_fields(&["Account.SomeField"]),
    };
    let client = TestClient::new(|args| match args {
        MockArgs::GetAccountIDByField("Contact.email", "who@example.com") => {
            MockResult::Fail(sf::Error::Message(String::from("bad wolf")))
        }
        _ => panic!("unhandled request/response: {:?}", args),
    });
    let err = run(&client, q, config).unwrap_err();
    assert_eq!(err.message, "bad wolf");
}

#[test]
fn run_skips_id_phase_for_non_id_shapes() {
    // A string whose length or prefix does not match a known id shape must
    // not trigger any id-phase lookup: with no "@" and no search fields the
    // panicking client proves no request is ever issued.
    for q in ["short", "xyz2500001Lhk3hAAB", "0012500001Lhk3hAA"] {
        let client = TestClient::new(|args| match args {
            _ => panic!("unhandled request/response: {:?}", args),
        });
        let err = run(&client, q, empty_config()).unwrap_err();
        assert_eq!(err.message, format!("nothing found for query \"{}\"", q));
    }
}

#[test]
fn run_skips_email_phase_without_at_sign() {
    // A query without "@" goes straight to the configured fields: the double
    // answers only the configured-field lookup, so reaching the account
    // fetch proves the email lookup was never attempted.
    let q = "plain-name";
    let config = Config {
        additional_fields: vec![],
        search_fields: search_fields(&["Account.Name"]),
    };
    let client = TestClient::new(|args| match args {
        MockArgs::GetAccountIDByField("Account.Name", "plain-name") => {
            MockResult::ID(String::from("0012500001Lhk3hAAB"))
        }
        MockArgs::GetAccount("0012500001Lhk3hAAB") => MockResult::Account(account_for_tests()),
        _ => panic!("unhandled request/response: {:?}", args),
    });
    let acc = run(&client, q, config).unwrap();
    assert_eq!(acc.id, "id-for-tests");
}
