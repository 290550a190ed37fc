use user_crud::decimal::push_decimal;
use user_crud::json::{new_user, payload, user_to_json, users_to_json, write_array, write_user};
use user_crud::user::User;

fn user(id: Option<i64>, name: &str, age: i64) -> User {
    User { id, name: name.to_string(), age }
}

#[test]
fn payload_reads_name_and_age() {
    assert_eq!(payload("{\"name\":\"Cemi\",\"age\":30}"), Some(user(None, "Cemi", 30)));
    assert_eq!(payload(" { \"age\" : -4 , \"name\" : \"\" } "), Some(user(None, "", -4)));
    assert_eq!(
        payload("{\"name\":\"a\\\"b\\u00e9\",\"age\":9223372036854775807}"),
        Some(user(None, "a\"bé", i64::MAX))
    );
}

#[test]
fn payload_passes_over_other_members() {
    assert_eq!(payload("{\"id\":7,\"name\":\"Cemi\",\"age\":30}"), Some(user(None, "Cemi", 30)));
    assert_eq!(payload("{\"id\":\"x\",\"name\":\"Cemi\",\"age\":30,\"z\":[1]}"), Some(user(None, "Cemi", 30)));
}

#[test]
fn payload_needs_a_name_that_is_a_string() {
    assert_eq!(payload("{\"age\":30}"), None);
    assert_eq!(payload("{\"name\":null,\"age\":30}"), None);
    assert_eq!(payload("{\"name\":5,\"age\":30}"), None);
    assert_eq!(payload("{\"Name\":\"Cemi\",\"age\":30}"), None);
}

#[test]
fn payload_needs_an_age_that_is_an_integer() {
    assert_eq!(payload("{\"name\":\"Cemi\"}"), None);
    assert_eq!(payload("{\"name\":\"Cemi\",\"age\":\"30\"}"), None);
    assert_eq!(payload("{\"name\":\"Cemi\",\"age\":30.5}"), None);
    assert_eq!(payload("{\"name\":\"Cemi\",\"age\":30.0}"), None);
    assert_eq!(payload("{\"name\":\"Cemi\",\"age\":9223372036854775808}"), None);
    assert_eq!(payload("{\"name\":\"Cemi\",\"age\":null}"), None);
}

#[test]
fn payload_needs_one_json_object() {
    assert_eq!(payload(""), None);
    assert_eq!(payload("name=Cemi&age=30"), None);
    assert_eq!(payload("{\"name\":\"Cemi\",\"age\":30"), None);
    assert_eq!(payload("{\"name\":\"Cemi\",\"age\":30} x"), None);
    assert_eq!(payload("[\"Cemi\",30]"), None);
    assert_eq!(payload("\"name\""), None);
    assert_eq!(payload("30"), None);
    assert_eq!(payload("null"), None);
}

#[test]
fn push_decimal_writes_base_ten() {
    for (n, expected) in [
        (0i64, "0"),
        (7, "7"),
        (10, "10"),
        (22, "22"),
        (-1, "-1"),
        (-120, "-120"),
        (1234567890, "1234567890"),
        (i64::MAX, "9223372036854775807"),
        (i64::MIN, "-9223372036854775808"),
    ] {
        let mut text = String::from("age=");
        push_decimal(&mut text, n);
        assert_eq!(text, format!("age={}", expected));
        assert_eq!(expected, n.to_string());
    }
}

#[test]
fn user_to_json_writes_id_name_and_age() {
    assert_eq!(
        user_to_json(&user(Some(1), "Bara", 22)),
        Some("{\"id\":1,\"name\":\"Bara\",\"age\":22}".to_string())
    );
    assert_eq!(
        user_to_json(&user(None, "", -3)),
        Some("{\"id\":null,\"name\":\"\",\"age\":-3}".to_string())
    );
}

#[test]
fn user_to_json_escapes_the_name() {
    assert_eq!(
        user_to_json(&user(Some(-5), "a\"b\\c\nd\u{1}é/", 0)),
        Some("{\"id\":-5,\"name\":\"a\\\"b\\\\c\\nd\\u0001é/\",\"age\":0}".to_string())
    );
    assert_eq!(
        user_to_json(&user(Some(2), "O'Neil'); DROP TABLE users;--", 1)),
        Some("{\"id\":2,\"name\":\"O'Neil'); DROP TABLE users;--\",\"age\":1}".to_string())
    );
}

#[test]
fn users_to_json_writes_an_array() {
    assert_eq!(users_to_json(&vec![]), Some("[]".to_string()));
    assert_eq!(
        users_to_json(&vec![user(Some(1), "Bara", 22)]),
        Some("[{\"id\":1,\"name\":\"Bara\",\"age\":22}]".to_string())
    );
    assert_eq!(
        users_to_json(&vec![user(Some(1), "Bara", 22), user(Some(2), "Bama", 22), user(Some(3), "Cemi", 30)]),
        Some(
            "[{\"id\":1,\"name\":\"Bara\",\"age\":22},{\"id\":2,\"name\":\"Bama\",\"age\":22},{\"id\":3,\"name\":\"Cemi\",\"age\":30}]"
                .to_string()
        )
    );
}

#[test]
fn users_to_json_is_read_back_by_serde_json() {
    let users = vec![user(Some(1), "tab\there", 22), user(Some(i64::MAX), "quote\"", i64::MIN)];
    let json = users_to_json(&users).unwrap();
    let value: serde_json::Value = serde_json::from_str(&json).unwrap();
    let list = value.as_array().unwrap();
    assert_eq!(list.len(), 2);
    assert_eq!(list[0].get("id").unwrap().as_i64(), Some(1));
    assert_eq!(list[0].get("name").unwrap().as_str(), Some("tab\there"));
    assert_eq!(list[0].get("age").unwrap().as_i64(), Some(22));
    assert_eq!(list[1].get("id").unwrap().as_i64(), Some(i64::MAX));
    assert_eq!(list[1].get("name").unwrap().as_str(), Some("quote\""));
    assert_eq!(list[1].get("age").unwrap().as_i64(), Some(i64::MIN));
}

#[test]
fn payload_reads_back_what_user_to_json_writes() {
    let json = user_to_json(&user(Some(9), "Zoë \"Z\"", 41)).unwrap();
    assert_eq!(payload(&json), Some(user(None, "Zoë \"Z\"", 41)));
}

#[test]
fn new_user_needs_name_and_age() {
    assert_eq!(new_user(Some("Cemi"), Some(30)), Some(user(None, "Cemi", 30)));
    assert_eq!(new_user(Some(""), Some(i64::MIN)), Some(user(None, "", i64::MIN)));
    assert_eq!(new_user(None, Some(30)), None);
    assert_eq!(new_user(Some("Cemi"), None), None);
    assert_eq!(new_user(None, None), None);
}

#[test]
fn write_user_puts_the_name_in_as_it_is_given() {
    assert_eq!(write_user(Some(3), "\"Cemi\"", 30), "{\"id\":3,\"name\":\"Cemi\",\"age\":30}");
    assert_eq!(write_user(None, "\"\"", -1), "{\"id\":null,\"name\":\"\",\"age\":-1}");
    assert_eq!(write_user(Some(0), "", 0), "{\"id\":0,\"name\":,\"age\":0}");
}

#[test]
fn write_array_puts_commas_between_items() {
    assert_eq!(write_array(&vec![]), "[]");
    assert_eq!(write_array(&vec!["1".to_string()]), "[1]");
    assert_eq!(write_array(&vec!["1".to_string(), "{}".to_string(), "".to_string(), "x".to_string()]), "[1,{},,x]");
}
