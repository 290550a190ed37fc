use user_crud::decimal::push_decimal;
use user_crud::request::{
    decode_request, get_id, parse_id, parse_request, request_body, request_id, request_method,
    request_path, route, Method, Request, Route, REQUEST_LIMIT,
};

#[test]
fn get_id_reads_the_third_piece() {
    assert_eq!(get_id("/user/2"), "2");
    assert_eq!(get_id("/user/25/more"), "25");
    assert_eq!(get_id("PUT /user/2 HTTP/1.1\r\n\r\n"), "2");
    assert_eq!(get_id("DELETE /user/17"), "17");
    assert_eq!(get_id("/user/abc"), "abc");
}

#[test]
fn get_id_ends_at_a_slash_or_white_space() {
    assert_eq!(get_id("/user/5 6/"), "5");
    assert_eq!(get_id("/user/5\t6"), "5");
    assert_eq!(get_id("/user/5\r\n"), "5");
    assert_eq!(get_id("/user/5\u{3000}6"), "5");
    assert_eq!(get_id("/user/5/6"), "5");
    assert_eq!(get_id("a/b/x?y=1 z"), "x?y=1");
}

#[test]
fn get_id_is_empty_where_nothing_follows_the_second_slash() {
    assert_eq!(get_id("PUT /user/ HTTP/1.1\r\n\r\n{\"name\":\"A\",\"age\":1}"), "");
    assert_eq!(get_id("DELETE /user/ HTTP/1.1\r\n\r\n"), "");
    assert_eq!(get_id("/user/ 5 6/"), "");
    assert_eq!(get_id("a/b/\t\u{a0}x"), "");
    assert_eq!(get_id("/user/   "), "");
    assert_eq!(get_id("/user/\r\n5"), "");
}

#[test]
fn get_id_is_empty_without_two_slashes() {
    assert_eq!(get_id(""), "");
    assert_eq!(get_id("users"), "");
    assert_eq!(get_id("/users"), "");
    assert_eq!(get_id("/user/"), "");
    assert_eq!(get_id("//"), "");
    assert_eq!(get_id("/user//7"), "");
}

#[test]
fn parse_id_reads_digits_with_or_without_sign() {
    assert_eq!(parse_id("0"), Some(0));
    assert_eq!(parse_id("2"), Some(2));
    assert_eq!(parse_id("+7"), Some(7));
    assert_eq!(parse_id("-7"), Some(-7));
    assert_eq!(parse_id("-0"), Some(0));
    assert_eq!(parse_id("000000000000000000000000042"), Some(42));
}

#[test]
fn parse_id_keeps_to_the_range_of_i64() {
    assert_eq!(parse_id("2147483647"), Some(2147483647));
    assert_eq!(parse_id("2147483648"), Some(2147483648));
    assert_eq!(parse_id("3000000000"), Some(3000000000));
    assert_eq!(parse_id("-2147483649"), Some(-2147483649));
    assert_eq!(parse_id("9223372036854775807"), Some(i64::MAX));
    assert_eq!(parse_id("9223372036854775808"), None);
    assert_eq!(parse_id("-9223372036854775808"), Some(i64::MIN));
    assert_eq!(parse_id("-9223372036854775809"), None);
    assert_eq!(parse_id("+9223372036854775807"), Some(i64::MAX));
    assert_eq!(parse_id("00000000000000000000009223372036854775807"), Some(i64::MAX));
    assert_eq!(parse_id("99999999999999999999999999999999999999"), None);
    assert_eq!(parse_id("-99999999999999999999999999999999999999"), None);
}

#[test]
fn parse_id_refuses_anything_else() {
    assert_eq!(parse_id(""), None);
    assert_eq!(parse_id("+"), None);
    assert_eq!(parse_id("-"), None);
    assert_eq!(parse_id("1.1"), None);
    assert_eq!(parse_id(" 1"), None);
    assert_eq!(parse_id("1 "), None);
    assert_eq!(parse_id("abc"), None);
    assert_eq!(parse_id("12a"), None);
    assert_eq!(parse_id("--1"), None);
    assert_eq!(parse_id("٣"), None);
    assert_eq!(parse_id("99999999999999999999x"), None);
    assert_eq!(parse_id("99999999999x"), None);
}

#[test]
fn parse_id_agrees_with_std() {
    for text in [
        "5",
        "+5",
        "-5",
        "05",
        "-0",
        "2147483648",
        "9223372036854775807",
        "9223372036854775808",
        "-9223372036854775808",
        "-9223372036854775809",
        "",
        "+",
        "-",
        "+-1",
        "1_0",
        " 1",
        "0x10",
    ] {
        assert_eq!(parse_id(text), text.parse::<i64>().ok(), "{:?}", text);
    }
}

#[test]
fn request_body_is_what_follows_the_first_blank_line() {
    assert_eq!(request_body("POST /users HTTP/1.1\r\nHost: x\r\n\r\n{\"a\":1}"), "{\"a\":1}");
    assert_eq!(request_body("\r\n\r\nbody"), "body");
    assert_eq!(request_body("a\r\n\r\nb\r\n\r\nc"), "b\r\n\r\nc");
    assert_eq!(request_body("a\r\n\r\n\r\nb"), "\r\nb");
    assert_eq!(request_body("head\r\n\r\n"), "");
}

#[test]
fn request_body_is_empty_without_a_blank_line() {
    assert_eq!(request_body(""), "");
    assert_eq!(request_body("GET /users HTTP/1.1\r\n"), "");
    assert_eq!(request_body("{\"name\":\"Cemi\",\"age\":30}"), "");
    assert_eq!(request_body("a\n\nb"), "");
    assert_eq!(request_body("a\r\n\rb"), "");
}

#[test]
fn request_method_reads_the_first_word() {
    assert_eq!(request_method("GET /users HTTP/1.1"), Method::Get);
    assert_eq!(request_method("POST /users"), Method::Post);
    assert_eq!(request_method("PUT /user/1"), Method::Put);
    assert_eq!(request_method("DELETE /user/1"), Method::Delete);
    assert_eq!(request_method("PATCH /user/1"), Method::Other);
    assert_eq!(request_method("get /users"), Method::Other);
    assert_eq!(request_method("GETS /users"), Method::Other);
    assert_eq!(request_method("GE"), Method::Other);
    assert_eq!(request_method(""), Method::Other);
    assert_eq!(request_method("GET"), Method::Get);
    assert_eq!(request_method(" GET /users"), Method::Other);
}

#[test]
fn request_path_is_the_second_word() {
    assert_eq!(request_path("GET /users HTTP/1.1\r\n\r\n"), "/users");
    assert_eq!(request_path("PUT /user/2 HTTP/1.1"), "/user/2");
    assert_eq!(request_path("DELETE /user/1"), "/user/1");
    assert_eq!(request_path("GET /users\r\nHost: x"), "/users");
    assert_eq!(request_path("GET /a?b=c d"), "/a?b=c");
}

#[test]
fn request_path_is_empty_where_none_follows_the_first_space() {
    assert_eq!(request_path(""), "");
    assert_eq!(request_path("GET"), "");
    assert_eq!(request_path("GET "), "");
    assert_eq!(request_path("GET  /users"), "");
    assert_eq!(request_path("PUT /user/ 5"), "/user/");
}

#[test]
fn route_tests_prefixes_of_the_text() {
    assert_eq!(route("POST /users HTTP/1.1\r\n\r\n{}"), Route::Create);
    assert_eq!(route("GET /users HTTP/1.1\r\n\r\n"), Route::List);
    assert_eq!(route("PUT /user/2 HTTP/1.1\r\n\r\n{}"), Route::Update);
    assert_eq!(route("DELETE /user/1 HTTP/1.1\r\n\r\n"), Route::Delete);
    assert_eq!(route("GET /users"), Route::List);
    assert_eq!(route("GET /users/all?x=1"), Route::List);
    assert_eq!(route("POST /usersandmore"), Route::Create);
    assert_eq!(route("PUT /user/"), Route::Update);
    assert_eq!(route("DELETE /user/x/y"), Route::Delete);
}

#[test]
fn route_finds_nothing_for_any_other_text() {
    assert_eq!(route(""), Route::NotFound);
    assert_eq!(route("GET / HTTP/1.1"), Route::NotFound);
    assert_eq!(route("GET /user/1"), Route::NotFound);
    assert_eq!(route("POST /user/1"), Route::NotFound);
    assert_eq!(route("PUT /users"), Route::NotFound);
    assert_eq!(route("PUT /user"), Route::NotFound);
    assert_eq!(route("DELETE /users"), Route::NotFound);
    assert_eq!(route("get /users"), Route::NotFound);
    assert_eq!(route("GET /Users"), Route::NotFound);
    assert_eq!(route(" GET /users"), Route::NotFound);
    assert_eq!(route("GET  /users"), Route::NotFound);
    assert_eq!(route("PATCH /users"), Route::NotFound);
    assert_eq!(route("GET /user"), Route::NotFound);
}

#[test]
fn parse_request_reads_all_four_parts() {
    assert_eq!(
        parse_request("PUT /user/2 HTTP/1.1\r\nHost: localhost\r\n\r\n{\"name\":\"Bama2\",\"age\":23}"),
        Request {
            method: Method::Put,
            path: "/user/2".to_string(),
            id: Some(2),
            body: "{\"name\":\"Bama2\",\"age\":23}".to_string(),
        }
    );
    assert_eq!(
        parse_request("GET /users HTTP/1.1\r\n\r\n"),
        Request { method: Method::Get, path: "/users".to_string(), id: None, body: String::new() }
    );
    assert_eq!(
        parse_request("DELETE /user/x"),
        Request { method: Method::Delete, path: "/user/x".to_string(), id: None, body: String::new() }
    );
    assert_eq!(
        parse_request(""),
        Request { method: Method::Other, path: String::new(), id: None, body: String::new() }
    );
}

#[test]
fn parse_request_takes_the_identifier_from_the_path_only() {
    assert_eq!(parse_request("GET /users HTTP/2").id, None);
    assert_eq!(parse_request("PUT /user/ 5 HTTP/1.1").id, None);
    assert_eq!(parse_request("PUT /user/5/6 HTTP/1.1").id, Some(5));
}

#[test]
fn decode_request_decodes_utf8() {
    assert_eq!(decode_request(b"GET /users HTTP/1.1\r\n\r\n"), "GET /users HTTP/1.1\r\n\r\n");
    assert_eq!(decode_request("{\"name\":\"Zoë\"}".as_bytes()), "{\"name\":\"Zoë\"}");
    assert_eq!(decode_request(b""), "");
}

#[test]
fn decode_request_replaces_what_is_no_utf8() {
    assert_eq!(decode_request(b"GET /\xff\xfeusers"), "GET /\u{fffd}\u{fffd}users");
    assert_eq!(decode_request(b"a\xc3"), "a\u{fffd}");
}

#[test]
fn decode_request_cuts_off_at_the_limit() {
    assert_eq!(REQUEST_LIMIT, 1024);
    let long = vec![b'a'; 3000];
    assert_eq!(decode_request(&long), "a".repeat(1024));
    let exact = vec![b'b'; 1024];
    assert_eq!(decode_request(&exact), "b".repeat(1024));
    let mut split = vec![b'c'; 1023];
    split.extend_from_slice("é".as_bytes());
    assert_eq!(decode_request(&split), format!("{}\u{fffd}", "c".repeat(1023)));
}

#[test]
fn request_id_reads_the_piece_after_user() {
    assert_eq!(request_id("PUT /user/2 HTTP/1.1\r\n\r\n"), Some(2));
    assert_eq!(request_id("DELETE /user/-17"), Some(-17));
    assert_eq!(request_id("DELETE /user/17/and/more HTTP/1.1"), Some(17));
    assert_eq!(request_id("DELETE /user/17?x=1 HTTP/1.1"), None);
    assert_eq!(request_id("DELETE /user/ 17 HTTP/1.1"), None);
    assert_eq!(request_id("DELETE /user/ HTTP/1.1"), None);
    assert_eq!(request_id("GET /users HTTP/2"), None);
    assert_eq!(request_id(""), None);
}

#[test]
fn route_is_method_and_start_of_path() {
    let methods = ["GET", "POST", "PUT", "DELETE", "PATCH", "get", "", "GET "];
    let paths = ["/users", "/users/7", "/user/", "/user/7", "/user", "/", "", "/usersx", "/Users", "users"];
    let tails = ["", " HTTP/1.1\r\n\r\n{}", "\r\n", "\tx"];
    for method in methods {
        for path in paths {
            for tail in tails {
                let request = format!("{} {}{}", method, path, tail);
                let parsed = parse_request(&request);
                let users = parsed.path.starts_with("/users");
                let user = parsed.path.starts_with("/user/");
                let expected = match parsed.method {
                    Method::Post if users => Route::Create,
                    Method::Get if users => Route::List,
                    Method::Put if user => Route::Update,
                    Method::Delete if user => Route::Delete,
                    _ => Route::NotFound,
                };
                assert_eq!(route(&request), expected, "{:?}", request);
            }
        }
    }
}

#[test]
fn written_identifier_reads_back_from_a_path() {
    for id in [0, 1, 2, 9, 10, 99, 100, 12345, -1, -10, 3000000000, i64::MAX, i64::MIN] {
        let mut path = String::from("/user/");
        push_decimal(&mut path, id);
        assert_eq!(path, format!("/user/{}", id));
        assert_eq!(get_id(&path), id.to_string());
        assert_eq!(parse_id(get_id(&path)), Some(id));
        assert_eq!(request_id(&format!("DELETE {} HTTP/1.1\r\n\r\n", path)), Some(id));
    }
}

#[test]
fn routed_request_has_its_identifier_in_its_path() {
    let heads = ["PUT /user/", "DELETE /user/"];
    let rests = [
        "",
        "7",
        "7 HTTP/1.1\r\n\r\n{}",
        " HTTP/1.1\r\n\r\n{\"name\":\"A\",\"age\":1}",
        " 7 HTTP/1.1",
        "7/8 HTTP/2",
        "/7",
        "-12\tx/y",
        "3000000000\r\n",
        "x7",
    ];
    for head in heads {
        for rest in rests {
            let request = format!("{}{}", head, rest);
            assert_eq!(get_id(&request), get_id(request_path(&request)), "{:?}", request);
            assert_eq!(parse_id(get_id(&request)), request_id(&request), "{:?}", request);
        }
    }
    assert_eq!(get_id("PUT /user/ HTTP/1.1"), "");
    assert_eq!(get_id("GET /users HTTP/2"), "2");
    assert_eq!(request_id("GET /users HTTP/2"), None);
}
