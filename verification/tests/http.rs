use qcli::command::{HttpCommand, Verb};
use qcli::words::split_words;
use qcli::http::{
    conclude, decimal_text, format_reply, join_words, FormattedResponse, Header, HttpError,
    HttpRequest, Reply,
};

fn strings(words: &[&str]) -> Vec<String> {
    words.iter().map(|w| w.to_string()).collect()
}

fn command(verb: Verb, uri: &str, body: &[&str]) -> HttpCommand {
    HttpCommand { verb, uri: uri.to_string(), body: strings(body) }
}

#[test]
fn joining_puts_single_spaces_between() {
    assert_eq!(join_words(&strings(&[])), "");
    assert_eq!(join_words(&strings(&["hello"])), "hello");
    assert_eq!(join_words(&strings(&["hello", "world"])), "hello world");
    assert_eq!(join_words(&strings(&["a", "b", "c"])), "a b c");
}

#[test]
fn echo_of_a_get_has_no_body_clause() {
    assert_eq!(
        command(Verb::Get, "https://example.test/a", &[]).echo(),
        "GET https://example.test/a"
    );
}

#[test]
fn echo_of_a_put_shows_the_body() {
    assert_eq!(
        command(Verb::Put, "https://example.test/a", &["hello", "world"]).echo(),
        "PUT https://example.test/a <hello world>"
    );
}

#[test]
fn request_without_body_words_has_no_payload() {
    assert_eq!(
        command(Verb::Get, "https://example.test/a", &[]).request(),
        HttpRequest { verb: Verb::Get, uri: "https://example.test/a".to_string(), body: None }
    );
}

#[test]
fn request_joins_the_body_words() {
    assert_eq!(
        command(Verb::Put, "https://example.test/a", &["hello", "world"]).request(),
        HttpRequest {
            verb: Verb::Put,
            uri: "https://example.test/a".to_string(),
            body: Some("hello world".to_string()),
        }
    );
    assert_eq!(
        command(Verb::Get, "x", &["one"]).request(),
        HttpRequest { verb: Verb::Get, uri: "x".to_string(), body: Some("one".to_string()) }
    );
}

#[test]
fn verbs_have_upper_case_names() {
    assert_eq!(Verb::Get.name(), "GET");
    assert_eq!(Verb::Put.name(), "PUT");
}

#[test]
fn decimal_numerals() {
    assert_eq!(decimal_text(0), "0");
    assert_eq!(decimal_text(7), "7");
    assert_eq!(decimal_text(10), "10");
    assert_eq!(decimal_text(200), "200");
    assert_eq!(decimal_text(404), "404");
    assert_eq!(decimal_text(1234), "1234");
    assert_eq!(decimal_text(65535), "65535");
}

#[test]
fn decimal_numerals_agree_with_std() {
    let mut n: u16 = 0;
    loop {
        assert_eq!(decimal_text(n), n.to_string());
        if n == u16::MAX {
            break;
        }
        n += 1;
    }
}

#[test]
fn a_reply_without_headers_is_its_status_line() {
    let reply = Reply { status: 204, headers: vec![] };
    assert_eq!(
        format_reply(&reply),
        FormattedResponse { status: 204, text: "HTTP 204".to_string() }
    );
}

#[test]
fn headers_follow_the_status_line() {
    let reply = Reply {
        status: 200,
        headers: vec![
            Header { name: "content-type".to_string(), value: "text/plain".to_string() },
            Header { name: "content-length".to_string(), value: "12".to_string() },
        ],
    };
    assert_eq!(
        format_reply(&reply).text,
        "HTTP 200\ncontent-type: text/plain\ncontent-length: 12"
    );
}

#[test]
fn a_status_of_failure_is_no_error() {
    let r = conclude(Ok(Reply { status: 404, headers: vec![] }));
    assert_eq!(r, Ok(FormattedResponse { status: 404, text: "HTTP 404".to_string() }));
    assert!(!r.unwrap().success());
    let r = conclude(Ok(Reply { status: 500, headers: vec![] }));
    assert_eq!(r, Ok(FormattedResponse { status: 500, text: "HTTP 500".to_string() }));
}

#[test]
fn success_is_two_hundred_to_two_ninety_nine() {
    let with = |status: u16| FormattedResponse { status, text: String::new() };
    assert!(!with(199).success());
    assert!(with(200).success());
    assert!(with(299).success());
    assert!(!with(300).success());
}

#[test]
fn a_failure_keeps_its_cause() {
    let r = conclude(Err("connection refused".to_string()));
    assert_eq!(r, Err(HttpError { cause: "connection refused".to_string() }));
    assert_eq!(r.unwrap_err().message(), "http call failed: connection refused");
}

#[test]
fn joined_words_split_into_the_same_words() {
    let lists = [strings(&[]), strings(&["a"]), strings(&["hello", "world"]), strings(&["x", "-", "é"])];
    for words in lists.iter() {
        assert_eq!(&split_words(&join_words(words)), words);
    }
}
