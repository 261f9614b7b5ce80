use manifold_markets::error::{ErrorKind, ManifoldError, TransportFailure};
use manifold_markets::page::{read_page, Decode, Element, Page};
use manifold_markets::streams::{
    copy_params, is_cursor_free, page_params, PaginatedStream, Step,
};
use serde_json::Value;

/// A record for the tests: an object with a string `id` and an integer `n`.
#[derive(Debug, Clone, PartialEq)]
struct Numbered {
    id: String,
    n: i64,
}

impl Decode for Numbered {
    fn decode(raw: &Value) -> Result<Numbered, String> {
        match (raw["id"].as_str(), raw["n"].as_i64()) {
            (Some(id), Some(n)) => Ok(Numbered { id: id.to_owned(), n }),
            _ => Err(format!("not numbered: {}", raw)),
        }
    }
}

fn json(text: &str) -> Value {
    serde_json::from_str(text).unwrap()
}

fn good(id: &str, n: i64) -> Element<Numbered> {
    Element {
        raw: json(&format!("{{\"id\":\"{}\",\"n\":{}}}", id, n)),
        id: Ok(id.to_owned()),
        item: Ok(Numbered { id: id.to_owned(), n }),
    }
}

fn page_of(first: i64, count: i64) -> Page<Numbered> {
    Page::Elements((first..first + count).map(|n| good(&format!("id{}", n), n)).collect())
}

fn param(name: &str, value: &str) -> (String, String) {
    (name.to_owned(), value.to_owned())
}

/// What a consumer saw of a stream that was driven with scripted pages.
struct Seen {
    requests: Vec<Vec<(String, String)>>,
    items: Vec<Numbered>,
    errors: Vec<ManifoldError>,
    ended: bool,
}

fn drive(stream: &mut PaginatedStream<Numbered>, script: Vec<Page<Numbered>>) -> Seen {
    let mut seen = Seen { requests: vec![], items: vec![], errors: vec![], ended: false };
    let mut script = script.into_iter();
    loop {
        match stream.poll() {
            Step::Item(item) => {
                assert!(seen.errors.is_empty());
                seen.items.push(item);
            }
            Step::Fail(error) => seen.errors.push(error),
            Step::End => {
                seen.ended = true;
                return seen;
            }
            Step::Fetch(params) => {
                seen.requests.push(params);
                match script.next() {
                    Some(page) => stream.receive(page),
                    None => return seen,
                }
            }
        }
    }
}

fn markets() -> PaginatedStream<Numbered> {
    PaginatedStream::new("/markets".to_owned(), vec![param("limit", "3")])
}

#[test]
fn pages_of_sizes_two_three_zero_yield_five_items_and_end() {
    let mut stream = markets();
    let seen = drive(&mut stream, vec![page_of(0, 2), page_of(2, 3), page_of(5, 0)]);
    assert_eq!(seen.items.len(), 5);
    assert!(seen.errors.is_empty());
    assert!(seen.ended);
    assert_eq!(seen.requests.len(), 3);
    assert!(stream.is_done());
}

#[test]
fn every_later_request_carries_the_last_id_of_the_page_before() {
    let mut stream = markets();
    let seen = drive(&mut stream, vec![page_of(0, 2), page_of(2, 3), page_of(5, 0)]);
    assert_eq!(seen.requests[0], vec![param("limit", "3")]);
    assert_eq!(seen.requests[1], vec![param("limit", "3"), param("before", "id1")]);
    assert_eq!(seen.requests[2], vec![param("limit", "3"), param("before", "id4")]);
}

#[test]
fn the_cursor_is_the_id_of_the_last_raw_element_not_of_the_last_record() {
    let mut last = good("shown", 1);
    last.id = Ok("raw-last".to_owned());
    let mut stream = markets();
    let seen = drive(&mut stream, vec![Page::Elements(vec![good("a", 0), last])]);
    assert_eq!(seen.items.len(), 2);
    assert_eq!(seen.requests[1], vec![param("limit", "3"), param("before", "raw-last")]);
    assert!(!seen.ended);
}

#[test]
fn items_come_in_server_order_across_pages() {
    let mut stream = markets();
    let seen = drive(&mut stream, vec![page_of(0, 2), page_of(2, 3), page_of(5, 0)]);
    let numbers: Vec<i64> = seen.items.iter().map(|item| item.n).collect();
    assert_eq!(numbers, vec![0, 1, 2, 3, 4]);
    let ids: Vec<&str> = seen.items.iter().map(|item| item.id.as_str()).collect();
    assert_eq!(ids, vec!["id0", "id1", "id2", "id3", "id4"]);
}

#[test]
fn an_empty_first_page_yields_nothing_and_no_error() {
    let mut stream = markets();
    let seen = drive(&mut stream, vec![page_of(0, 0), page_of(0, 2)]);
    assert!(seen.items.is_empty());
    assert!(seen.errors.is_empty());
    assert!(seen.ended);
    assert_eq!(seen.requests.len(), 1);
}

#[test]
fn a_decode_failure_at_element_three_of_five_yields_no_item_of_the_page() {
    let mut elements: Vec<Element<Numbered>> =
        (0..5).map(|n| good(&format!("id{}", n), n)).collect();
    elements[2].raw = json("{\"id\":\"id2\",\"n\":\"two\"}");
    elements[2].item = Err("n is no number".to_owned());
    let mut stream = markets();
    let seen = drive(&mut stream, vec![Page::Elements(elements), page_of(5, 1)]);
    assert!(seen.items.is_empty());
    assert_eq!(
        seen.errors,
        vec![ManifoldError::ParseError(
            "n is no number".to_owned(),
            json("{\"id\":\"id2\",\"n\":\"two\"}")
        )]
    );
    assert_eq!(seen.errors[0].kind(), ErrorKind::Decode);
    assert!(seen.ended);
    assert_eq!(seen.requests.len(), 1);
}

#[test]
fn a_decode_failure_on_a_later_page_keeps_the_items_of_the_pages_before() {
    let mut elements: Vec<Element<Numbered>> =
        (2..4).map(|n| good(&format!("id{}", n), n)).collect();
    elements[0].item = Err("first".to_owned());
    elements[1].item = Err("second".to_owned());
    let mut stream = markets();
    let seen = drive(&mut stream, vec![page_of(0, 2), Page::Elements(elements)]);
    assert_eq!(seen.items.len(), 2);
    assert_eq!(seen.errors.len(), 1);
    assert_eq!(
        seen.errors[0],
        ManifoldError::ParseError("first".to_owned(), json("{\"id\":\"id2\",\"n\":2}"))
    );
    assert!(seen.ended);
}

#[test]
fn a_last_element_without_a_string_id_yields_one_schema_error() {
    let mut elements: Vec<Element<Numbered>> =
        (0..3).map(|n| good(&format!("id{}", n), n)).collect();
    elements[2].id = Err(json("17"));
    let mut stream = markets();
    let seen = drive(&mut stream, vec![Page::Elements(elements), page_of(3, 1)]);
    assert!(seen.items.is_empty());
    assert_eq!(
        seen.errors,
        vec![ManifoldError::SchemaError("Not a string id?".to_owned(), Some(json("17")))]
    );
    assert_eq!(seen.errors[0].kind(), ErrorKind::SchemaViolation);
    assert!(seen.ended);
    assert_eq!(seen.requests.len(), 1);
}

#[test]
fn a_missing_id_outranks_a_decode_failure() {
    let mut elements: Vec<Element<Numbered>> =
        (0..2).map(|n| good(&format!("id{}", n), n)).collect();
    elements[0].item = Err("broken".to_owned());
    elements[1].id = Err(Value::Null);
    let mut stream = markets();
    let seen = drive(&mut stream, vec![Page::Elements(elements)]);
    assert_eq!(
        seen.errors,
        vec![ManifoldError::SchemaError("Not a string id?".to_owned(), Some(Value::Null))]
    );
}

#[test]
fn an_element_without_id_that_is_not_the_last_does_no_harm() {
    let mut elements: Vec<Element<Numbered>> =
        (0..2).map(|n| good(&format!("id{}", n), n)).collect();
    elements[0].id = Err(Value::Null);
    let mut stream = markets();
    let seen = drive(&mut stream, vec![Page::Elements(elements), page_of(0, 0)]);
    assert_eq!(seen.items.len(), 2);
    assert!(seen.errors.is_empty());
    assert_eq!(seen.requests[1], vec![param("limit", "3"), param("before", "id1")]);
}

#[test]
fn a_response_that_is_an_object_yields_one_schema_error_before_any_item() {
    let mut stream = markets();
    let seen = drive(&mut stream, vec![Page::NotArray(json("{\"message\":\"no\"}")), page_of(0, 1)]);
    assert!(seen.items.is_empty());
    assert_eq!(
        seen.errors,
        vec![ManifoldError::SchemaError(
            "Streaming response returned not an array?".to_owned(),
            Some(json("{\"message\":\"no\"}"))
        )]
    );
    assert_eq!(seen.errors[0].kind(), ErrorKind::SchemaViolation);
    assert!(seen.ended);
    assert_eq!(seen.requests.len(), 1);
}

#[test]
fn a_transport_failure_is_handed_out_and_ends_the_stream() {
    let mut stream = markets();
    let seen = drive(
        &mut stream,
        vec![page_of(0, 1), Page::Failure(TransportFailure::Status(503)), page_of(1, 1)],
    );
    assert_eq!(seen.items.len(), 1);
    assert_eq!(seen.errors, vec![ManifoldError::HttpError(TransportFailure::Status(503))]);
    assert_eq!(seen.errors[0].kind(), ErrorKind::Transport);
    assert!(seen.ended);
    assert_eq!(seen.requests.len(), 2);
}

#[test]
fn two_streams_from_the_same_parameters_do_not_see_each_others_cursor() {
    let base = vec![param("userId", "u")];
    let mut one: PaginatedStream<Numbered> =
        PaginatedStream::new("/bets".to_owned(), copy_params(&base));
    let mut two: PaginatedStream<Numbered> =
        PaginatedStream::new("/bets".to_owned(), copy_params(&base));
    assert_eq!(one.poll(), Step::Fetch(base.clone()));
    one.receive(page_of(0, 1));
    assert_eq!(two.poll(), Step::Fetch(base.clone()));
    assert!(matches!(one.poll(), Step::Item(_)));
    two.receive(page_of(10, 1));
    assert_eq!(one.poll(), Step::Fetch(vec![param("userId", "u"), param("before", "id0")]));
    assert!(matches!(two.poll(), Step::Item(_)));
    one.receive(page_of(1, 1));
    assert_eq!(two.poll(), Step::Fetch(vec![param("userId", "u"), param("before", "id10")]));
    assert!(matches!(one.poll(), Step::Item(_)));
    assert_eq!(one.poll(), Step::Fetch(vec![param("userId", "u"), param("before", "id1")]));
    assert_eq!(one.params(), &base);
    assert_eq!(two.params(), &base);
    assert_eq!(base, vec![param("userId", "u")]);
}

#[test]
fn no_page_is_asked_for_while_items_are_pending() {
    let mut stream = markets();
    assert!(matches!(stream.poll(), Step::Fetch(_)));
    stream.receive(page_of(0, 2));
    assert_eq!(stream.poll(), Step::Item(Numbered { id: "id0".to_owned(), n: 0 }));
    assert_eq!(stream.poll(), Step::Item(Numbered { id: "id1".to_owned(), n: 1 }));
    assert!(matches!(stream.poll(), Step::Fetch(_)));
}

#[test]
fn a_page_that_was_not_asked_for_is_dropped() {
    let mut stream = markets();
    assert!(matches!(stream.poll(), Step::Fetch(_)));
    stream.receive(page_of(0, 2));
    stream.receive(page_of(7, 2));
    assert_eq!(stream.poll(), Step::Item(Numbered { id: "id0".to_owned(), n: 0 }));
    stream.receive(Page::NotArray(Value::Null));
    assert_eq!(stream.poll(), Step::Item(Numbered { id: "id1".to_owned(), n: 1 }));
    assert_eq!(
        stream.poll(),
        Step::Fetch(vec![param("limit", "3"), param("before", "id1")])
    );
    stream.receive(page_of(0, 0));
    assert_eq!(stream.poll(), Step::End);
    stream.receive(page_of(0, 2));
    assert_eq!(stream.poll(), Step::End);
    assert!(stream.is_done());
}

#[test]
fn asking_again_before_the_page_is_in_repeats_the_request() {
    let mut stream = markets();
    assert_eq!(stream.poll(), Step::Fetch(vec![param("limit", "3")]));
    assert_eq!(stream.poll(), Step::Fetch(vec![param("limit", "3")]));
    assert!(!stream.is_done());
    assert_eq!(stream.path(), "/markets");
}

#[test]
fn nothing_follows_an_error() {
    let mut stream = markets();
    assert!(matches!(stream.poll(), Step::Fetch(_)));
    stream.receive(Page::Failure(TransportFailure::Network("timed out".to_owned())));
    assert!(!stream.is_done());
    assert_eq!(
        stream.poll(),
        Step::Fail(ManifoldError::HttpError(TransportFailure::Network("timed out".to_owned())))
    );
    assert_eq!(stream.poll(), Step::End);
    assert_eq!(stream.poll(), Step::End);
    assert!(stream.is_done());
}

#[test]
fn page_params_appends_the_cursor_to_a_copy() {
    let base = vec![param("a", "1"), param("b", "2")];
    assert_eq!(page_params(&base, None), base);
    let cursor = "xyz".to_owned();
    assert_eq!(
        page_params(&base, Some(&cursor)),
        vec![param("a", "1"), param("b", "2"), param("before", "xyz")]
    );
    assert_eq!(base, vec![param("a", "1"), param("b", "2")]);
    assert_eq!(copy_params(&base), base);
}

#[test]
fn the_name_before_is_reserved() {
    assert!(is_cursor_free(&vec![]));
    assert!(is_cursor_free(&vec![param("limit", "3"), param("Before", "x")]));
    assert!(!is_cursor_free(&vec![param("limit", "3"), param("before", "x")]));
    assert!(!is_cursor_free(&vec![param("before", "x"), param("limit", "3")]));
}

#[test]
fn read_page_reads_every_element_of_an_array() {
    let raw = json("[{\"id\":\"a\",\"n\":1},{\"id\":7,\"n\":2},{\"n\":3},{\"id\":\"d\"}]");
    let page: Page<Numbered> = read_page(Ok(raw));
    let Page::Elements(elements) = page else {
        panic!("an array reads as elements");
    };
    assert_eq!(elements.len(), 4);
    assert_eq!(elements[0].raw, json("{\"id\":\"a\",\"n\":1}"));
    assert_eq!(elements[0].id, Ok("a".to_owned()));
    assert_eq!(elements[0].item, Ok(Numbered { id: "a".to_owned(), n: 1 }));
    assert_eq!(elements[1].id, Err(json("7")));
    assert!(elements[1].item.is_err());
    assert_eq!(elements[2].id, Err(Value::Null));
    assert_eq!(elements[2].raw, json("{\"n\":3}"));
    assert_eq!(elements[3].id, Ok("d".to_owned()));
    assert!(elements[3].item.is_err());
}

#[test]
fn read_page_sets_apart_what_is_no_array() {
    let object: Page<Numbered> = read_page(Ok(json("{\"id\":\"a\"}")));
    assert_eq!(object, Page::NotArray(json("{\"id\":\"a\"}")));
    let text: Page<Numbered> = read_page(Ok(json("\"[]\"")));
    assert_eq!(text, Page::NotArray(json("\"[]\"")));
    let empty: Page<Numbered> = read_page(Ok(json("[]")));
    assert_eq!(empty, Page::Elements(vec![]));
}

#[test]
fn read_page_passes_a_transport_failure_on() {
    let page: Page<Numbered> = read_page(Err(TransportFailure::Status(404)));
    assert_eq!(page, Page::Failure(TransportFailure::Status(404)));
}

#[test]
fn a_stream_over_raw_responses() {
    let mut stream = markets();
    let mut items = vec![];
    let mut responses = vec![
        json("[{\"id\":\"a\",\"n\":1},{\"id\":\"b\",\"n\":2}]"),
        json("[{\"id\":\"c\",\"n\":3}]"),
        json("[{\"id\":\"d\",\"n\":4},{\"id\":\"e\"}]"),
    ]
    .into_iter();
    let mut requests = vec![];
    let error = loop {
        match stream.poll() {
            Step::Item(item) => items.push(item.n),
            Step::Fail(error) => break Some(error),
            Step::End => break None,
            Step::Fetch(params) => {
                requests.push(params);
                stream.receive(read_page(Ok(responses.next().unwrap())));
            }
        }
    };
    assert_eq!(items, vec![1, 2, 3]);
    assert_eq!(requests.len(), 3);
    assert_eq!(requests[2], vec![param("limit", "3"), param("before", "c")]);
    match error {
        Some(ManifoldError::ParseError(_, raw)) => assert_eq!(raw, json("{\"id\":\"e\"}")),
        other => panic!("a decode error was due, not {:?}", other),
    }
    assert_eq!(stream.poll(), Step::End);
}
