use aghpb::client::{book_response, categories_response, error_from_body, search_response};
use aghpb::{ApiError, BookDate};

fn header_pairs() -> Vec<(String, String)> {
    vec![
        ("book-name".to_string(), "Kanna".to_string()),
        ("book-category".to_string(), "rust".to_string()),
        ("book-date-added".to_string(), "2023-01-01 00:00:00+0000".to_string()),
        ("book-search-id".to_string(), "abc".to_string()),
        ("book-commit-url".to_string(), "https://example.test/commit".to_string()),
        ("book-commit-author".to_string(), "goldy".to_string()),
    ]
}

fn without(key: &str) -> Vec<(String, String)> {
    header_pairs().into_iter().filter(|(k, _)| k != key).collect()
}

#[test]
fn successful_book_response_carries_metadata_and_bytes() {
    let book = book_response(200, &header_pairs(), vec![1, 2, 3]).unwrap();
    assert_eq!(book.details.name, "Kanna");
    assert_eq!(book.details.category, "rust");
    assert_eq!(
        book.details.date_added,
        BookDate { year: 2023, month: 1, day: 1, hour: 0, minute: 0, second: 0, offset_seconds: 0 }
    );
    assert_eq!(book.details.search_id, "abc");
    assert_eq!(book.details.commit_url, "https://example.test/commit");
    assert_eq!(book.details.commit_author, "goldy");
    assert_eq!(book.raw_bytes, vec![1, 2, 3]);
}

#[test]
fn missing_header_is_reported_by_name() {
    let r = book_response(200, &without("book-name"), vec![1]);
    assert_eq!(r.unwrap_err(), ApiError::MalformedResponse { field: "book-name".to_string() });
    let r = book_response(200, &without("book-commit-author"), vec![1]);
    assert_eq!(
        r.unwrap_err(),
        ApiError::MalformedResponse { field: "book-commit-author".to_string() }
    );
}

#[test]
fn unparseable_date_header_is_malformed() {
    let mut headers = without("book-date-added");
    headers.push(("book-date-added".to_string(), "yesterday".to_string()));
    let r = book_response(200, &headers, vec![1]);
    assert_eq!(
        r.unwrap_err(),
        ApiError::MalformedResponse { field: "book-date-added".to_string() }
    );
}

#[test]
fn date_offset_is_kept_in_seconds() {
    let mut headers = without("book-date-added");
    headers.push(("book-date-added".to_string(), "2021-06-05 12:34:56+0530".to_string()));
    let book = book_response(200, &headers, vec![9]).unwrap();
    assert_eq!(
        book.details.date_added,
        BookDate {
            year: 2021,
            month: 6,
            day: 5,
            hour: 12,
            minute: 34,
            second: 56,
            offset_seconds: 19800,
        }
    );
}

#[test]
fn empty_search_id_header_is_malformed() {
    let mut headers = without("book-search-id");
    headers.push(("book-search-id".to_string(), "".to_string()));
    let r = book_response(200, &headers, vec![1]);
    assert_eq!(r.unwrap_err(), ApiError::MalformedResponse { field: "book-search-id".to_string() });
}

#[test]
fn empty_success_body_is_malformed() {
    let r = book_response(200, &header_pairs(), Vec::new());
    assert_eq!(r.unwrap_err(), ApiError::MalformedResponse { field: "body".to_string() });
}

#[test]
fn first_header_of_a_name_wins() {
    let mut headers = header_pairs();
    headers.push(("book-name".to_string(), "shadowed".to_string()));
    let book = book_response(200, &headers, vec![1]).unwrap();
    assert_eq!(book.details.name, "Kanna");
}

#[test]
fn well_formed_error_body_is_surfaced_verbatim() {
    let body = br#"{"error":"E","message":"M"}"#;
    for status in [300u16, 400, 404, 418, 500, 503] {
        let r = book_response(status, &header_pairs(), body.to_vec());
        assert_eq!(
            r.unwrap_err(),
            ApiError::Api { error: "E".to_string(), message: "M".to_string() }
        );
    }
}

#[test]
fn unparseable_error_body_is_malformed_never_a_book() {
    for status in [300u16, 404, 500] {
        let r = book_response(status, &header_pairs(), b"not json at all".to_vec());
        assert_eq!(r.unwrap_err(), ApiError::MalformedResponse { field: "body".to_string() });
    }
}

#[test]
fn error_body_missing_a_key_is_malformed() {
    assert_eq!(
        error_from_body(br#"{"message":"M"}"#),
        ApiError::MalformedResponse { field: "error".to_string() }
    );
    assert_eq!(
        error_from_body(br#"{"error":"E"}"#),
        ApiError::MalformedResponse { field: "message".to_string() }
    );
}

#[test]
fn categories_are_returned_in_order() {
    let r = categories_response(200, br#"["ada","rust","haskell"]"#).unwrap();
    assert_eq!(r, vec!["ada".to_string(), "rust".to_string(), "haskell".to_string()]);
}

#[test]
fn categories_with_a_non_array_body_are_malformed() {
    let r = categories_response(200, br#"{"not":"an array"}"#);
    assert_eq!(r.unwrap_err(), ApiError::MalformedResponse { field: "body".to_string() });
}

#[test]
fn categories_error_responses_follow_the_same_taxonomy() {
    let r = categories_response(403, br#"{"error":"forbidden","message":"no"}"#);
    assert_eq!(
        r.unwrap_err(),
        ApiError::Api { error: "forbidden".to_string(), message: "no".to_string() }
    );
    let r = categories_response(502, b"<html>");
    assert_eq!(r.unwrap_err(), ApiError::MalformedResponse { field: "body".to_string() });
}

#[test]
fn search_parses_one_entry_exactly() {
    let body = br#"[{"name":"X","category":"C","date_added":"2023-01-01 00:00:00+0000","search_id":"abc","commit_url":"u","commit_author":"a"}]"#;
    let books = search_response(200, body).unwrap();
    assert_eq!(books.len(), 1);
    assert_eq!(books[0].name, "X");
    assert_eq!(books[0].category, "C");
    assert_eq!(
        books[0].date_added,
        BookDate { year: 2023, month: 1, day: 1, hour: 0, minute: 0, second: 0, offset_seconds: 0 }
    );
    assert_eq!(books[0].search_id, "abc");
    assert_eq!(books[0].commit_url, "u");
    assert_eq!(books[0].commit_author, "a");
}

#[test]
fn search_with_an_empty_array_yields_no_books() {
    assert_eq!(search_response(200, b"[]").unwrap(), Vec::new());
}

#[test]
fn search_entry_missing_a_key_is_reported_by_name() {
    let body = br#"[{"name":"X","category":"C","date_added":"2023-01-01 00:00:00+0000","search_id":"abc","commit_url":"u"}]"#;
    let r = search_response(200, body);
    assert_eq!(r.unwrap_err(), ApiError::MalformedResponse { field: "commit_author".to_string() });
}

#[test]
fn search_with_a_non_object_array_body_is_malformed() {
    let r = search_response(200, br#"["just","strings"]"#);
    assert_eq!(r.unwrap_err(), ApiError::MalformedResponse { field: "body".to_string() });
}

#[test]
fn search_error_responses_follow_the_same_taxonomy() {
    let r = search_response(404, br#"{"error":"E","message":"M"}"#);
    assert_eq!(r.unwrap_err(), ApiError::Api { error: "E".to_string(), message: "M".to_string() });
}
