use aghpb::{Book, BookData, BookDate, ApiError, DecodeError};
use std::io::Cursor;

fn json_pairs() -> Vec<(String, String)> {
    vec![
        ("name".to_string(), "X".to_string()),
        ("category".to_string(), "C".to_string()),
        ("date_added".to_string(), "2023-01-01 00:00:00+0000".to_string()),
        ("search_id".to_string(), "abc".to_string()),
        ("commit_url".to_string(), "u".to_string()),
        ("commit_author".to_string(), "a".to_string()),
    ]
}

fn sample_data() -> BookData {
    BookData::from_json(&json_pairs()).unwrap()
}

#[test]
fn from_json_parses_every_field() {
    let data = sample_data();
    assert_eq!(data.name, "X");
    assert_eq!(data.category, "C");
    assert_eq!(
        data.date_added,
        BookDate { year: 2023, month: 1, day: 1, hour: 0, minute: 0, second: 0, offset_seconds: 0 }
    );
    assert_eq!(data.search_id, "abc");
    assert_eq!(data.commit_url, "u");
    assert_eq!(data.commit_author, "a");
}

#[test]
fn from_json_reports_the_first_missing_key() {
    let pairs: Vec<(String, String)> =
        json_pairs().into_iter().filter(|(k, _)| k != "category").collect();
    let r = BookData::from_json(&pairs);
    assert_eq!(r.unwrap_err(), ApiError::MalformedResponse { field: "category".to_string() });
}

#[test]
fn from_json_rejects_an_unparseable_date() {
    let mut pairs: Vec<(String, String)> =
        json_pairs().into_iter().filter(|(k, _)| k != "date_added").collect();
    pairs.push(("date_added".to_string(), "2023-01-01".to_string()));
    let r = BookData::from_json(&pairs);
    assert_eq!(r.unwrap_err(), ApiError::MalformedResponse { field: "date_added".to_string() });
}

#[test]
fn from_json_rejects_a_date_without_offset() {
    let mut pairs: Vec<(String, String)> =
        json_pairs().into_iter().filter(|(k, _)| k != "date_added").collect();
    pairs.push(("date_added".to_string(), "2023-01-01 00:00:00".to_string()));
    let r = BookData::from_json(&pairs);
    assert_eq!(r.unwrap_err(), ApiError::MalformedResponse { field: "date_added".to_string() });
}

#[test]
fn from_json_rejects_an_empty_search_id() {
    let mut pairs: Vec<(String, String)> =
        json_pairs().into_iter().filter(|(k, _)| k != "search_id").collect();
    pairs.push(("search_id".to_string(), "".to_string()));
    let r = BookData::from_json(&pairs);
    assert_eq!(r.unwrap_err(), ApiError::MalformedResponse { field: "search_id".to_string() });
}

#[test]
fn from_response_builds_a_book_from_headers_and_bytes() {
    let headers = vec![
        ("book-name".to_string(), "X".to_string()),
        ("book-category".to_string(), "C".to_string()),
        ("book-date-added".to_string(), "2023-01-01 00:00:00+0000".to_string()),
        ("book-search-id".to_string(), "abc".to_string()),
        ("book-commit-url".to_string(), "u".to_string()),
        ("book-commit-author".to_string(), "a".to_string()),
    ];
    let book = Book::from_response(&headers, vec![0xff, 0x00]).unwrap();
    assert_eq!(book.details.name, "X");
    assert_eq!(book.raw_bytes, vec![0xff, 0x00]);
}

#[test]
fn from_response_rejects_an_empty_body() {
    let headers = vec![("book-name".to_string(), "X".to_string())];
    let r = Book::from_response(&headers, Vec::new());
    assert_eq!(r.unwrap_err(), ApiError::MalformedResponse { field: "body".to_string() });
}

#[test]
fn to_image_decodes_a_valid_png() {
    let raster = image::DynamicImage::new_rgb8(2, 2);
    let mut png_bytes: Vec<u8> = Vec::new();
    raster.write_to(&mut Cursor::new(&mut png_bytes), image::ImageFormat::Png).unwrap();
    let book = Book { details: sample_data(), raw_bytes: png_bytes };
    let decoded = book.to_image().unwrap();
    assert_eq!(decoded.width(), 2);
    assert_eq!(decoded.height(), 2);
}

#[test]
fn to_image_rejects_malformed_bytes_without_panicking() {
    let book = Book { details: sample_data(), raw_bytes: vec![1, 2, 3, 4, 5] };
    assert_eq!(book.to_image().unwrap_err(), DecodeError {});
}
