//! Books and their metadata, and the one routine that extracts metadata from
//! a set of named fields.
//!
//! The service reports metadata twice over: as custom response headers on the
//! image endpoints and as JSON object keys on the search endpoint. Both come
//! down to looking fields up by name, so a single extraction routine serves
//! both, parameterised by the six field names.
use crate::dates::{date_of, date_wf, parse_book_date, BookDate};
use crate::errors::{ApiError, ApiErrorModel, DecodeError};
use vstd::prelude::*;
use vstd::string::StringExecFns;

verus! {

/// Mathematical model of [`BookData`]: every string abstracted to its
/// character sequence.
pub ghost struct BookDataModel {
    pub name: Seq<char>,
    pub category: Seq<char>,
    pub date_added: BookDate,
    pub search_id: Seq<char>,
    pub commit_url: Seq<char>,
    pub commit_author: Seq<char>,
}

/// The metadata of one book. Immutable once constructed: either every field
/// was present and valid in the response, or no value exists at all.
#[derive(Debug, Clone, PartialEq, Eq)]
pub struct BookData {
    /// Title of the book.
    pub name: String,
    /// Category the book is filed under.
    pub category: String,
    /// When the book was added, with its explicit UTC offset.
    pub date_added: BookDate,
    /// Identifier for fetching this exact book; stored raw (unencoded).
    pub search_id: String,
    /// Provenance link for the image.
    pub commit_url: String,
    /// Attribution for the image.
    pub commit_author: String,
}

impl View for BookData {
    type V = BookDataModel;

    open spec fn view(&self) -> BookDataModel {
        BookDataModel {
            name: self.name@,
            category: self.category@,
            date_added: self.date_added,
            search_id: self.search_id@,
            commit_url: self.commit_url@,
            commit_author: self.commit_author@,
        }
    }
}

impl DeepView for BookData {
    type V = BookDataModel;

    open spec fn deep_view(&self) -> BookDataModel {
        self.view()
    }
}

/// The invariant of every metadata value the library hands out: the search
/// id is non-empty and the date fields lie in their calendar ranges.
pub open spec fn book_data_wf(d: BookDataModel) -> bool {
    &&& d.search_id.len() > 0
    &&& date_wf(d.date_added)
}

/// The value of the first field with the given name, if any.
pub open spec fn spec_lookup(fields: Seq<(Seq<char>, Seq<char>)>, key: Seq<char>) -> Option<
    Seq<char>,
>
    decreases fields.len(),
{
    if fields.len() == 0 {
        None
    } else if fields[0].0 == key {
        Some(fields[0].1)
    } else {
        spec_lookup(fields.skip(1), key)
    }
}

/// Returns the value of the first field with the given name, if any.
pub(crate) fn lookup_field(fields: &Vec<(String, String)>, key: &String) -> (r: Option<String>)
    ensures
        match r {
            Some(v) => spec_lookup(fields.deep_view(), key@) == Some(v@),
            None => spec_lookup(fields.deep_view(), key@) is None,
        },
{
    let ghost m = fields.deep_view();
    proof {
        assert(m.skip(0) =~= m);
        assert(m.len() == fields@.len());
    }
    let mut i: usize = 0;
    while i < fields.len()
        invariant
            i <= fields.len(),
            m == fields.deep_view(),
            m.len() == fields@.len(),
            spec_lookup(m, key@) == spec_lookup(m.skip(i as int), key@),
        decreases fields.len() - i,
    {
        proof {
            assert(m.skip(i as int).len() == m.len() - i);
            assert(m.skip(i as int)[0] == m[i as int]);
            assert(m[i as int] == (fields@[i as int].0@, fields@[i as int].1@));
        }
        let matched = fields[i].0 == *key;
        if matched {
            proof {
                assert(m.skip(i as int)[0].0 == key@);
                assert(spec_lookup(m.skip(i as int), key@) == Some(m.skip(i as int)[0].1));
            }
            return Some(fields[i].1.clone());
        }
        proof {
            assert(m.skip(i as int)[0].0 != key@);
            assert(spec_lookup(m.skip(i as int), key@) == spec_lookup(
                m.skip(i as int).skip(1),
                key@,
            ));
            assert(m.skip(i as int).skip(1) =~= m.skip(i as int + 1));
        }
        i += 1;
    }
    proof {
        assert(m.skip(i as int) =~= Seq::<(Seq<char>, Seq<char>)>::empty());
        assert(spec_lookup(m, key@) is None);
    }
    None
}

/// What extracting metadata from a set of fields yields: the parsed model,
/// or the name of the first field (in the fixed order name, category, date,
/// search id, commit url, commit author) that is missing or invalid. A
/// present but unparseable date and a present but empty search id are
/// invalid; everything else only has to be present.
pub open spec fn spec_parse_metadata(
    fields: Seq<(Seq<char>, Seq<char>)>,
    name_key: Seq<char>,
    category_key: Seq<char>,
    date_key: Seq<char>,
    search_id_key: Seq<char>,
    commit_url_key: Seq<char>,
    commit_author_key: Seq<char>,
) -> Result<BookDataModel, Seq<char>> {
    if spec_lookup(fields, name_key) is None {
        Err(name_key)
    } else if spec_lookup(fields, category_key) is None {
        Err(category_key)
    } else if spec_lookup(fields, date_key) is None {
        Err(date_key)
    } else if date_of(spec_lookup(fields, date_key)->Some_0) is None {
        Err(date_key)
    } else if spec_lookup(fields, search_id_key) is None {
        Err(search_id_key)
    } else if spec_lookup(fields, search_id_key)->Some_0.len() == 0 {
        Err(search_id_key)
    } else if spec_lookup(fields, commit_url_key) is None {
        Err(commit_url_key)
    } else if spec_lookup(fields, commit_author_key) is None {
        Err(commit_author_key)
    } else {
        Ok(
            BookDataModel {
                name: spec_lookup(fields, name_key)->Some_0,
                category: spec_lookup(fields, category_key)->Some_0,
                date_added: date_of(spec_lookup(fields, date_key)->Some_0)->Some_0,
                search_id: spec_lookup(fields, search_id_key)->Some_0,
                commit_url: spec_lookup(fields, commit_url_key)->Some_0,
                commit_author: spec_lookup(fields, commit_author_key)->Some_0,
            },
        )
    }
}

/// Extracts the six metadata fields by name, in the fixed order of
/// [`spec_parse_metadata`]; the first missing or invalid field aborts the
/// extraction with a malformed-response error naming it. No default is ever
/// substituted for a missing field.
pub(crate) fn parse_metadata(
    fields: &Vec<(String, String)>,
    name_key: &String,
    category_key: &String,
    date_key: &String,
    search_id_key: &String,
    commit_url_key: &String,
    commit_author_key: &String,
) -> (r: Result<BookData, ApiError>)
    ensures
        match r {
            Ok(d) => {
                &&& spec_parse_metadata(
                    fields.deep_view(),
                    name_key@,
                    category_key@,
                    date_key@,
                    search_id_key@,
                    commit_url_key@,
                    commit_author_key@,
                ) == Ok::<BookDataModel, Seq<char>>(d@)
                &&& book_data_wf(d@)
            },
            Err(e) => spec_parse_metadata(
                fields.deep_view(),
                name_key@,
                category_key@,
                date_key@,
                search_id_key@,
                commit_url_key@,
                commit_author_key@,
            ) matches Err(f) && e@ == (ApiErrorModel::MalformedResponse { field: f }),
        },
{
    let name = match lookup_field(fields, name_key) {
        Some(v) => v,
        None => {
            return Err(ApiError::MalformedResponse { field: name_key.clone() });
        },
    };
    let category = match lookup_field(fields, category_key) {
        Some(v) => v,
        None => {
            return Err(ApiError::MalformedResponse { field: category_key.clone() });
        },
    };
    let date_text = match lookup_field(fields, date_key) {
        Some(v) => v,
        None => {
            return Err(ApiError::MalformedResponse { field: date_key.clone() });
        },
    };
    let date_added = match parse_book_date(date_text.as_str()) {
        Some(d) => d,
        None => {
            return Err(ApiError::MalformedResponse { field: date_key.clone() });
        },
    };
    let search_id = match lookup_field(fields, search_id_key) {
        Some(v) => v,
        None => {
            return Err(ApiError::MalformedResponse { field: search_id_key.clone() });
        },
    };
    if search_id.as_str().is_empty() {
        return Err(ApiError::MalformedResponse { field: search_id_key.clone() });
    }
    let commit_url = match lookup_field(fields, commit_url_key) {
        Some(v) => v,
        None => {
            return Err(ApiError::MalformedResponse { field: commit_url_key.clone() });
        },
    };
    let commit_author = match lookup_field(fields, commit_author_key) {
        Some(v) => v,
        None => {
            return Err(ApiError::MalformedResponse { field: commit_author_key.clone() });
        },
    };
    Ok(BookData { name, category, date_added, search_id, commit_url, commit_author })
}

/// What parsing one JSON search entry yields: metadata extracted under the
/// JSON key names, or the name of the first missing or invalid key.
pub open spec fn spec_book_from_fields(fields: Seq<(Seq<char>, Seq<char>)>) -> Result<
    BookDataModel,
    Seq<char>,
> {
    spec_parse_metadata(
        fields,
        "name"@,
        "category"@,
        "date_added"@,
        "search_id"@,
        "commit_url"@,
        "commit_author"@,
    )
}

impl BookData {
    /// Creates a book's metadata from the key-value pairs of one JSON search
    /// entry, reporting the first missing or invalid key as a
    /// malformed-response error.
    pub fn from_json(fields: &Vec<(String, String)>) -> (r: Result<BookData, ApiError>)
        ensures
            match r {
                Ok(d) => spec_book_from_fields(fields.deep_view()) == Ok::<
                    BookDataModel,
                    Seq<char>,
                >(d@) && book_data_wf(d@),
                Err(e) => spec_book_from_fields(fields.deep_view()) matches Err(f) && e@ == (
                ApiErrorModel::MalformedResponse { field: f }),
            },
    {
        parse_metadata(
            fields,
            &String::from_str("name"),
            &String::from_str("category"),
            &String::from_str("date_added"),
            &String::from_str("search_id"),
            &String::from_str("commit_url"),
            &String::from_str("commit_author"),
        )
    }
}

/// Mathematical model of a [`Book`]: its metadata model plus the raw bytes.
pub ghost struct BookModel {
    pub details: BookDataModel,
    pub raw_bytes: Seq<u8>,
}

/// A fetched book: its metadata and the raw image payload. The byte buffer
/// is the authoritative payload; a decoded raster image is derived on demand
/// by [`Book::to_image`] and never cached.
#[derive(Debug, Clone, PartialEq, Eq)]
pub struct Book {
    /// The book's metadata, taken from the response headers.
    pub details: BookData,
    /// The raw image bytes, exactly as the service sent them.
    pub raw_bytes: Vec<u8>,
}

impl View for Book {
    type V = BookModel;

    open spec fn view(&self) -> BookModel {
        BookModel { details: self.details@, raw_bytes: self.raw_bytes@ }
    }
}

impl DeepView for Book {
    type V = BookModel;

    open spec fn deep_view(&self) -> BookModel {
        self.view()
    }
}

/// The invariant of every book the library hands out: well-formed metadata
/// and a non-empty payload.
pub open spec fn book_wf(b: BookModel) -> bool {
    &&& book_data_wf(b.details)
    &&& b.raw_bytes.len() > 0
}

/// What building a book from a success response yields: metadata extracted
/// under the header names, attached to the body bytes; an empty body is
/// malformed (the field name `body` reports it), and so is any missing or
/// invalid header.
pub open spec fn spec_book_from_response(
    headers: Seq<(Seq<char>, Seq<char>)>,
    bytes: Seq<u8>,
) -> Result<BookModel, Seq<char>> {
    if bytes.len() == 0 {
        Err("body"@)
    } else {
        match spec_parse_metadata(
            headers,
            "book-name"@,
            "book-category"@,
            "book-date-added"@,
            "book-search-id"@,
            "book-commit-url"@,
            "book-commit-author"@,
        ) {
            Ok(d) => Ok(BookModel { details: d, raw_bytes: bytes }),
            Err(f) => Err(f),
        }
    }
}

impl Book {
    /// Creates a book from a success response's headers and body bytes,
    /// reporting the first missing or invalid header, or an empty body, as a
    /// malformed-response error.
    pub fn from_response(headers: &Vec<(String, String)>, bytes: Vec<u8>) -> (r: Result<
        Book,
        ApiError,
    >)
        ensures
            match r {
                Ok(b) => spec_book_from_response(headers.deep_view(), bytes@) == Ok::<
                    BookModel,
                    Seq<char>,
                >(b@) && book_wf(b@),
                Err(e) => spec_book_from_response(headers.deep_view(), bytes@) matches Err(f)
                    && e@ == (ApiErrorModel::MalformedResponse { field: f }),
            },
    {
        if bytes.len() == 0 {
            return Err(ApiError::MalformedResponse { field: String::from_str("body") });
        }
        let details = match parse_metadata(
            headers,
            &String::from_str("book-name"),
            &String::from_str("book-category"),
            &String::from_str("book-date-added"),
            &String::from_str("book-search-id"),
            &String::from_str("book-commit-url"),
            &String::from_str("book-commit-author"),
        ) {
            Ok(d) => d,
            Err(e) => {
                return Err(e);
            },
        };
        Ok(Book { details, raw_bytes: bytes })
    }

    /// Decodes the raw payload into a raster image; the decode re-reads
    /// `raw_bytes` on every call and succeeds exactly when the bytes are one
    /// of the supported image encodings.
    pub fn to_image(&self) -> (r: Result<image::DynamicImage, DecodeError>)
        ensures
            r is Ok <==> image_decodes(self.raw_bytes@),
    {
        match decode_image_bytes(self.raw_bytes.as_slice()) {
            Ok(img) => Ok(img),
            Err(_) => Err(DecodeError {  }),
        }
    }
}

#[verifier::external_type_specification]
#[verifier::external_body]
pub struct ExDynamicImage(image::DynamicImage);

#[verifier::external_type_specification]
#[verifier::external_body]
pub struct ExImageError(image::ImageError);

/// Whether a byte sequence is a well-formed image in one of the supported
/// encodings. A function of the bytes alone.
pub uninterp spec fn image_decodes(bytes: Seq<u8>) -> bool;

/// Relies on `image::load_from_memory`: it guesses the format from the bytes
/// and decodes them, returning an error (never panicking) on malformed input.
/// Whether the decode succeeds depends on the bytes alone.
#[verifier::external_body]
pub(crate) fn decode_image_bytes(bytes: &[u8]) -> (r: Result<
    image::DynamicImage,
    image::ImageError,
>)
    ensures
        r is Ok == image_decodes(bytes@),
{
    image::load_from_memory(bytes)
}

} // verus!
