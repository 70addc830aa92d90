use actix_web::error::MultipartError;
use actix_web::http::header::{HeaderValue, CONTENT_TYPE};
use actix_web::http::HeaderMap;
use actix_web_multipart_file::decoder::{Action, Decoder, Event};
use actix_web_multipart_file::disposition::{classify, Disposition, Route};
use actix_web_multipart_file::error::{Error, ErrorKind};
use actix_web_multipart_file::field::{Field, FormData, PartHead};
use bytes::Bytes;

fn disposition(form_data: bool, name: Option<&str>, filename: Option<&str>) -> Disposition {
    Disposition {
        form_data,
        name: name.map(|n| n.to_string()),
        filename: filename.map(|f| f.to_string()),
    }
}

fn head(disposition: Option<Disposition>) -> PartHead {
    PartHead {
        headers: HeaderMap::new(),
        content_type: mime::TEXT_PLAIN,
        content_disposition: disposition,
    }
}

fn io_error(text: &str) -> std::io::Error {
    std::io::Error::new(std::io::ErrorKind::Other, text.to_string())
}

fn take(decoder: &mut Decoder, event: Event<u32>) -> Action<u32> {
    match decoder.step(event) {
        Ok(action) => action,
        Err(event) => panic!("the decoder handed back {:?}", event),
    }
}

fn begin_data(decoder: &mut Decoder, name: &str) {
    let action = take(decoder, Event::Leaf(head(Some(disposition(true, Some(name), None)))));
    assert!(matches!(action, Action::NextChunk));
}

fn begin_file(decoder: &mut Decoder, name: &str, filename: &str) {
    let action =
        take(decoder, Event::Leaf(head(Some(disposition(true, Some(name), Some(filename))))));
    assert!(matches!(action, Action::Open));
}

#[test]
fn classify_rejects_missing_disposition() {
    assert!(matches!(classify(&None), Route::Reject));
}

#[test]
fn classify_rejects_other_kinds() {
    let d = disposition(false, Some("a"), Some("f"));
    assert!(matches!(classify(&Some(d)), Route::Reject));
    let d = disposition(false, None, None);
    assert!(matches!(classify(&Some(d)), Route::Reject));
}

#[test]
fn classify_skips_nameless_parts() {
    assert!(matches!(classify(&Some(disposition(true, None, None))), Route::Skip));
    assert!(matches!(classify(&Some(disposition(true, None, Some("f")))), Route::Skip));
}

#[test]
fn classify_routes_by_filename() {
    match classify(&Some(disposition(true, Some("a"), None))) {
        Route::Data { name } => assert_eq!(name, "a"),
        other => panic!("expected data, got {:?}", other),
    }
    match classify(&Some(disposition(true, Some("a"), Some("f.txt")))) {
        Route::File { name, filename } => {
            assert_eq!(name, "a");
            assert_eq!(filename, "f.txt");
        }
        other => panic!("expected a file, got {:?}", other),
    }
    match classify(&Some(disposition(true, Some(""), Some("")))) {
        Route::File { name, filename } => {
            assert_eq!(name, "");
            assert_eq!(filename, "");
        }
        other => panic!("expected a file, got {:?}", other),
    }
}

#[test]
fn disposition_clone_keeps_all() {
    let d = disposition(true, Some("a"), Some("f"));
    let c = d.clone();
    assert_eq!(c.form_data, true);
    assert_eq!(c.name.as_deref(), Some("a"));
    assert_eq!(c.filename.as_deref(), Some("f"));
}

#[test]
fn error_responses() {
    let r = Error::Multipart(MultipartError::Incomplete).error_response();
    assert_eq!((r.status, r.body), (400, "multipart error"));
    let r = Error::NotFormData.error_response();
    assert_eq!((r.status, r.body), (400, "not a form data"));
    let r = Error::Io(io_error("disk")).error_response();
    assert_eq!((r.status, r.body), (500, "file error"));
}

#[test]
fn errors_from_their_causes() {
    assert!(matches!(
        Error::from(MultipartError::Boundary),
        Error::Multipart(MultipartError::Boundary)
    ));
    match Error::from(io_error("disk")) {
        Error::Io(e) => assert_eq!(e.to_string(), "disk"),
        other => panic!("expected an i/o error, got {:?}", other),
    }
}

#[test]
fn field_getters() {
    let mut headers = HeaderMap::new();
    headers.insert(CONTENT_TYPE, HeaderValue::from_static("text/plain"));
    let field: Field<u32> = Field {
        headers,
        content_type: mime::TEXT_PLAIN,
        content_disposition: disposition(true, Some("a"), None),
        form_data: FormData::Data { name: "a".to_string(), value: Bytes::from(&b"v"[..]) },
    };
    assert_eq!(field.headers().get(CONTENT_TYPE).unwrap(), "text/plain");
    assert_eq!(field.headers().len(), 1);
    assert_eq!(*field.content_type(), mime::TEXT_PLAIN);
    let d = field.content_disposition().unwrap();
    assert!(d.form_data);
    assert_eq!(d.name.as_deref(), Some("a"));
    assert_eq!(d.filename, None);
}

#[test]
fn emitted_field_keeps_the_head() {
    let mut headers = HeaderMap::new();
    headers.insert(CONTENT_TYPE, HeaderValue::from_static("image/png"));
    let mut decoder = Decoder::new();
    let action = take(
        &mut decoder,
        Event::Leaf(PartHead {
            headers,
            content_type: mime::IMAGE_PNG,
            content_disposition: Some(disposition(true, Some("pic"), Some("p.png"))),
        }),
    );
    assert!(matches!(action, Action::Open));
    assert!(matches!(take(&mut decoder, Event::Opened), Action::NextChunk));
    assert!(matches!(take(&mut decoder, Event::PartEnd), Action::Rewind));
    match take(&mut decoder, Event::Rewound(7)) {
        Action::Emit(field) => {
            assert_eq!(field.headers().get(CONTENT_TYPE).unwrap(), "image/png");
            assert_eq!(*field.content_type(), mime::IMAGE_PNG);
            assert_eq!(field.content_disposition.name.as_deref(), Some("pic"));
            assert_eq!(field.content_disposition.filename.as_deref(), Some("p.png"));
            match field.form_data {
                FormData::File { name, filename, file } => {
                    assert_eq!(name, "pic");
                    assert_eq!(filename, "p.png");
                    assert_eq!(file, 7);
                }
                other => panic!("expected a file, got {:?}", other),
            }
        }
        other => panic!("expected a field, got {:?}", other),
    }
    assert!(!decoder.is_terminal());
}

#[test]
fn buffer_starts_empty_and_grows_by_each_chunk() {
    let mut decoder = Decoder::new();
    begin_data(&mut decoder, "a");
    assert!(matches!(take(&mut decoder, Event::Chunk(Bytes::from(&b"ab"[..]))), Action::NextChunk));
    assert!(matches!(take(&mut decoder, Event::Chunk(Bytes::from(&b"cd"[..]))), Action::NextChunk));
    match take(&mut decoder, Event::PartEnd) {
        Action::Emit(Field { form_data: FormData::Data { name, value }, .. }) => {
            assert_eq!(name, "a");
            assert_eq!(&value[..], b"abcd");
            assert_eq!(value.len(), 4);
        }
        other => panic!("expected data, got {:?}", other),
    }
}

#[test]
fn spooled_chunks_are_handed_on_as_they_came() {
    let mut decoder = Decoder::new();
    begin_file(&mut decoder, "a", "f");
    assert!(matches!(take(&mut decoder, Event::Opened), Action::NextChunk));
    match take(&mut decoder, Event::Chunk(Bytes::from(&b"one"[..]))) {
        Action::Write(chunk) => assert_eq!(&chunk[..], b"one"),
        other => panic!("expected a write, got {:?}", other),
    }
    assert!(matches!(take(&mut decoder, Event::Written), Action::NextChunk));
    match take(&mut decoder, Event::Chunk(Bytes::new())) {
        Action::Write(chunk) => assert!(chunk.is_empty()),
        other => panic!("expected a write, got {:?}", other),
    }
    assert!(matches!(take(&mut decoder, Event::Written), Action::NextChunk));
    assert!(matches!(take(&mut decoder, Event::PartEnd), Action::Rewind));
    assert!(matches!(take(&mut decoder, Event::Rewound(1)), Action::Emit(_)));
}

#[test]
fn storage_that_does_not_open_ends_the_output() {
    let mut decoder = Decoder::new();
    begin_file(&mut decoder, "a", "f");
    match take(&mut decoder, Event::StorageFailed(io_error("open"))) {
        Action::Fail(Error::Io(e)) => assert_eq!(e.to_string(), "open"),
        other => panic!("expected an i/o error, got {:?}", other),
    }
    assert!(decoder.is_terminal());
}

#[test]
fn write_that_fails_ends_the_output() {
    let mut decoder = Decoder::new();
    begin_file(&mut decoder, "a", "f");
    take(&mut decoder, Event::Opened);
    take(&mut decoder, Event::Chunk(Bytes::from(&b"x"[..])));
    match take(&mut decoder, Event::StorageFailed(io_error("write"))) {
        Action::Fail(Error::Io(e)) => assert_eq!(e.to_string(), "write"),
        other => panic!("expected an i/o error, got {:?}", other),
    }
    assert!(decoder.is_terminal());
}

#[test]
fn rewind_that_fails_ends_the_output() {
    let mut decoder = Decoder::new();
    begin_file(&mut decoder, "a", "f");
    take(&mut decoder, Event::Opened);
    take(&mut decoder, Event::PartEnd);
    match take(&mut decoder, Event::StorageFailed(io_error("seek"))) {
        Action::Fail(Error::Io(e)) => assert_eq!(e.to_string(), "seek"),
        other => panic!("expected an i/o error, got {:?}", other),
    }
    assert!(decoder.is_terminal());
}

#[test]
fn events_out_of_turn_are_handed_back() {
    let mut decoder = Decoder::new();
    assert!(!decoder.accepts(&Event::<u32>::PartEnd));
    assert!(matches!(decoder.step(Event::<u32>::PartEnd), Err(Event::PartEnd)));
    match decoder.step(Event::<u32>::Chunk(Bytes::from(&b"x"[..]))) {
        Err(Event::Chunk(chunk)) => assert_eq!(&chunk[..], b"x"),
        other => panic!("expected the chunk back, got {:?}", other),
    }
    assert!(matches!(decoder.step(Event::Rewound(3)), Err(Event::Rewound(3))));
    assert!(matches!(decoder.step(Event::<u32>::Opened), Err(Event::Opened)));
    assert!(matches!(decoder.step(Event::<u32>::Written), Err(Event::Written)));
    assert!(matches!(
        decoder.step(Event::<u32>::StorageFailed(io_error("x"))),
        Err(Event::StorageFailed(_))
    ));
    // The decoder is as it was: it still takes the first part.
    begin_data(&mut decoder, "a");
    assert!(matches!(decoder.step(Event::<u32>::Nested), Err(Event::Nested)));
    assert!(matches!(decoder.step(Event::<u32>::End), Err(Event::End)));
    assert!(matches!(decoder.step(Event::<u32>::Opened), Err(Event::Opened)));
    assert!(matches!(take(&mut decoder, Event::PartEnd), Action::Emit(_)));
    begin_file(&mut decoder, "b", "f");
    assert!(matches!(decoder.step(Event::<u32>::PartEnd), Err(Event::PartEnd)));
    assert!(matches!(
        decoder.step(Event::<u32>::SourceFailed(MultipartError::Incomplete)),
        Err(Event::SourceFailed(_))
    ));
    assert!(matches!(take(&mut decoder, Event::Opened), Action::NextChunk));
    assert!(matches!(
        decoder.step(Event::<u32>::StorageFailed(io_error("x"))),
        Err(Event::StorageFailed(_))
    ));
}

#[test]
fn nothing_is_taken_after_the_end() {
    let mut decoder = Decoder::new();
    assert!(!decoder.is_terminal());
    assert!(matches!(take(&mut decoder, Event::End), Action::Finish));
    assert!(decoder.is_terminal());
    assert!(!decoder.accepts(&Event::<u32>::End));
    assert!(matches!(decoder.step(Event::<u32>::End), Err(Event::End)));
    assert!(matches!(decoder.step(Event::<u32>::Leaf(head(None))), Err(Event::Leaf(_))));
    assert!(decoder.is_terminal());
}

#[test]
fn nothing_is_taken_after_an_error() {
    let mut decoder = Decoder::new();
    assert!(matches!(
        take(&mut decoder, Event::Leaf(head(None))),
        Action::Fail(Error::NotFormData)
    ));
    assert!(decoder.is_terminal());
    let later = Event::<u32>::Leaf(head(Some(disposition(true, Some("a"), None))));
    assert!(!decoder.accepts(&later));
    assert!(matches!(decoder.step(later), Err(Event::Leaf(_))));
    assert!(matches!(decoder.step(Event::<u32>::End), Err(Event::End)));
}

#[test]
fn end_of_a_nested_sequence_goes_on_with_the_outer_one() {
    let mut decoder = Decoder::new();
    assert!(matches!(take(&mut decoder, Event::Nested), Action::NextItem));
    assert!(matches!(take(&mut decoder, Event::Nested), Action::NextItem));
    assert!(matches!(take(&mut decoder, Event::End), Action::NextItem));
    assert!(matches!(take(&mut decoder, Event::End), Action::NextItem));
    assert!(!decoder.is_terminal());
    assert!(matches!(take(&mut decoder, Event::End), Action::Finish));
    assert!(decoder.is_terminal());
}

#[test]
fn kinds_of_errors() {
    assert_eq!(Error::Multipart(MultipartError::Incomplete).kind(), ErrorKind::Multipart);
    assert_eq!(Error::NotFormData.kind(), ErrorKind::NotFormData);
    assert_eq!(Error::Io(io_error("disk")).kind(), ErrorKind::Io);
    let r = ErrorKind::Multipart.error_response();
    assert_eq!((r.status, r.body), (400, "multipart error"));
    let r = ErrorKind::NotFormData.error_response();
    assert_eq!((r.status, r.body), (400, "not a form data"));
    let r = ErrorKind::Io.error_response();
    assert_eq!((r.status, r.body), (500, "file error"));
}
