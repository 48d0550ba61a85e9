use s3_fetch::error::ErrorKind;
use s3_fetch::request::DownloadRequest;
use s3_fetch::transfer::{Action, Event, Stage, Transfer};

fn request(bucket: &str, key: &str, destination: &str) -> DownloadRequest {
    DownloadRequest::new(bucket.to_string(), key.to_string(), destination.to_string())
        .expect("request fields must be non-empty")
}

fn error_kind(t: &Transfer) -> Option<ErrorKind> {
    t.error().as_ref().map(|e| e.kind())
}

#[test]
fn happy_path_round_trip() {
    let mut t = Transfer::begin(request("data", "reports/today.bin", "/tmp/today.bin"));
    assert_eq!(t.stage(), Stage::AwaitingResponse);
    assert_eq!(t.written_len(), 0);

    let a = t.step(Event::ResponseOk { content_length: 5 });
    assert_eq!(a, Action::CreateFile);
    assert_eq!(t.stage(), Stage::CreatingFile);
    assert_eq!(t.total(), 5);
    assert!(t.fetched());

    let a = t.step(Event::FileCreated);
    assert_eq!(a, Action::ReadChunk);
    assert_eq!(t.stage(), Stage::WritingBody);
    assert!(t.file_created());

    let a = t.step(Event::ChunkWritten { data: vec![1, 2, 3] });
    assert_eq!(a, Action::ReadChunk);
    assert_eq!(t.written_len(), 3);

    let a = t.step(Event::ChunkWritten { data: vec![4, 5] });
    assert_eq!(a, Action::ReadChunk);
    assert_eq!(t.written_len(), 5);

    let a = t.step(Event::BodyEnd);
    assert_eq!(a, Action::Finish);
    assert_eq!(t.stage(), Stage::Done);
    assert_eq!(t.written_len(), 5);
    assert!(t.error().is_none());
}

#[test]
fn empty_object_downloads_to_empty_file() {
    let mut t = Transfer::begin(request("data", "empty.bin", "/tmp/empty.bin"));
    assert_eq!(t.step(Event::ResponseOk { content_length: 0 }), Action::CreateFile);
    assert_eq!(t.step(Event::FileCreated), Action::ReadChunk);
    assert_eq!(t.step(Event::BodyEnd), Action::Finish);
    assert_eq!(t.stage(), Stage::Done);
    assert_eq!(t.written_len(), 0);
}

#[test]
fn not_found_fails_before_any_file_exists() {
    let mut t = Transfer::begin(request("data", "absent.bin", "/tmp/absent.bin"));
    let a = t.step(Event::ResponseNotFound);
    assert_eq!(a, Action::Report);
    assert_eq!(t.stage(), Stage::Failed);
    assert_eq!(error_kind(&t), Some(ErrorKind::NotFound));
    assert!(t.fetched());
    assert!(!t.file_created());
    assert_eq!(t.written_len(), 0);
}

#[test]
fn access_denied_fails_before_any_file_exists() {
    let mut t = Transfer::begin(request("data", "secret.bin", "/tmp/secret.bin"));
    assert_eq!(t.step(Event::ResponseAccessDenied), Action::Report);
    assert_eq!(t.stage(), Stage::Failed);
    assert_eq!(error_kind(&t), Some(ErrorKind::AccessDenied));
    assert!(!t.file_created());
}

#[test]
fn service_error_keeps_diagnostic_message() {
    let mut t = Transfer::begin(request("data", "object.bin", "/tmp/object.bin"));
    let a = t.step(Event::ResponseService { message: "internal error (500)".to_string() });
    assert_eq!(a, Action::Report);
    let err = t.error().as_ref().expect("a failed transfer carries an error");
    assert_eq!(err.kind(), ErrorKind::Service);
    assert_eq!(err.message(), "internal error (500)");
    assert_eq!(err.context_line(), "failed to get response from the service");
}

#[test]
fn create_failure_comes_after_the_fetch() {
    let mut t = Transfer::begin(request("data", "object.bin", "/no/such/dir/object.bin"));
    assert_eq!(t.step(Event::ResponseOk { content_length: 9 }), Action::CreateFile);
    assert!(t.fetched());
    let a = t.step(Event::FileCreateFailed {
        message: "No such file or directory (os error 2)".to_string(),
    });
    assert_eq!(a, Action::Report);
    assert_eq!(t.stage(), Stage::Failed);
    assert_eq!(error_kind(&t), Some(ErrorKind::Io));
    assert_eq!(t.written_len(), 0);
}

#[test]
fn write_failure_is_an_io_error() {
    let mut t = Transfer::begin(request("data", "object.bin", "/tmp/object.bin"));
    t.step(Event::ResponseOk { content_length: 8 });
    t.step(Event::FileCreated);
    t.step(Event::ChunkWritten { data: vec![7, 7] });
    let a = t.step(Event::WriteFailed { message: "disk full".to_string() });
    assert_eq!(a, Action::Report);
    let err = t.error().as_ref().unwrap();
    assert_eq!(err.kind(), ErrorKind::Io);
    assert_eq!(err.context_line(), "failed to create or write the destination file");
}

#[test]
fn mid_stream_drop_leaves_a_shorter_file() {
    let mut t = Transfer::begin(request("data", "large.bin", "/tmp/large.bin"));
    t.step(Event::ResponseOk { content_length: 10 });
    t.step(Event::FileCreated);
    t.step(Event::ChunkWritten { data: vec![1, 2, 3, 4] });
    let a = t.step(Event::StreamFailed { message: "connection reset by peer".to_string() });
    assert_eq!(a, Action::Report);
    assert_eq!(t.stage(), Stage::Failed);
    let err = t.error().as_ref().unwrap();
    assert_eq!(err.kind(), ErrorKind::Stream);
    assert_eq!(err.message(), "connection reset by peer");
    assert!(t.file_created());
    assert_eq!(t.written_len(), 4);
    assert!(t.written_len() < t.total());
}

#[test]
fn clean_end_short_of_declared_length_is_a_stream_error() {
    let mut t = Transfer::begin(request("data", "cut.bin", "/tmp/cut.bin"));
    t.step(Event::ResponseOk { content_length: 5 });
    t.step(Event::FileCreated);
    t.step(Event::ChunkWritten { data: vec![9, 9, 9] });
    let a = t.step(Event::BodyEnd);
    assert_eq!(a, Action::Report);
    let err = t.error().as_ref().unwrap();
    assert_eq!(err.kind(), ErrorKind::Stream);
    assert_eq!(err.message(), "response body ended before the declared content length");
    assert_eq!(t.written_len(), 3);
}

#[test]
fn oversized_chunk_is_not_accepted() {
    let mut t = Transfer::begin(request("data", "object.bin", "/tmp/object.bin"));
    t.step(Event::ResponseOk { content_length: 4 });
    t.step(Event::FileCreated);
    t.step(Event::ChunkWritten { data: vec![1, 2, 3] });
    assert!(!t.can_accept(&Event::ChunkWritten { data: vec![4, 5] }));
    assert!(t.can_accept(&Event::ChunkWritten { data: vec![4] }));
    assert!(t.can_accept(&Event::BodyEnd));
    assert!(!t.can_accept(&Event::ResponseNotFound));
    assert!(!t.can_accept(&Event::FileCreated));
}

#[test]
fn two_transfers_with_one_client_do_not_interfere() {
    let mut a = Transfer::begin(request("data", "left.bin", "/tmp/left.bin"));
    let mut b = Transfer::begin(request("data", "right.bin", "/tmp/right.bin"));

    a.step(Event::ResponseOk { content_length: 3 });
    b.step(Event::ResponseOk { content_length: 2 });
    a.step(Event::FileCreated);
    b.step(Event::FileCreated);
    a.step(Event::ChunkWritten { data: vec![10, 11] });
    b.step(Event::ChunkWritten { data: vec![20, 21] });
    a.step(Event::ChunkWritten { data: vec![12] });
    assert_eq!(b.step(Event::BodyEnd), Action::Finish);
    assert_eq!(a.step(Event::BodyEnd), Action::Finish);

    assert_eq!(a.stage(), Stage::Done);
    assert_eq!(b.stage(), Stage::Done);
    assert_eq!(a.written_len(), 3);
    assert_eq!(b.written_len(), 2);
    assert_eq!(a.request().key(), "left.bin");
    assert_eq!(b.request().key(), "right.bin");
}

#[test]
fn request_rejects_empty_fields() {
    assert!(DownloadRequest::new("".to_string(), "k".to_string(), "d".to_string()).is_none());
    assert!(DownloadRequest::new("b".to_string(), "".to_string(), "d".to_string()).is_none());
    assert!(DownloadRequest::new("b".to_string(), "k".to_string(), "".to_string()).is_none());
    let r = DownloadRequest::new("b".to_string(), "k".to_string(), "d".to_string())
        .expect("all fields are non-empty");
    assert_eq!(r.bucket(), "b");
    assert_eq!(r.key(), "k");
    assert_eq!(r.destination(), "d");
}
