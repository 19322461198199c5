use file_sharer::bytes::ByteCount;
use file_sharer::config::TokenConfig;
use file_sharer::error::Error;
use file_sharer::ingest::{Action, Event, Ingest};
use file_sharer::sink::FileSink;
use file_sharer::token::Token;

fn ingest() -> Ingest {
    Ingest::new(TokenConfig::new("/data/uploads", &Token::parse("T1").unwrap()))
}

fn field(name: &str) -> Event {
    Event::Field { file_name: Some(String::from(name)) }
}

/// Feeds one whole file of the given chunks.
fn feed(session: &mut Ingest, name: &str, chunks: &[usize]) {
    assert!(matches!(session.step(field(name)), Action::Create(_)));
    assert!(matches!(session.step(Event::Created), Action::NextChunk));
    for len in chunks {
        let chunk = Event::Chunk { len: *len };
        assert!(session.accepts(&chunk));
        assert!(matches!(session.step(chunk), Action::NextChunk));
    }
    assert!(matches!(session.step(Event::EndOfChunks), Action::Close));
    assert!(matches!(session.step(Event::Closed), Action::NextField));
}

fn finished(action: Action) -> (usize, Result<(), Error>) {
    match action {
        Action::Finish { written, outcome } => (written.0, outcome),
        other => panic!("expected the end, got {other:?}"),
    }
}

#[test]
fn files_are_counted_once_closed() {
    let mut session = ingest();
    assert!(matches!(session.step(Event::Begin), Action::NextField));
    feed(&mut session, "a.txt", &[100, 50]);
    assert_eq!(session.total(), ByteCount(150));
    feed(&mut session, "b.txt", &[]);
    feed(&mut session, "c.txt", &[650]);
    assert_eq!(finished(session.step(Event::EndOfFields)), (800, Ok(())));
}

#[test]
fn fields_without_a_file_name_are_passed_over() {
    let mut session = ingest();
    session.step(Event::Begin);
    assert!(matches!(session.step(Event::Field { file_name: None }), Action::NextField));
    assert!(matches!(session.step(Event::Field { file_name: None }), Action::NextField));
    assert_eq!(finished(session.step(Event::EndOfFields)), (0, Ok(())));
}

#[test]
fn files_are_created_below_the_files_directory() {
    let mut session = ingest();
    session.step(Event::Begin);
    match session.step(field("../../../etc/passwd")) {
        Action::Create(path) => assert_eq!(path, "/data/uploads/T1/files/etc/passwd"),
        other => panic!("expected a file, got {other:?}"),
    }
    let mut session = ingest();
    session.step(Event::Begin);
    match session.step(field("/abs/../x/./y.txt")) {
        Action::Create(path) => assert_eq!(path, "/data/uploads/T1/files/x/y.txt"),
        other => panic!("expected a file, got {other:?}"),
    }
}

#[test]
fn a_failed_write_removes_the_partial_file() {
    let mut session = ingest();
    session.step(Event::Begin);
    feed(&mut session, "whole.bin", &[200]);
    session.step(field("partial.bin"));
    session.step(Event::Created);
    session.step(Event::Chunk { len: 50 });
    match session.step(Event::Failed(Error::IoFailure)) {
        Action::Remove(path) => assert_eq!(path, "/data/uploads/T1/files/partial.bin"),
        other => panic!("expected a removal, got {other:?}"),
    }
    assert_eq!(finished(session.step(Event::Removed)), (200, Err(Error::IoFailure)));
}

#[test]
fn a_failed_flush_removes_the_file() {
    let mut session = ingest();
    session.step(Event::Begin);
    session.step(field("a"));
    session.step(Event::Created);
    session.step(Event::Chunk { len: 7 });
    assert!(matches!(session.step(Event::EndOfChunks), Action::Close));
    match session.step(Event::Failed(Error::IoFailure)) {
        Action::Remove(path) => assert_eq!(path, "/data/uploads/T1/files/a"),
        other => panic!("expected a removal, got {other:?}"),
    }
    assert_eq!(finished(session.step(Event::Failed(Error::NotFound))), (0, Err(Error::IoFailure)));
}

#[test]
fn a_file_that_cannot_be_created_leaves_nothing_to_remove() {
    let mut session = ingest();
    session.step(Event::Begin);
    feed(&mut session, "first", &[10]);
    session.step(field(".."));
    assert_eq!(finished(session.step(Event::Failed(Error::IoFailure))), (10, Err(Error::IoFailure)));
}

#[test]
fn a_broken_request_ends_the_ingestion() {
    let mut session = ingest();
    session.step(Event::Begin);
    feed(&mut session, "first", &[10]);
    assert_eq!(finished(session.step(Event::Failed(Error::Malformed))), (10, Err(Error::Malformed)));
    assert_eq!(finished(session.step(Event::Begin)), (10, Err(Error::Malformed)));
}

#[test]
fn an_event_out_of_turn_counts_as_a_failure() {
    let mut session = ingest();
    assert_eq!(finished(session.step(Event::Created)), (0, Err(Error::IoFailure)));
    let mut session = ingest();
    session.step(Event::Begin);
    session.step(field("a"));
    session.step(Event::Created);
    assert!(matches!(session.step(Event::Closed), Action::Remove(_)));
    assert_eq!(finished(session.step(Event::Removed)), (0, Err(Error::IoFailure)));
}

#[test]
fn accepts_sees_a_count_that_leaves_the_word() {
    let mut session = ingest();
    session.step(Event::Begin);
    session.step(field("a"));
    session.step(Event::Created);
    session.step(Event::Chunk { len: usize::MAX });
    assert!(!session.accepts(&Event::Chunk { len: 1 }));
    assert!(session.accepts(&Event::Chunk { len: 0 }));
    assert!(session.accepts(&Event::EndOfChunks));
}

#[test]
fn a_sink_counts_and_ends_either_way() {
    let mut sink = FileSink::new(String::from("/tmp/x"));
    assert_eq!(sink.size(), ByteCount(0));
    sink.write(3);
    sink.write(4);
    assert!(sink.fits(usize::MAX - 7));
    assert!(!sink.fits(usize::MAX - 6));
    assert_eq!(sink.path(), "/tmp/x");
    assert_eq!(sink.finalize(), ByteCount(7));
    let mut sink = FileSink::new(String::from("/tmp/y"));
    sink.write(9);
    assert_eq!(sink.discard(), "/tmp/y");
}
