use std::io::Write;
use ziptoc::errors::ResolveError;
use ziptoc::resolver::Action;
use ziptoc::resolver::ContentKind;
use ziptoc::resolver::Phase;
use ziptoc::resolver::Resolver;
use ziptoc::resolver::classify_content_type;

fn zip_bytes(names: &[&str]) -> Vec<u8> {
    let mut w = zip::ZipWriter::new(std::io::Cursor::new(Vec::new()));
    let opts = zip::write::SimpleFileOptions::default()
        .compression_method(zip::CompressionMethod::Stored);
    for n in names {
        w.start_file(*n, opts).unwrap();
        w.write_all(b"").unwrap();
    }
    w.finish().unwrap().into_inner()
}

fn archive_resolver() -> Resolver {
    let mut r = Resolver::new(101, 100).unwrap();
    assert!(matches!(r.start(), Action::IssueProbe));
    assert!(matches!(
        r.on_probe(Some("application/zip".to_string())),
        Action::IssueLengthQuery
    ));
    r
}

#[test]
fn classification_recognizes_the_archive_kind() {
    assert_eq!(
        classify_content_type(&"application/zip".to_string()),
        ContentKind::ArchiveZip
    );
    assert_eq!(
        classify_content_type(&"text/html".to_string()),
        ContentKind::Other
    );
    assert_eq!(classify_content_type(&"".to_string()), ContentKind::Other);
}

#[test]
fn chunk_zero_rejected_before_any_request() {
    let r = Resolver::new(101, 0);
    assert_eq!(r.unwrap_err(), ResolveError::InvalidChunkSize);
}

#[test]
fn non_archive_probe_stops_after_one_request() {
    let mut probes = 0;
    let mut fetches = 0;
    let mut r = Resolver::new(101, 100).unwrap();
    match r.start() {
        Action::IssueProbe => probes += 1,
        other => panic!("unexpected action: {:?}", other),
    }
    match r.on_probe(Some("text/html".to_string())) {
        Action::Fail(e) => assert_eq!(e, ResolveError::NotAnArchive),
        Action::IssueRange(_) => fetches += 1,
        other => panic!("unexpected action: {:?}", other),
    }
    assert_eq!(r.phase, Phase::Failed);
    assert_eq!(probes, 1);
    assert_eq!(fetches, 0);
}

#[test]
fn missing_content_type_fails() {
    let mut r = Resolver::new(101, 100).unwrap();
    assert!(matches!(r.start(), Action::IssueProbe));
    match r.on_probe(None) {
        Action::Fail(e) => assert_eq!(e, ResolveError::MissingContentType),
        other => panic!("unexpected action: {:?}", other),
    }
}

#[test]
fn short_resource_fails_before_any_range_fetch() {
    let mut r = archive_resolver();
    match r.on_length(Some(50)) {
        Action::Fail(e) => assert_eq!(e, ResolveError::ResourceTooSmall),
        other => panic!("unexpected action: {:?}", other),
    }
    assert_eq!(r.phase, Phase::Failed);
}

#[test]
fn unreported_length_fails() {
    let mut r = archive_resolver();
    match r.on_length(None) {
        Action::Fail(e) => assert_eq!(e, ResolveError::UnknownLength),
        other => panic!("unexpected action: {:?}", other),
    }
}

#[test]
fn unexpected_status_aborts_the_fetch_loop() {
    let mut r = archive_resolver();
    match r.on_length(Some(1000)) {
        Action::IssueRange(d) => assert_eq!((d.start, d.end), (900, 999)),
        other => panic!("unexpected action: {:?}", other),
    }
    match r.on_range(404, Vec::new()) {
        Action::Fail(e) => assert_eq!(e, ResolveError::UnexpectedStatus(404)),
        other => panic!("unexpected action: {:?}", other),
    }
    assert_eq!(r.phase, Phase::Failed);
}

#[test]
fn unparsable_window_fails_without_retry() {
    let mut r = archive_resolver();
    match r.on_length(Some(500)) {
        Action::IssueRange(d) => assert_eq!((d.start, d.end), (400, 499)),
        other => panic!("unexpected action: {:?}", other),
    }
    match r.on_range(200, vec![7u8; 100]) {
        Action::Fail(e) => assert_eq!(e, ResolveError::ArchiveParseError),
        other => panic!("unexpected action: {:?}", other),
    }
    assert_eq!(r.phase, Phase::Failed);
}

#[test]
fn transport_failure_aborts() {
    let mut r = Resolver::new(101, 100).unwrap();
    assert!(matches!(r.start(), Action::IssueProbe));
    match r.on_transport_error() {
        Action::Fail(e) => assert_eq!(e, ResolveError::TransportError),
        other => panic!("unexpected action: {:?}", other),
    }
    assert_eq!(r.phase, Phase::Failed);
}

#[test]
fn end_to_end_single_tail_window() {
    // the whole archive has to sit inside the one fetched window
    let zip = zip_bytes(&["a"]);
    assert!(zip.len() <= 100, "zip size {}", zip.len());
    let mut resource = vec![0u8; 1000 - zip.len()];
    resource.extend_from_slice(&zip);
    assert_eq!(resource.len(), 1000);

    let mut fetches = 0;
    let mut r = archive_resolver();
    let d = match r.on_length(Some(1000)) {
        Action::IssueRange(d) => {
            fetches += 1;
            d
        },
        other => panic!("unexpected action: {:?}", other),
    };
    assert_eq!((d.start, d.end), (900, 999));
    assert_eq!(d.header_value(), "bytes=900-999");

    let window = resource[d.start as usize..=d.end as usize].to_vec();
    match r.on_range(206, window) {
        Action::Finish(names) => assert_eq!(names, vec!["a"]),
        Action::IssueRange(_) => panic!("a second range request was issued"),
        other => panic!("unexpected action: {:?}", other),
    }
    assert_eq!(r.phase, Phase::Done);
    assert_eq!(fetches, 1);
}

#[test]
fn narrow_chunks_abort_on_the_first_unparsable_window() {
    // threshold 101 gives a 100-byte tail; chunk 40 would split it 40/40/20,
    // but each window is handed to the reader on its own, so the first
    // window — filler bytes without the archive trailer — ends the
    // resolution. A window too narrow for the trailer is not retried.
    let mut r = Resolver::new(101, 40).unwrap();
    assert!(matches!(r.start(), Action::IssueProbe));
    assert!(matches!(
        r.on_probe(Some("application/zip".to_string())),
        Action::IssueLengthQuery
    ));
    let zip = zip_bytes(&["a.txt"]);
    let mut resource = vec![0u8; 1000 - zip.len()];
    resource.extend_from_slice(&zip);

    let d = match r.on_length(Some(1000)) {
        Action::IssueRange(d) => d,
        other => panic!("unexpected action: {:?}", other),
    };
    assert_eq!((d.start, d.end), (900, 939));
    let window = resource[d.start as usize..=d.end as usize].to_vec();
    match r.on_range(206, window) {
        Action::Fail(e) => assert_eq!(e, ResolveError::ArchiveParseError),
        other => panic!("unexpected action: {:?}", other),
    }
    assert_eq!(r.phase, Phase::Failed);
}

#[test]
fn a_parsed_window_is_followed_by_the_next_request() {
    // threshold 45 gives a 44-byte tail; chunk 22 splits it into two
    // windows, and each window here happens to be a complete (empty)
    // archive, so the walk reaches the second window and finishes.
    let empty = zip_bytes(&[]);
    assert_eq!(empty.len(), 22);
    let mut resource = vec![0u8; 156];
    resource.extend_from_slice(&empty);
    resource.extend_from_slice(&empty);
    assert_eq!(resource.len(), 200);

    let mut r = Resolver::new(45, 22).unwrap();
    assert!(matches!(r.start(), Action::IssueProbe));
    assert!(matches!(
        r.on_probe(Some("application/zip".to_string())),
        Action::IssueLengthQuery
    ));
    let mut action = r.on_length(Some(200));
    let mut issued: Vec<(u64, u64)> = Vec::new();
    let names = loop {
        match action {
            Action::IssueRange(d) => {
                issued.push((d.start, d.end));
                let window = resource[d.start as usize..=d.end as usize].to_vec();
                action = r.on_range(206, window);
            },
            Action::Finish(names) => break names,
            other => panic!("unexpected action: {:?}", other),
        }
    };
    assert_eq!(issued, vec![(156, 177), (178, 199)]);
    assert!(names.is_empty());
    assert_eq!(r.phase, Phase::Done);
}

#[test]
fn error_messages_render() {
    assert_eq!(
        ResolveError::InvalidChunkSize.message(),
        "invalid chunk size, give a value greater than zero"
    );
    assert_eq!(
        ResolveError::UnexpectedStatus(404).message(),
        "unexpected server response: 404"
    );
    assert_eq!(
        ResolveError::NotAnArchive.message(),
        "the resource is not an archive"
    );
    assert_eq!(
        ResolveError::TransportError.message(),
        "transport failure while talking to the resource"
    );
    assert_eq!(
        ResolveError::MissingContentType.message(),
        "the resource declares no content type"
    );
    assert_eq!(
        ResolveError::UnknownLength.message(),
        "the resource does not report its length"
    );
    assert_eq!(
        ResolveError::ResourceTooSmall.message(),
        "the resource is too small to hold an archive index"
    );
    assert_eq!(
        ResolveError::ArchiveParseError.message(),
        "the fetched window could not be read as an archive"
    );
}
