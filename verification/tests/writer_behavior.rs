use raw_printer::mock::MockSpooler;
use raw_printer::protocol::PrintError;
use raw_printer::writer::{effective_document_name, write_raw};

#[test]
fn full_payload_accepted() {
    let mut dev = MockSpooler::new(1024);
    let payload: Vec<u8> = b"^FDhello world".to_vec();
    let r = write_raw(&mut dev, "FakeDevice", payload.as_slice(), Some("Test Document"));
    assert_eq!(r, Ok(14));
    assert_eq!(dev.last_doc_name.as_deref(), Some("Test Document"));
    assert_eq!(dev.last_datatype.as_deref(), Some("RAW"));
}

#[test]
fn success_count_never_exceeds_payload_len() {
    let payload: Vec<u8> = b"^FDhello world".to_vec();

    let mut roomy = MockSpooler::new(1024);
    let r = write_raw(&mut roomy, "FakeDevice", payload.as_slice(), None);
    assert_eq!(r, Ok(payload.len()));

    let mut cramped = MockSpooler::new(5);
    let r = write_raw(&mut cramped, "FakeDevice", payload.as_slice(), None);
    assert_eq!(r, Ok(5));
}

#[test]
fn empty_payload_reports_zero_bytes() {
    let mut dev = MockSpooler::new(1024);
    let payload: Vec<u8> = Vec::new();
    let r = write_raw(&mut dev, "FakeDevice", payload.as_slice(), None);
    assert_eq!(r, Ok(0));
}

#[test]
fn handle_closed_exactly_once_on_every_outcome() {
    let payload: Vec<u8> = b"data".to_vec();

    let mut ok_dev = MockSpooler::new(64);
    let _ = write_raw(&mut ok_dev, "FakeDevice", payload.as_slice(), None);
    assert_eq!(ok_dev.counts.open, 1);
    assert_eq!(ok_dev.counts.close, 1);
    assert!(!ok_dev.handle_open);

    let mut doc_fails = MockSpooler::new(64);
    doc_fails.config.doc_start_ok = false;
    let _ = write_raw(&mut doc_fails, "FakeDevice", payload.as_slice(), None);
    assert_eq!(doc_fails.counts.open, 1);
    assert_eq!(doc_fails.counts.close, 1);
    assert!(!doc_fails.handle_open);

    let mut page_fails = MockSpooler::new(64);
    page_fails.config.page_start_ok = false;
    let _ = write_raw(&mut page_fails, "FakeDevice", payload.as_slice(), None);
    assert_eq!(page_fails.counts.open, 1);
    assert_eq!(page_fails.counts.close, 1);
    assert!(!page_fails.handle_open);

    let mut write_fails = MockSpooler::new(64);
    write_fails.config.write_ok = false;
    let _ = write_raw(&mut write_fails, "FakeDevice", payload.as_slice(), None);
    assert_eq!(write_fails.counts.open, 1);
    assert_eq!(write_fails.counts.close, 1);
    assert!(!write_fails.handle_open);

    let mut no_dev = MockSpooler::new(64);
    no_dev.config.destination_exists = false;
    let _ = write_raw(&mut no_dev, "FakeDevice", payload.as_slice(), None);
    assert_eq!(no_dev.counts.open, 1);
    assert_eq!(no_dev.counts.close, 0);
    assert!(!no_dev.handle_open);
}

#[test]
fn unavailable_destination_writes_nothing() {
    let mut dev = MockSpooler::new(64);
    dev.config.destination_exists = false;
    let payload: Vec<u8> = b"data".to_vec();
    let r = write_raw(&mut dev, "NoSuchPrinter", payload.as_slice(), None);
    assert_eq!(r, Err(PrintError::DestinationUnavailable));
    assert_eq!(dev.counts.begin_doc, 0);
    assert_eq!(dev.counts.begin_page, 0);
    assert_eq!(dev.counts.write, 0);
}

#[test]
fn doc_refusal_skips_page_and_write_but_closes() {
    let mut dev = MockSpooler::new(64);
    dev.config.doc_start_ok = false;
    let payload: Vec<u8> = b"data".to_vec();
    let r = write_raw(&mut dev, "FakeDevice", payload.as_slice(), None);
    assert_eq!(r, Err(PrintError::JobStartFailed));
    assert_eq!(dev.counts.begin_page, 0);
    assert_eq!(dev.counts.write, 0);
    assert_eq!(dev.counts.end_page, 0);
    assert_eq!(dev.counts.end_doc, 0);
    assert_eq!(dev.counts.close, 1);
}

#[test]
fn page_refusal_still_ends_document_and_closes() {
    let mut dev = MockSpooler::new(64);
    dev.config.page_start_ok = false;
    let payload: Vec<u8> = b"data".to_vec();
    let r = write_raw(&mut dev, "FakeDevice", payload.as_slice(), None);
    assert_eq!(r, Err(PrintError::PageStartFailed));
    assert_eq!(dev.counts.write, 0);
    assert_eq!(dev.counts.end_page, 0);
    assert_eq!(dev.counts.end_doc, 1);
    assert_eq!(dev.counts.close, 1);
}

#[test]
fn write_failure_still_ends_page_and_document() {
    let mut dev = MockSpooler::new(64);
    dev.config.write_ok = false;
    let payload: Vec<u8> = b"data".to_vec();
    let r = write_raw(&mut dev, "FakeDevice", payload.as_slice(), None);
    assert_eq!(r, Err(PrintError::WriteFailed));
    assert_eq!(dev.counts.write, 1);
    assert_eq!(dev.counts.end_page, 1);
    assert_eq!(dev.counts.end_doc, 1);
    assert_eq!(dev.counts.close, 1);
}

#[test]
fn cleanup_refusals_are_swallowed() {
    let mut dev = MockSpooler::new(64);
    dev.config.end_page_ok = false;
    dev.config.end_doc_ok = false;
    let payload: Vec<u8> = b"data".to_vec();
    let r = write_raw(&mut dev, "FakeDevice", payload.as_slice(), None);
    assert_eq!(r, Ok(4));
    assert_eq!(dev.counts.close, 1);
}

#[test]
fn payload_is_not_modified() {
    let mut dev = MockSpooler::new(64);
    let payload: Vec<u8> = b"^FDhello world".to_vec();
    let before = payload.clone();
    let _ = write_raw(&mut dev, "FakeDevice", payload.as_slice(), None);
    assert_eq!(payload, before);
}

#[test]
fn empty_destination_opens_nothing() {
    let mut dev = MockSpooler::new(64);
    let payload: Vec<u8> = b"data".to_vec();
    let r = write_raw(&mut dev, "", payload.as_slice(), None);
    assert_eq!(r, Err(PrintError::DestinationUnavailable));
    assert_eq!(dev.counts.open, 0);
    assert_eq!(dev.counts.close, 0);
    assert!(!dev.handle_open);
}

#[test]
fn document_label_defaults_when_absent() {
    assert_eq!(effective_document_name(Some("My Custom Document")), "My Custom Document");
    assert_eq!(effective_document_name(None), "RAW_Print");

    let mut dev = MockSpooler::new(64);
    let payload: Vec<u8> = b"data".to_vec();
    let _ = write_raw(&mut dev, "FakeDevice", payload.as_slice(), None);
    assert_eq!(dev.last_doc_name.as_deref(), Some("RAW_Print"));
}
