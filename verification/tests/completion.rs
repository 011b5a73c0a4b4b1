use flate2::write::GzEncoder;
use flate2::Compression;
use http_llm_proxy_stream::stream::Pull;
use http_llm_proxy_stream::{CompletableStream, CompleteHandler, OnIterationComplete};
use std::io::Write;

fn gzip_of(data: &[u8]) -> Vec<u8> {
    let mut encoder = GzEncoder::new(Vec::new(), Compression::default());
    encoder.write_all(data).unwrap();
    encoder.finish().unwrap()
}

fn handler(gzip: bool) -> CompleteHandler {
    CompleteHandler::new(
        gzip,
        String::from("POST"),
        String::from("/v1/chat?stream=true"),
        String::from("he said \"hi\""),
    )
}

#[test]
fn record_holds_method_url_and_both_bodies() {
    let h = handler(false);
    assert_eq!(
        h.log_record(b"{\"ok\":true}"),
        Some(String::from("POST,/v1/chat?stream=true,\"he said \"\"hi\"\"\",\"{\"\"ok\"\":true}\"\n"))
    );
}

#[test]
fn empty_body_leaves_no_record() {
    let mut h = handler(false);
    assert_eq!(h.log_record(b""), None);
    h.on_iteration_complete(Vec::new());
    assert!(h.records().is_empty());
}

#[test]
fn gzip_body_is_logged_decoded() {
    let mut h = handler(true);
    h.on_iteration_complete(gzip_of(b"{\"ok\":true}"));
    assert_eq!(
        h.records(),
        &vec![String::from("POST,/v1/chat?stream=true,\"he said \"\"hi\"\"\",\"{\"\"ok\"\":true}\"\n")]
    );
}

#[test]
fn corrupted_gzip_body_is_logged_as_a_marker() {
    let mut payload = gzip_of(b"{\"ok\":true}");
    let last = payload.len() - 5;
    payload[last] ^= 0xff;
    let h = handler(true);
    let line = h.log_record(&payload).unwrap();
    assert!(line.starts_with("POST,/v1/chat?stream=true,\"he said \"\"hi\"\"\",\"[GZIP DECODE ERROR: "));
    assert!(line.ends_with("]\"\n"));
}

#[test]
fn records_are_taken_once() {
    let mut h = handler(false);
    h.on_iteration_complete(b"one".to_vec());
    h.on_iteration_complete(b"two".to_vec());
    let taken = h.take_records();
    assert_eq!(taken.len(), 2);
    assert!(taken[0].ends_with(",\"one\"\n"));
    assert!(taken[1].ends_with(",\"two\"\n"));
    assert!(h.records().is_empty());
    assert!(h.take_records().is_empty());
}

#[test]
fn corrupted_gzip_reaches_the_caller_unchanged_and_the_log_as_a_marker() {
    let mut payload = gzip_of(b"{\"ok\":true}");
    payload[1] = 0;
    let mut tee = CompletableStream::new(handler(true));
    let mut delivered: Vec<u8> = Vec::new();
    for piece in payload.chunks(4) {
        match tee.poll_next(Pull::<String>::Chunk(piece.to_vec())) {
            Pull::Chunk(bytes) => delivered.extend_from_slice(&bytes),
            _ => panic!("a chunk was expected"),
        }
    }
    tee.poll_next(Pull::<String>::Exhausted);
    assert_eq!(delivered, payload);
    let lines = tee.handler_mut().take_records();
    assert_eq!(lines.len(), 1);
    assert!(lines[0].contains("[GZIP DECODE ERROR: "));
}

#[test]
fn streamed_gzip_body_is_logged_once_after_the_end() {
    let payload = gzip_of(b"{\"ok\":true}");
    let mut tee = CompletableStream::new(handler(true));
    for piece in payload.chunks(3) {
        tee.poll_next(Pull::<String>::Chunk(piece.to_vec()));
        assert!(tee.handler().records().is_empty());
    }
    tee.poll_next(Pull::Failed(String::from("glitch")));
    tee.poll_next(Pull::<String>::NotReady);
    assert!(tee.handler().records().is_empty());
    tee.poll_next(Pull::<String>::Exhausted);
    tee.poll_next(Pull::<String>::Exhausted);
    assert_eq!(
        tee.handler().records(),
        &vec![String::from("POST,/v1/chat?stream=true,\"he said \"\"hi\"\"\",\"{\"\"ok\"\":true}\"\n")]
    );
}

#[test]
fn each_request_leaves_one_whole_line() {
    let mut log = String::new();
    for i in 0..20 {
        let mut h = CompleteHandler::new(
            i % 2 == 0,
            String::from("POST"),
            format!("/r/{}", i),
            format!("say \"{}\"", i),
        );
        let body = format!("answer \"{}\"", i).into_bytes();
        h.on_iteration_complete(if i % 2 == 0 { gzip_of(&body) } else { body });
        for line in h.take_records() {
            log.push_str(&line);
        }
    }
    let lines: Vec<&str> = log.lines().collect();
    assert_eq!(lines.len(), 20);
    for (i, line) in lines.iter().enumerate() {
        assert_eq!(
            *line,
            format!("POST,/r/{},\"say \"\"{}\"\"\",\"answer \"\"{}\"\"\"", i, i, i)
        );
        assert_eq!(line.matches('"').count() % 2, 0);
    }
}
