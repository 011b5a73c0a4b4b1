use http_llm_proxy_stream::stream::Pull;
use http_llm_proxy_stream::{CompletableStream, OnIterationComplete};

struct Recorder {
    seen: Vec<Vec<u8>>,
}

impl OnIterationComplete for Recorder {
    fn on_iteration_complete(&mut self, data: Vec<u8>) {
        self.seen.push(data);
    }
}

fn recorder() -> CompletableStream<Recorder> {
    CompletableStream::new(Recorder { seen: Vec::new() })
}

fn chunk_of(pull: Pull<String>) -> Vec<u8> {
    match pull {
        Pull::Chunk(bytes) => bytes,
        _ => panic!("a chunk was expected"),
    }
}

#[test]
fn chunks_pass_through_and_are_mirrored() {
    let mut tee = recorder();
    let body = b"the quick brown fox jumps over the lazy dog".to_vec();
    let cuts = [0usize, 1, 4, 10, 11, 30, body.len()];
    let mut downstream: Vec<u8> = Vec::new();
    for w in cuts.windows(2) {
        let piece = body[w[0]..w[1]].to_vec();
        let out = chunk_of(tee.poll_next(Pull::Chunk(piece.clone())));
        assert_eq!(out, piece);
        downstream.extend_from_slice(&out);
        assert_eq!(tee.buffered(), &downstream);
    }
    assert!(!tee.is_completed());
    assert!(tee.handler().seen.is_empty());
    assert!(matches!(tee.poll_next(Pull::<String>::Exhausted), Pull::Exhausted));
    assert!(tee.is_completed());
    assert_eq!(downstream, body);
    assert_eq!(tee.handler().seen, vec![body]);
    assert!(tee.buffered().is_empty());
}

#[test]
fn handler_fires_once_even_if_polled_after_the_end() {
    let mut tee = recorder();
    tee.poll_next(Pull::<String>::Chunk(vec![1, 2, 3]));
    tee.poll_next(Pull::<String>::Exhausted);
    tee.poll_next(Pull::<String>::Exhausted);
    tee.poll_next(Pull::<String>::Exhausted);
    assert_eq!(tee.handler().seen, vec![vec![1u8, 2, 3]]);
}

#[test]
fn failed_chunk_is_surfaced_and_never_completes() {
    let mut tee = recorder();
    tee.poll_next(Pull::<String>::Chunk(vec![7]));
    match tee.poll_next(Pull::Failed(String::from("reset by peer"))) {
        Pull::Failed(e) => assert_eq!(e, "reset by peer"),
        _ => panic!("the failure was expected"),
    }
    assert!(!tee.is_completed());
    assert!(tee.handler().seen.is_empty());
    assert_eq!(tee.buffered(), &vec![7u8]);
    tee.poll_next(Pull::<String>::Chunk(vec![8]));
    tee.poll_next(Pull::<String>::Exhausted);
    assert_eq!(tee.handler().seen, vec![vec![7u8, 8]]);
}

#[test]
fn not_ready_touches_nothing() {
    let mut tee = recorder();
    tee.poll_next(Pull::<String>::Chunk(vec![1, 2]));
    assert!(matches!(tee.poll_next(Pull::<String>::NotReady), Pull::NotReady));
    assert_eq!(tee.buffered(), &vec![1u8, 2]);
    assert!(!tee.is_completed());
    assert!(tee.handler().seen.is_empty());
}

#[test]
fn empty_body_still_reaches_the_handler() {
    let mut tee = recorder();
    tee.poll_next(Pull::<String>::Exhausted);
    assert_eq!(tee.handler().seen, vec![Vec::<u8>::new()]);
}

#[test]
fn chunks_after_the_end_pass_through_unmirrored() {
    let mut tee = recorder();
    tee.poll_next(Pull::<String>::Chunk(vec![1]));
    tee.poll_next(Pull::<String>::Exhausted);
    let out = chunk_of(tee.poll_next(Pull::Chunk(vec![9, 9])));
    assert_eq!(out, vec![9u8, 9]);
    assert!(tee.buffered().is_empty());
    assert_eq!(tee.into_handler().seen, vec![vec![1u8]]);
}

#[test]
fn handler_can_be_reached_for_changes() {
    let mut tee = recorder();
    tee.handler_mut().seen.push(vec![42]);
    tee.poll_next(Pull::<String>::Exhausted);
    assert_eq!(tee.handler().seen, vec![vec![42u8], Vec::new()]);
}
