use jcommit::sse::SseDecoder;

fn push(d: &mut SseDecoder, chunk: &str) -> Vec<String> {
    d.push_chunk(chunk.as_bytes())
}

#[test]
fn single_frame_yields_its_content() {
    let mut d = SseDecoder::new();
    let frags = push(
        &mut d,
        "data: {\"choices\":[{\"delta\":{\"content\":\"Hello\"}}]}\n",
    );
    assert_eq!(frags, vec!["Hello".to_string()]);
}

#[test]
fn several_frames_in_one_chunk_concatenate_in_order() {
    let mut d = SseDecoder::new();
    let frags = push(
        &mut d,
        "data: {\"choices\":[{\"delta\":{\"content\":\"fix: \"}}]}\n\
         data: {\"choices\":[{\"delta\":{\"content\":\"tidy\"}}]}\n\
         data: [DONE]\n",
    );
    assert_eq!(frags.concat(), "fix: tidy");
    assert_eq!(frags.len(), 2);
}

#[test]
fn frame_split_inside_a_line_is_reassembled() {
    let mut d = SseDecoder::new();
    let a = push(&mut d, "data: {\"choices\":[{\"delta\":{\"co");
    assert!(a.is_empty());
    let b = push(&mut d, "ntent\":\"split\"}}]}\n");
    assert_eq!(b, vec!["split".to_string()]);
}

#[test]
fn chunk_boundary_between_two_data_lines_loses_nothing() {
    let mut d = SseDecoder::new();
    let a = push(&mut d, "data: {\"choices\":[{\"delta\":{\"content\":\"one\"}}]}\n");
    let b = push(&mut d, "data: {\"choices\":[{\"delta\":{\"content\":\"two\"}}]}\n");
    let mut all = a.clone();
    all.extend(b.clone());
    assert_eq!(all.concat(), "onetwo");

    let mut whole = SseDecoder::new();
    let w = push(
        &mut whole,
        "data: {\"choices\":[{\"delta\":{\"content\":\"one\"}}]}\n\
         data: {\"choices\":[{\"delta\":{\"content\":\"two\"}}]}\n",
    );
    assert_eq!(w, all);
}

#[test]
fn done_sentinel_yields_no_fragment() {
    let mut d = SseDecoder::new();
    let frags = push(&mut d, "data: [DONE]\n");
    assert!(frags.is_empty());
}

#[test]
fn malformed_payload_is_skipped_silently() {
    let mut d = SseDecoder::new();
    let frags = push(
        &mut d,
        "data: {not json}\ndata: {\"choices\":[{\"delta\":{\"content\":\"ok\"}}]}\n",
    );
    assert_eq!(frags, vec!["ok".to_string()]);
}

#[test]
fn structural_frame_without_content_yields_no_fragment() {
    let mut d = SseDecoder::new();
    let frags = push(
        &mut d,
        "data: {\"choices\":[{\"delta\":{\"role\":\"assistant\"}}]}\n",
    );
    assert!(frags.is_empty());
}

#[test]
fn non_string_content_yields_no_fragment() {
    let mut d = SseDecoder::new();
    let frags = push(&mut d, "data: {\"choices\":[{\"delta\":{\"content\":7}}]}\n");
    assert!(frags.is_empty());
}

#[test]
fn empty_content_is_kept_as_empty_fragment() {
    let mut d = SseDecoder::new();
    let frags = push(&mut d, "data: {\"choices\":[{\"delta\":{\"content\":\"\"}}]}\n");
    assert_eq!(frags, vec![String::new()]);
}

#[test]
fn carriage_return_line_endings_are_tolerated() {
    let mut d = SseDecoder::new();
    let frags = push(
        &mut d,
        "data: {\"choices\":[{\"delta\":{\"content\":\"crlf\"}}]}\r\ndata: [DONE]\r\n",
    );
    assert_eq!(frags, vec!["crlf".to_string()]);
}

#[test]
fn lines_without_the_data_prefix_are_ignored() {
    let mut d = SseDecoder::new();
    let frags = push(
        &mut d,
        ": comment\nevent: message\n\ndata: {\"choices\":[{\"delta\":{\"content\":\"x\"}}]}\n",
    );
    assert_eq!(frags, vec!["x".to_string()]);
}

#[test]
fn trailing_bytes_stay_pending_until_their_newline_arrives() {
    let mut d = SseDecoder::new();
    let a = push(&mut d, "data: [DO");
    assert!(a.is_empty());
    let b = push(&mut d, "NE]");
    assert!(b.is_empty());
    let c = push(&mut d, "\n");
    assert!(c.is_empty());
}

#[test]
fn whole_stream_reconstructs_message() {
    let mut d = SseDecoder::new();
    let stream = "data: {\"choices\":[{\"delta\":{\"role\":\"assistant\"}}]}\n\
                  data: {\"choices\":[{\"delta\":{\"content\":\"feat: \"}}]}\n\
                  data: {\"choices\":[{\"delta\":{\"content\":\"add \"}}]}\n\
                  data: {\"choices\":[{\"delta\":{\"content\":\"decoder\"}}]}\n\
                  data: [DONE]\n";
    let mut message = String::new();
    for chunk in stream.as_bytes().chunks(7) {
        for frag in d.push_chunk(chunk) {
            message.push_str(&frag);
        }
    }
    assert_eq!(message, "feat: add decoder");
}
