use dns_forward_over_tcp::packet::{parse_view, refusal_for};

#[test]
fn refusal_is_minimal_twelve_byte_header() {
    assert_eq!(
        refusal_for(0x1234, true),
        vec![0x12u8, 0x34, 0x80, 0x80, 0, 0, 0, 0, 0, 0, 0, 0]
    );
    assert_eq!(
        refusal_for(0x1234, false),
        vec![0x12u8, 0x34, 0x80, 0x00, 0, 0, 0, 0, 0, 0, 0, 0]
    );
}

#[test]
fn refusal_echoes_id_bytes() {
    let r = refusal_for(1573, true);
    // Id echoed big-endian; response bit set; recursion flag in the
    // recursion-available position.
    assert_eq!(&r[..4], &[0x06u8, 0x25, 0x80, 0x80]);
    // Zero answer records, and zero counts throughout.
    assert_eq!(&r[4..], &[0u8; 8]);
}

#[test]
fn refusal_parses_back_with_same_id() {
    let r = refusal_for(7, false);
    let view = parse_view(&r).expect("a refusal reply is a valid DNS message");
    assert_eq!(view.id, 7);
    assert!(!view.recursion_available);
    assert!(view.answers.is_empty());
    assert!(view.questions.is_empty());
}

#[test]
fn refusal_carries_recursion_flag_where_a_reply_does() {
    let view = parse_view(&refusal_for(7, true)).expect("a refusal reply parses");
    assert_eq!(view.id, 7);
    assert!(view.recursion_available);
}

#[test]
fn query_with_one_question_parses() {
    // A standard query for example.com, A record, IN class.
    let mut q: Vec<u8> = vec![0x06, 0x25, 0x01, 0x00, 0x00, 0x01, 0, 0, 0, 0, 0, 0];
    q.extend_from_slice(b"\x07example\x03com\x00");
    q.extend_from_slice(&[0x00, 0x01, 0x00, 0x01]);
    let view = parse_view(&q).expect("a well-formed query parses");
    assert_eq!(view.id, 0x0625);
    assert_eq!(view.questions.len(), 1);
    assert_eq!(view.questions[0].name, "example.com");
    assert_eq!(view.questions[0].qtype, 1);
    assert!(view.answers.is_empty());
}

#[test]
fn malformed_bytes_do_not_parse() {
    assert!(parse_view(&vec![1u8, 2, 3]).is_none());
    assert!(parse_view(&Vec::new()).is_none());
}

#[test]
fn response_with_answer_record_parses() {
    // A response to the example.com A query: one question, one answer
    // record pointing back at the question name.
    let mut r: Vec<u8> = vec![0x06, 0x25, 0x81, 0x80, 0x00, 0x01, 0x00, 0x01, 0, 0, 0, 0];
    r.extend_from_slice(b"\x07example\x03com\x00");
    r.extend_from_slice(&[0x00, 0x01, 0x00, 0x01]);
    r.extend_from_slice(&[0xC0, 0x0C]);
    r.extend_from_slice(&[0x00, 0x01, 0x00, 0x01]);
    r.extend_from_slice(&[0x00, 0x00, 0x00, 0x3C]);
    r.extend_from_slice(&[0x00, 0x04, 93, 184, 216, 34]);
    let view = parse_view(&r).expect("a well-formed response parses");
    assert_eq!(view.id, 0x0625);
    assert_eq!(view.answers.len(), 1);
    assert_eq!(view.answers[0].name, "example.com");
    assert_eq!(view.answers[0].ttl, 60);
    assert!(view.answers[0].data.contains("93.184.216.34"));
}
