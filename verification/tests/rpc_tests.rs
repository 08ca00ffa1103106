use amqp_examples::rpc::{
    new_request, parse_delivery, read_reply, ReplyEvent, ReplyOutcome, ServerAction,
};

fn reply_of(action: ServerAction) -> (String, String, Vec<u8>) {
    match action {
        ServerAction::Reply { reply_to, correlation_id, body } => (reply_to, correlation_id, body),
        other => panic!("expected a reply, got {:?}", other),
    }
}

#[test]
fn server_replies_with_fibonacci() {
    let action = parse_delivery(b"10", Some("amq.gen-q".to_string()), Some("id-1".to_string()));
    let (reply_to, correlation_id, body) = reply_of(action);
    assert_eq!(reply_to, "amq.gen-q");
    assert_eq!(correlation_id, "id-1");
    assert_eq!(body, b"55".to_vec());
}

#[test]
fn server_trims_request() {
    let action = parse_delivery(b" 92\n", Some("q".to_string()), Some("c".to_string()));
    let (_, _, body) = reply_of(action);
    assert_eq!(body, b"7540113804746346429".to_vec());
}

#[test]
fn server_ignores_bad_requests() {
    let q = || Some("q".to_string());
    let c = || Some("c".to_string());
    assert!(matches!(parse_delivery(&[0xff], q(), c()), ServerAction::Ignore));
    assert!(matches!(parse_delivery(b"ten", q(), c()), ServerAction::Ignore));
    assert!(matches!(parse_delivery(b"10", None, c()), ServerAction::Ignore));
    assert!(matches!(parse_delivery(b"10", q(), None), ServerAction::Ignore));
    assert!(matches!(parse_delivery(b"-3", None, c()), ServerAction::Ignore));
}

#[test]
fn server_cannot_answer_out_of_range() {
    let q = || Some("q".to_string());
    let c = || Some("c".to_string());
    assert!(matches!(parse_delivery(b"93", q(), c()), ServerAction::Unanswerable));
    assert!(matches!(parse_delivery(b"-1", q(), c()), ServerAction::Unanswerable));
}

#[test]
fn request_has_uuid_and_decimal_body() {
    let r = new_request(30);
    assert_eq!(r.body, b"30".to_vec());
    let id: Vec<char> = r.correlation_id.chars().collect();
    assert_eq!(id.len(), 36);
    for (i, ch) in id.iter().enumerate() {
        if i == 8 || i == 13 || i == 18 || i == 23 {
            assert_eq!(*ch, '-');
        } else {
            assert!(ch.is_ascii_digit() || ('a'..='f').contains(ch));
        }
    }
    assert_eq!(id[14], '4');
    assert!(matches!(id[19], '8' | '9' | 'a' | 'b'));
    assert_ne!(new_request(30).correlation_id, r.correlation_id);
}

#[test]
fn client_reads_replies() {
    let local = "abc".to_string();
    let delivery = |c: Option<&str>, body: &[u8]| ReplyEvent::Delivery {
        correlation_id: c.map(|s| s.to_string()),
        body: body.to_vec(),
    };
    assert_eq!(read_reply(&local, &delivery(Some("abc"), b"55")), ReplyOutcome::Value(55));
    assert_eq!(read_reply(&local, &delivery(Some("abc"), b" 55 \n")), ReplyOutcome::Value(55));
    assert_eq!(read_reply(&local, &delivery(Some("abd"), b"55")), ReplyOutcome::WrongCorrelation);
    assert_eq!(read_reply(&local, &delivery(None, b"55")), ReplyOutcome::MissingCorrelation);
    assert_eq!(read_reply(&local, &delivery(Some("abc"), &[0xff])), ReplyOutcome::InvalidUtf8);
    assert_eq!(read_reply(&local, &delivery(Some("abc"), b"-5")), ReplyOutcome::InvalidNumber);
    assert_eq!(read_reply(&local, &ReplyEvent::TimedOut), ReplyOutcome::TimedOut);
    assert_eq!(read_reply(&local, &ReplyEvent::Other), ReplyOutcome::Unexpected);
}

#[test]
fn rpc_round_trip() {
    for n in [0u64, 1, 2, 10, 50, 92] {
        let request = new_request(n);
        let action = parse_delivery(
            &request.body,
            Some("reply-queue".to_string()),
            Some(request.correlation_id.clone()),
        );
        let (reply_to, correlation_id, body) = reply_of(action);
        assert_eq!(reply_to, "reply-queue");
        let outcome = read_reply(
            &request.correlation_id,
            &ReplyEvent::Delivery { correlation_id: Some(correlation_id), body },
        );
        assert_eq!(outcome, ReplyOutcome::Value(amqp_examples::fib::fibonacci(n as i64) as u64));
    }
}
