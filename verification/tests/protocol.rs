use sms_modem::alcatel::{
    ensure_status_is_success, Action, AlcatelSmsService, DeviceReply, Phase, SendSession,
    SendSmsRequest, REQUEST_TIMEOUT_SECS,
};
use sms_modem::args_parser::{SendSmsArgs, SmsMessageArgs, SmsTargetArgs};
use sms_modem::config::{SmsApiConf, SmsApiProvider};
use sms_modem::sms_send::{message_source, recipient_source, MessageSource, RecipientSource};
use sms_modem::status::HttpStatus;
use sms_modem::void::VoidSmsService;
use sms_modem::{create_service, SmsError, SmsGateway, SmsService};

const MAX_RETRIES: usize = 3;

const POLL_BODY: &str = r#"{"jsonrpc":"2.0","method":"GetSendSMSResult","params":null,"id":"6.7"}"#;

fn status(code: u16) -> HttpStatus {
    HttpStatus::from_u16(code).expect("a three-digit status")
}

/// What a scripted device was asked to do during one send.
struct Record {
    submits: Vec<String>,
    polls: usize,
    waits: Vec<u64>,
    outcome: Result<(), SmsError>,
}

/// Runs a send to its end against a device that answers every submit call
/// with `on_submit` and every poll call with `on_poll`.
fn drive(
    start: (SendSession, Action),
    on_submit: &dyn Fn(usize) -> DeviceReply,
    on_poll: &dyn Fn(usize) -> DeviceReply,
) -> Record {
    let (mut session, mut action) = start;
    let mut record = Record { submits: Vec::new(), polls: 0, waits: Vec::new(), outcome: Ok(()) };
    loop {
        let reply = match action {
            Action::Submit { phone, .. } => {
                record.submits.push(phone);
                on_submit(record.submits.len() - 1)
            }
            Action::Poll { .. } => {
                record.polls += 1;
                on_poll(record.polls - 1)
            }
            Action::Wait { millis } => {
                record.waits.push(millis);
                DeviceReply::Waited
            }
            Action::Done(outcome) => {
                record.outcome = outcome;
                assert!(session.is_finished());
                return record;
            }
        };
        action = session.advance(reply).expect("a reply that answers the action");
    }
}

fn send_args(number: &str, message: &str) -> SendSmsArgs {
    SendSmsArgs {
        to: SmsTargetArgs {
            number: Some(number.to_string()),
            contact_name: None,
            group_name: None,
        },
        message: SmsMessageArgs { plain: Some(message.to_string()), template: None },
    }
}

fn send_through(config: &SmsApiConf, args: SendSmsArgs, send_status: i8) -> (Record, Result<String, String>) {
    assert!(args.to.has_target());
    let numbers = match recipient_source(args.to) {
        RecipientSource::Number(number) => vec![number],
        other => panic!("unexpected source {:?}", other),
    };
    assert!(args.message.has_message());
    let message = match message_source(args.message) {
        MessageSource::Plain(text) => text,
        other => panic!("unexpected source {:?}", other),
    };
    let service = create_service(config).expect("a service");
    let slices: Vec<&str> = numbers.iter().map(|s| s.as_str()).collect();
    let record = drive(
        service.send_sms(&message, slices.as_slice()),
        &|_| DeviceReply::Submitted(status(200)),
        &|_| DeviceReply::Polled(status(200), Ok(send_status)),
    );
    let report = sms_modem::sms_send::send_sms(record.outcome.clone());
    (record, report)
}

#[test]
fn should_send_sms_successfully() {
    let sms_api_config = SmsApiConf {
        provider: SmsApiProvider::Alcatel {
            url: "http://127.0.0.1:1234".to_string(),
            retry_count: 3,
            retry_delay: 50,
        },
    };
    let (record, report) = send_through(&sms_api_config, send_args("123456789", "Hello world"), 2);
    assert_eq!(report, Ok("Message sent".to_string()));
    assert_eq!(record.submits, vec!["123456789".to_string()]);
    assert_eq!(record.polls, 1);
    assert!(record.waits.is_empty());
}

#[test]
fn should_fail_when_sending_sms() {
    let sms_api_config = SmsApiConf {
        provider: SmsApiProvider::Alcatel {
            url: "http://127.0.0.1:1234".to_string(),
            retry_count: MAX_RETRIES,
            retry_delay: 50,
        },
    };
    let (record, result) = send_through(&sms_api_config, send_args("123456789", "Hello world"), 1);
    assert!(matches!(
        &result,
        Err(output) if output.contains("Service didn't confirm successful send")
    ));
    assert_eq!(
        result,
        Err("Could not send message, Reason: UnknownError(\"Service didn't confirm successful send\")"
            .to_string())
    );
    assert_eq!(record.submits.len(), 1);
    assert_eq!(record.polls, MAX_RETRIES);
    assert_eq!(record.waits, vec![50, 50]);
}

#[test]
fn happy_path_makes_one_submit_and_one_poll() {
    let (mut session, first) =
        SendSession::start("http://192.168.1.1", 3, 500, "Hello world", &["123456789"]);
    assert_eq!(
        first,
        Action::Submit {
            endpoint: "http://192.168.1.1/jrd/webapi?api=SendSMS".to_string(),
            message: "Hello world".to_string(),
            phone: "123456789".to_string(),
        }
    );
    assert_eq!(session.phase(), Phase::Submitting);
    assert_eq!(session.recipient(), 0);
    let second = session.advance(DeviceReply::Submitted(status(200)));
    assert_eq!(
        second,
        Some(Action::Poll {
            endpoint: "http://192.168.1.1/jrd/webapi?api=GetSendSMSResult".to_string(),
            body: POLL_BODY.to_string(),
        })
    );
    assert_eq!(session.phase(), Phase::Polling { attempt: 0 });
    let third = session.advance(DeviceReply::Polled(status(200), Ok(2)));
    assert_eq!(third, Some(Action::Done(Ok(()))));
    assert!(session.is_finished());
    assert_eq!(session.phase(), Phase::Confirmed);
    assert_eq!(session.advance(DeviceReply::Waited), None);
    assert_eq!(session.advance(DeviceReply::Submitted(status(200))), None);
    assert_eq!(session.phase(), Phase::Confirmed);
}

#[test]
fn terminal_phase_tells_how_the_send_ended() {
    let (mut exhausted, _) = SendSession::start("http://modem", 1, 500, "hi", &["1"]);
    exhausted.advance(DeviceReply::Submitted(status(200)));
    assert!(!exhausted.is_finished());
    exhausted.advance(DeviceReply::Polled(status(200), Ok(3)));
    assert_eq!(exhausted.phase(), Phase::Exhausted);
    assert!(exhausted.is_finished());

    let (mut failed, _) = SendSession::start("http://modem", 1, 500, "hi", &["1"]);
    failed.advance(DeviceReply::Unreachable("no route".to_string()));
    assert_eq!(failed.phase(), Phase::Failed);
    assert!(failed.is_finished());
    assert_eq!(failed.advance(DeviceReply::Submitted(status(200))), None);
    assert_eq!(failed.phase(), Phase::Failed);
}

#[test]
fn retry_exhaustion_polls_exactly_retry_count_times() {
    for retry_count in 1..6usize {
        let record = drive(
            SendSession::start("http://modem", retry_count, 500, "hi", &["1"]),
            &|_| DeviceReply::Submitted(status(200)),
            &|_| DeviceReply::Polled(status(200), Ok(1)),
        );
        assert_eq!(
            record.outcome,
            Err(SmsError::UnknownError("Service didn't confirm successful send".to_string()))
        );
        assert_eq!(record.submits.len(), 1);
        assert_eq!(record.polls, retry_count);
        assert_eq!(record.waits, vec![500; retry_count - 1]);
    }
}

#[test]
fn no_attempts_allowed_means_no_poll() {
    let record = drive(
        SendSession::start("http://modem", 0, 500, "hi", &["1"]),
        &|_| DeviceReply::Submitted(status(200)),
        &|_| DeviceReply::Polled(status(200), Ok(2)),
    );
    assert_eq!(
        record.outcome,
        Err(SmsError::UnknownError("Service didn't confirm successful send".to_string()))
    );
    assert_eq!(record.polls, 0);
    assert!(record.waits.is_empty());
}

#[test]
fn confirmation_on_a_later_attempt_succeeds() {
    let record = drive(
        SendSession::start("http://modem", 3, 20, "hi", &["1"]),
        &|_| DeviceReply::Submitted(status(200)),
        &|attempt| DeviceReply::Polled(status(200), Ok(if attempt == 2 { 2 } else { 0 })),
    );
    assert_eq!(record.outcome, Ok(()));
    assert_eq!(record.polls, 3);
    assert_eq!(record.waits, vec![20, 20]);
}

#[test]
fn unauthorized_submit_makes_no_poll() {
    let record = drive(
        SendSession::start("http://modem", 3, 500, "hi", &["1"]),
        &|_| DeviceReply::Submitted(status(401)),
        &|_| DeviceReply::Polled(status(200), Ok(2)),
    );
    assert_eq!(
        record.outcome,
        Err(SmsError::InvalidResponse(HttpStatus::unauthorized(), "Unauthorized".to_string()))
    );
    assert_eq!(record.submits.len(), 1);
    assert_eq!(record.polls, 0);
}

#[test]
fn missing_device_tells_to_check_the_modem() {
    let record = drive(
        SendSession::start("http://192.168.1.1", 3, 500, "hi", &["1"]),
        &|_| DeviceReply::Submitted(status(404)),
        &|_| DeviceReply::Polled(status(200), Ok(2)),
    );
    assert_eq!(
        record.outcome,
        Err(SmsError::InvalidResponse(
            HttpStatus::not_found(),
            "We could not find service under url http://192.168.1.1, make sure usb modem is connected and service is running"
                .to_string()
        ))
    );
    assert_eq!(record.polls, 0);
}

#[test]
fn first_failure_ends_the_batch() {
    let record = drive(
        SendSession::start("http://modem", 3, 500, "hi", &["111", "222"]),
        &|_| DeviceReply::Submitted(status(500)),
        &|_| DeviceReply::Polled(status(200), Ok(2)),
    );
    assert_eq!(
        record.outcome,
        Err(SmsError::UnknownError(
            "Unexpected status code: 500 Internal Server Error".to_string()
        ))
    );
    assert_eq!(record.submits, vec!["111".to_string()]);
    assert_eq!(record.polls, 0);
}

#[test]
fn batch_serves_recipients_in_order() {
    let record = drive(
        SendSession::start("http://modem", 3, 500, "hi", &["111", "222", "333"]),
        &|_| DeviceReply::Submitted(status(200)),
        &|_| DeviceReply::Polled(status(200), Ok(2)),
    );
    assert_eq!(record.outcome, Ok(()));
    assert_eq!(
        record.submits,
        vec!["111".to_string(), "222".to_string(), "333".to_string()]
    );
    assert_eq!(record.polls, 3);
}

#[test]
fn second_recipient_failure_is_returned_unchanged() {
    let record = drive(
        SendSession::start("http://modem", 2, 500, "hi", &["111", "222", "333"]),
        &|index| {
            if index == 1 {
                DeviceReply::Unreachable("connection refused".to_string())
            } else {
                DeviceReply::Submitted(status(200))
            }
        },
        &|_| DeviceReply::Polled(status(200), Ok(2)),
    );
    assert_eq!(record.outcome, Err(SmsError::NetworkError("connection refused".to_string())));
    assert_eq!(record.submits, vec!["111".to_string(), "222".to_string()]);
    assert_eq!(record.polls, 1);
}

#[test]
fn empty_batch_succeeds_without_a_call() {
    let (session, action) = SendSession::start("http://modem", 3, 500, "hi", &[]);
    assert_eq!(action, Action::Done(Ok(())));
    assert!(session.is_finished());
}

#[test]
fn identical_sends_each_make_their_own_calls() {
    let service = AlcatelSmsService::new("http://modem", 3, 500).expect("a service");
    let mut submits = 0;
    let mut polls = 0;
    for _ in 0..2 {
        let record = drive(
            service.send_sms("same text", &["555"]),
            &|_| DeviceReply::Submitted(status(200)),
            &|_| DeviceReply::Polled(status(200), Ok(2)),
        );
        assert_eq!(record.outcome, Ok(()));
        submits += record.submits.len();
        polls += record.polls;
    }
    assert_eq!(submits, 2);
    assert_eq!(polls, 2);
}

#[test]
fn poll_is_only_repeated_after_the_delay() {
    let (mut session, _) = SendSession::start("http://modem", 3, 750, "hi", &["1"]);
    session.advance(DeviceReply::Submitted(status(200)));
    let wait = session.advance(DeviceReply::Polled(status(200), Ok(1)));
    assert_eq!(wait, Some(Action::Wait { millis: 750 }));
    assert_eq!(session.phase(), Phase::Waiting { attempt: 0 });
    assert_eq!(session.advance(DeviceReply::Polled(status(200), Ok(2))), None);
    assert_eq!(session.advance(DeviceReply::Submitted(status(200))), None);
    assert_eq!(session.phase(), Phase::Waiting { attempt: 0 });
    let poll = session.advance(DeviceReply::Waited);
    assert!(matches!(poll, Some(Action::Poll { .. })));
    assert_eq!(session.phase(), Phase::Polling { attempt: 1 });
}

#[test]
fn malformed_poll_body_is_a_parse_error() {
    let record = drive(
        SendSession::start("http://modem", 3, 500, "hi", &["1"]),
        &|_| DeviceReply::Submitted(status(200)),
        &|_| DeviceReply::Polled(status(200), Err("expected value at line 1".to_string())),
    );
    assert_eq!(
        record.outcome,
        Err(SmsError::ResponseParseError("expected value at line 1".to_string()))
    );
    assert_eq!(record.polls, 1);
}

#[test]
fn poll_status_is_judged_before_the_body() {
    let record = drive(
        SendSession::start("http://modem", 3, 500, "hi", &["1"]),
        &|_| DeviceReply::Submitted(status(200)),
        &|_| DeviceReply::Polled(status(401), Err("no body".to_string())),
    );
    assert_eq!(
        record.outcome,
        Err(SmsError::InvalidResponse(HttpStatus::unauthorized(), "Unauthorized".to_string()))
    );
    assert_eq!(record.polls, 1);
}

#[test]
fn network_failure_while_polling_is_final() {
    let record = drive(
        SendSession::start("http://modem", 3, 500, "hi", &["1", "2"]),
        &|_| DeviceReply::Submitted(status(200)),
        &|_| DeviceReply::Unreachable("timed out".to_string()),
    );
    assert_eq!(record.outcome, Err(SmsError::NetworkError("timed out".to_string())));
    assert_eq!(record.submits.len(), 1);
    assert_eq!(record.polls, 1);
    assert!(record.waits.is_empty());
}

#[test]
fn classifier_covers_every_kind_of_status() {
    assert_eq!(ensure_status_is_success("http://m", status(200)), Ok(()));
    assert_eq!(
        ensure_status_is_success("http://m", status(401)),
        Err(SmsError::InvalidResponse(status(401), "Unauthorized".to_string()))
    );
    assert_eq!(
        ensure_status_is_success("http://m", status(404)),
        Err(SmsError::InvalidResponse(
            status(404),
            "We could not find service under url http://m, make sure usb modem is connected and service is running"
                .to_string()
        ))
    );
    assert_eq!(
        ensure_status_is_success("http://m", status(201)),
        Err(SmsError::UnknownError("Unexpected status code: 201 Created".to_string()))
    );
    assert_eq!(
        ensure_status_is_success("http://m", status(799)),
        Err(SmsError::UnknownError(
            "Unexpected status code: 799 <unknown status code>".to_string()
        ))
    );
}

#[test]
fn void_provider_succeeds_without_a_call() {
    let (session, action) = VoidSmsService.send_sms("hi", &["1", "2"]);
    assert_eq!(action, Action::Done(Ok(())));
    assert!(session.is_finished());
    let mut session = session;
    assert_eq!(session.advance(DeviceReply::Submitted(status(200))), None);
}

#[test]
fn provider_is_chosen_by_the_configuration() {
    let void = create_service(&SmsApiConf { provider: SmsApiProvider::Void }).expect("a service");
    assert!(matches!(void, SmsGateway::Void(_)));
    let (_, action) = void.send_sms("hi", &["1"]);
    assert_eq!(action, Action::Done(Ok(())));

    let alcatel = create_service(&SmsApiConf {
        provider: SmsApiProvider::Alcatel {
            url: "http://10.0.0.1".to_string(),
            retry_count: 1,
            retry_delay: 5,
        },
    })
    .expect("a service");
    assert!(matches!(alcatel, SmsGateway::Alcatel(_)));
    let record = drive(
        alcatel.send_sms("hi", &["1"]),
        &|_| DeviceReply::Submitted(status(200)),
        &|_| DeviceReply::Polled(status(200), Ok(0)),
    );
    assert_eq!(record.polls, 1);
    assert!(record.waits.is_empty());
    assert!(record.outcome.is_err());
}

#[test]
fn referer_and_timeout_are_fixed() {
    let service = AlcatelSmsService::new("http://192.168.1.1", 3, 500).expect("a service");
    assert_eq!(service.referer(), "http://192.168.1.1/default.html");
    assert_eq!(REQUEST_TIMEOUT_SECS, 10);
}

#[test]
fn submit_request_has_the_fixed_framing() {
    let request = SendSmsRequest::at_time(
        "Hello".to_string(),
        vec!["123".to_string()],
        "2024-01-02 03:04:05".to_string(),
    );
    assert_eq!(request.id, "6.6");
    assert_eq!(request.jsonrpc, "2.0");
    assert_eq!(request.method, "SendSMS");
    assert_eq!(request.params.sms_id, -1);
    assert_eq!(request.params.sms_content, "Hello");
    assert_eq!(request.params.phone_number, vec!["123".to_string()]);
    assert_eq!(request.params.sms_time, "2024-01-02 03:04:05");
}

#[test]
fn submit_request_is_stamped_with_the_local_time() {
    let request = SendSmsRequest::new("Hello".to_string(), vec!["123".to_string()]);
    assert_eq!(request.params.sms_content, "Hello");
    let stamp: Vec<char> = request.params.sms_time.chars().collect();
    assert_eq!(stamp.len(), 19);
    for (i, c) in stamp.iter().enumerate() {
        match i {
            4 | 7 => assert_eq!(*c, '-'),
            10 => assert_eq!(*c, ' '),
            13 | 16 => assert_eq!(*c, ':'),
            _ => assert!(c.is_ascii_digit()),
        }
    }
}

#[test]
fn submit_body_is_the_wire_format() {
    let request = SendSmsRequest::at_time(
        "Hello world".to_string(),
        vec!["123456789".to_string()],
        "2024-01-02 03:04:05".to_string(),
    );
    assert_eq!(
        request.to_json(),
        r#"{"id":"6.6","jsonrpc":"2.0","method":"SendSMS","params":{"SMSId":-1,"SMSContent":"Hello world","PhoneNumber":["123456789"],"SMSTime":"2024-01-02 03:04:05"}}"#
    );
}

#[test]
fn submit_body_escapes_text_and_lists_every_number() {
    let request = SendSmsRequest::at_time(
        "say \"hi\"\n".to_string(),
        vec!["111".to_string(), "222".to_string(), "333".to_string()],
        "t".to_string(),
    );
    let body = request.to_json();
    assert_eq!(
        body,
        r#"{"id":"6.6","jsonrpc":"2.0","method":"SendSMS","params":{"SMSId":-1,"SMSContent":"say \"hi\"\n","PhoneNumber":["111","222","333"],"SMSTime":"t"}}"#
    );
    let parsed: serde_json::Value = serde_json::from_str(&body).expect("valid JSON");
    assert_eq!(parsed["params"]["SMSContent"].as_str(), Some("say \"hi\"\n"));
    assert_eq!(parsed["params"]["SMSId"].as_i64(), Some(-1));
    assert_eq!(parsed["params"]["PhoneNumber"].as_array().map(|a| a.len()), Some(3));
    assert_eq!(parsed["params"]["PhoneNumber"][2].as_str(), Some("333"));

    let nobody = SendSmsRequest::at_time("x".to_string(), vec![], "t".to_string());
    assert!(nobody.to_json().contains(r#""PhoneNumber":[]"#));
}

fn escaped(text: &str) -> String {
    let mut out = String::from("\"");
    for c in text.chars() {
        match c {
            '"' => out.push_str("\\\""),
            '\\' => out.push_str("\\\\"),
            '\u{8}' => out.push_str("\\b"),
            '\t' => out.push_str("\\t"),
            '\n' => out.push_str("\\n"),
            '\u{c}' => out.push_str("\\f"),
            '\r' => out.push_str("\\r"),
            c if (c as u32) < 0x20 => out.push_str(&format!("\\u00{:02x}", c as u32)),
            c => out.push(c),
        }
    }
    out.push('"');
    out
}

#[test]
fn submit_body_escapes_as_json_asks() {
    let mut samples: Vec<String> = (0u32..0x300)
        .filter_map(char::from_u32)
        .map(|c| format!("a{}b", c))
        .collect();
    samples.push("z\u{7f}\u{2028}\u{1F600}\u{0}\u{1f}\"\\".to_string());
    samples.push(String::new());
    for sample in samples {
        let request = SendSmsRequest::at_time(sample.clone(), vec![sample.clone()], "t".to_string());
        let expected = format!(
            "{{\"id\":\"6.6\",\"jsonrpc\":\"2.0\",\"method\":\"SendSMS\",\"params\":{{\"SMSId\":-1,\"SMSContent\":{},\"PhoneNumber\":[{}],\"SMSTime\":\"t\"}}}}",
            escaped(&sample),
            escaped(&sample)
        );
        assert_eq!(request.to_json(), expected);
    }
}

#[test]
fn batch_succeeds_when_every_recipient_is_confirmed_in_time() {
    // unconfirmed answers before the confirmation, for each recipient: 2, 0, 1
    let answers: Vec<i8> = vec![1, 0, 2, 2, 3, 2];
    let record = drive(
        SendSession::start("http://modem", 3, 40, "hi", &["111", "222", "333"]),
        &|_| DeviceReply::Submitted(status(200)),
        &|poll| DeviceReply::Polled(status(200), Ok(answers[poll])),
    );
    assert_eq!(record.outcome, Ok(()));
    assert_eq!(record.submits.len(), 3);
    assert_eq!(record.polls, 3 + 3);
    assert_eq!(record.waits, vec![40, 40, 40]);
}

#[test]
fn batch_fails_when_one_recipient_is_never_confirmed() {
    let answers: Vec<i8> = vec![2, 1, 1, 1];
    let record = drive(
        SendSession::start("http://modem", 3, 40, "hi", &["111", "222", "333"]),
        &|_| DeviceReply::Submitted(status(200)),
        &|poll| DeviceReply::Polled(status(200), Ok(answers[poll])),
    );
    assert_eq!(
        record.outcome,
        Err(SmsError::UnknownError("Service didn't confirm successful send".to_string()))
    );
    assert_eq!(record.submits, vec!["111".to_string(), "222".to_string()]);
    assert_eq!(record.polls, 4);
    assert_eq!(record.waits, vec![40, 40]);
}
