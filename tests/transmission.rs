use pigeon_rs::email::Email;
use pigeon_rs::message::Message;
use pigeon_rs::mime::{MimeError, MimeFormat, MimeShape};
use pigeon_rs::receiver::{Receiver, Sender};
use pigeon_rs::transmission::{MockClient, SendEmail, Status, TransmissionType, UnsupportedProvider};

fn email<'a>(message: &Message) -> Email<'a> {
    let sender = Sender("albert@einstein.com");
    let receiver = Receiver("marie@curie.com");
    let mime = MimeFormat::new(&sender, &receiver, message, None, 1704117600).ok().unwrap();
    Email::new(sender, receiver, message, mime)
}

#[test]
fn dry_run_transport_always_reports_dry_run() {
    let message = Message::new("s".to_owned(), Some("t".to_owned()), None);
    let e = email(&message);
    let sent = MockClient.send(&e);
    assert_eq!(sent.status, Status::DryRun);
    assert_eq!(sent.receiver, Receiver("marie@curie.com"));
    let sent = MockClient.dry_send(&e);
    assert_eq!(sent.status, Status::DryRun);
    assert_eq!(sent.status_line(), "marie@curie.com ... \u{1b}[32mdry run\u{1b}[0m");
}

#[test]
fn smtp_reply_gives_second_field_as_message_id() {
    assert_eq!(
        Status::from_smtp_reply(Ok("2.0.0 Ok: queued as 4ABC")),
        Status::SentOk("Ok:".to_owned())
    );
    assert_eq!(
        Status::from_smtp_reply(Ok("OK 0100018c-abc-000000")),
        Status::SentOk("0100018c-abc-000000".to_owned())
    );
    assert_eq!(Status::from_smtp_reply(Ok("accepted")), Status::SentOk("accepted".to_owned()));
    assert_eq!(
        Status::from_smtp_reply(Err("connection refused")),
        Status::SentError("connection refused".to_owned())
    );
}

#[test]
fn api_reply_gives_status() {
    assert_eq!(Status::from_api_reply(Ok("id-1".to_owned())), Status::SentOk("id-1".to_owned()));
    assert_eq!(
        Status::from_api_reply(Err("throttled".to_owned())),
        Status::SentError("throttled".to_owned())
    );
}

#[test]
fn status_text_is_coloured() {
    assert_eq!(Status::DryRun.to_text(), "\u{1b}[32mdry run\u{1b}[0m");
    assert_eq!(Status::SentOk("42".to_owned()).to_text(), "\u{1b}[32mok\u{1b}[0m 42");
    assert_eq!(Status::SentError("bad".to_owned()).to_text(), "\u{1b}[31mFAILED\u{1b}[0m bad");
}

#[test]
fn provider_selection() {
    assert_eq!(TransmissionType::select(false, "smtp"), Ok(TransmissionType::Smtp));
    assert_eq!(TransmissionType::select(false, "AWS"), Ok(TransmissionType::Aws));
    assert_eq!(TransmissionType::select(true, "smtp"), Ok(TransmissionType::Dry));
    assert_eq!(TransmissionType::select(true, "carrier-pigeon"), Ok(TransmissionType::Dry));
    assert_eq!(
        TransmissionType::select(false, "Carrier-Pigeon"),
        Err(UnsupportedProvider("carrier-pigeon".to_owned()))
    );
    assert_eq!(TransmissionType::from_lowered(false, "aws"), Ok(TransmissionType::Aws));
    assert_eq!(TransmissionType::Smtp.name(), "smtp");
    assert_eq!(TransmissionType::Dry.name(), "dry");
}

#[test]
fn compose_formats_the_single_email() {
    let message = Message::new("s".to_owned(), None, Some("<p>h</p>".to_owned()));
    let e = Email::compose(Sender("albert@einstein.com"), Receiver("marie@curie.com"), &message, None, 1704117600).unwrap();
    assert_eq!(e.mime_format.shape, MimeShape::Html);
    assert_eq!(e.message, message);
    let empty = Message::new("s".to_owned(), None, None);
    let res = Email::compose(Sender("albert@einstein.com"), Receiver("marie@curie.com"), &empty, None, 1704117600);
    assert_eq!(res.err().unwrap(), MimeError::EmptyBody);
}

#[test]
fn test_client_from_args_dry() {
    let transmission_type = TransmissionType::select(true, "smtp");
    assert!(transmission_type.is_ok());
    assert_eq!(transmission_type.unwrap(), TransmissionType::Dry);
}
