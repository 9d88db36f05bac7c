use pigeon_rs::message::Message;
use pigeon_rs::mime::{
    attachment_content_type, check_boundary, Attachment, MimeError, MimeFormat, MimeShape,
};
use pigeon_rs::receiver::{Receiver, Sender};

const TEXT: &str = "This is a test message (plaintext).";
const HTML: &str = "<p>This is a test message (html).</p>";
const OUTER: &str = "OTi56O3hPypBNfzLsCk053S1timfKY03AexmLpxU";
const INNER: &str = "HDKQ1fKhhPf7wLdMpdLSlteF05Rxv6VCIqIQf82I";

fn date() -> u64 {
    chrono::DateTime::parse_from_rfc3339("2024-01-01T14:00:00Z").unwrap().timestamp() as u64
}

fn attachment() -> Attachment {
    Attachment { file_name: "test.txt".to_owned(), bytes: b"This is a test attachment.\n".to_vec() }
}

fn message(text: bool, html: bool) -> Message {
    Message::new(
        "Test Subject".to_owned(),
        if text { Some(TEXT.to_owned()) } else { None },
        if html { Some(HTML.to_owned()) } else { None },
    )
}

fn format(text: bool, html: bool, with_attachment: bool) -> Result<MimeFormat, MimeError> {
    let a = attachment();
    MimeFormat::new_with_boundaries(
        &Sender("albert@einstein.com"),
        &Receiver("marie@curie.com"),
        &message(text, html),
        if with_attachment { Some(&a) } else { None },
        date(),
        vec![OUTER, INNER],
    )
}

fn formatted(f: &MimeFormat) -> String {
    String::from_utf8(f.formatted()).unwrap().replace('\r', "")
}

#[test]
fn all_eight_combinations_have_their_layout() {
    let expected = [
        ((true, true, true), Some(MimeShape::MixedAlternative)),
        ((true, true, false), Some(MimeShape::Alternative)),
        ((true, false, true), Some(MimeShape::MixedText)),
        ((false, true, true), Some(MimeShape::MixedHtml)),
        ((true, false, false), Some(MimeShape::Text)),
        ((false, true, false), Some(MimeShape::Html)),
        ((false, false, true), Some(MimeShape::Attachment)),
        ((false, false, false), None),
    ];
    for ((t, h, a), shape) in expected {
        let res = format(t, h, a);
        match shape {
            Some(s) => assert_eq!(res.unwrap().shape, s),
            None => assert_eq!(res.err().unwrap(), MimeError::EmptyBody),
        }
    }
}

#[test]
fn headers_are_always_present() {
    let out = formatted(&format(true, false, false).unwrap());
    assert!(out.contains("From: albert@einstein.com"));
    assert!(out.contains("To: marie@curie.com"));
    assert!(out.contains("Subject: Test Subject"));
    assert!(out.contains("Date: Mon, 01 Jan 2024 14:00:00 +0000"));
    assert!(out.contains("Content-Type: text/plain; charset=utf-8"));
    assert!(out.contains(TEXT));
    assert!(!out.contains("multipart"));
}

#[test]
fn single_html_part() {
    let out = formatted(&format(false, true, false).unwrap());
    assert!(out.contains("Content-Type: text/html; charset=utf-8"));
    assert!(out.contains(HTML));
    assert!(!out.contains("text/plain"));
}

#[test]
fn alternative_uses_the_given_boundary() {
    let out = formatted(&format(true, true, false).unwrap());
    assert!(out.contains("multipart/alternative"));
    assert!(out.contains(&format!("--{}--", OUTER)));
    assert!(!out.contains("multipart/mixed"));
    let text_at = out.find("text/plain").unwrap();
    let html_at = out.find("text/html").unwrap();
    assert!(text_at < html_at);
}

#[test]
fn mixed_alternative_nests_both_boundaries() {
    let out = formatted(&format(true, true, true).unwrap());
    let mixed_at = out.find("multipart/mixed").unwrap();
    let alternative_at = out.find("multipart/alternative").unwrap();
    assert!(mixed_at < alternative_at);
    assert!(out.contains(&format!("--{}--", OUTER)));
    assert!(out.contains(&format!("--{}--", INNER)));
    assert!(out.contains("Content-Disposition: attachment; filename=\"test.txt\""));
}

#[test]
fn single_attachment_part() {
    let out = formatted(&format(false, false, true).unwrap());
    assert!(out.contains("Content-Type: application/octet-stream"));
    assert!(out.contains("Content-Disposition: attachment; filename=\"test.txt\""));
    assert!(!out.contains("multipart"));
}

#[test]
fn formatting_twice_gives_the_same_bytes() {
    let first = format(true, true, true).unwrap().formatted();
    let second = format(true, true, true).unwrap().formatted();
    assert_eq!(first, second);
}

#[test]
fn random_boundaries_differ_but_layout_does_not() {
    let m = message(true, true);
    let a = MimeFormat::new(&Sender("albert@einstein.com"), &Receiver("marie@curie.com"), &m, None, date()).unwrap();
    let b = MimeFormat::new(&Sender("albert@einstein.com"), &Receiver("marie@curie.com"), &m, None, date()).unwrap();
    assert_eq!(a.shape, MimeShape::Alternative);
    assert_eq!(a.shape, b.shape);
}

#[test]
fn invalid_addresses_are_reported_first() {
    let m = message(false, false);
    let res = MimeFormat::new(&Sender("not an address"), &Receiver("marie@curie.com"), &m, None, date());
    assert_eq!(res.err().unwrap(), MimeError::InvalidSender);
    let res = MimeFormat::new(&Sender("albert@einstein.com"), &Receiver("@@"), &m, None, date());
    assert_eq!(res.err().unwrap(), MimeError::InvalidReceiver);
}

#[test]
fn unusable_boundary_is_refused() {
    let res = MimeFormat::new_with_boundaries(
        &Sender("albert@einstein.com"),
        &Receiver("marie@curie.com"),
        &message(true, true),
        None,
        date(),
        vec!["has \"quotes\""],
    );
    assert_eq!(res.err().unwrap(), MimeError::InvalidBoundary);
    assert!(check_boundary(OUTER));
    assert!(!check_boundary(""));
    assert!(!check_boundary("a b"));
}

#[test]
fn content_type_is_sniffed_from_bytes() {
    let png = [0x89u8, b'P', b'N', b'G', 0x0D, 0x0A, 0x1A, 0x0A, 0, 0, 0, 0];
    assert_eq!(attachment_content_type(&png), "image/png");
    let pdf = b"%PDF-1.4 rest".to_vec();
    assert_eq!(attachment_content_type(&pdf), "application/pdf");
    assert_eq!(attachment_content_type(b"plain words"), "application/octet-stream");
}

fn original_date() -> u64 {
    chrono::DateTime::parse_from_rfc3339("2024-01-01T14:00:00Z")
        .unwrap()
        .timestamp() as u64
}

fn test_txt() -> Attachment {
    Attachment { file_name: "test.txt".to_owned(), bytes: b"This is a test file.\n".to_vec() }
}

#[test]
fn test_mime_format_singlepart_plaintext() {
    let sender = Sender("albert@einstein.com");
    let receiver = Receiver("marie@curie.com");
    let message = Message::new("Test Subject".to_owned(), Some(TEXT.to_owned()), None);
    let res = MimeFormat::new(&sender, &receiver, &message, None, original_date());
    assert!(res.is_ok());
    let mime_format = res.unwrap();
    assert_eq!(mime_format.shape, MimeShape::Text);
    let out = formatted(&mime_format);
    assert!(out.contains("Subject: Test Subject\n"));
    assert!(out.contains("Content-Type: text/plain; charset=utf-8\n"));
    assert!(out.ends_with(&format!("{}\n", TEXT)));
}

#[test]
fn test_mime_format_singlepart_html() {
    let sender = Sender("albert@einstein.com");
    let receiver = Receiver("marie@curie.com");
    let message = Message::new("Test Subject".to_owned(), None, Some(HTML.to_owned()));
    let res = MimeFormat::new(&sender, &receiver, &message, None, original_date());
    assert!(res.is_ok());
    let mime_format = res.unwrap();
    assert_eq!(mime_format.shape, MimeShape::Html);
    let out = formatted(&mime_format);
    assert!(out.contains("Content-Type: text/html; charset=utf-8\n"));
    assert!(out.ends_with(&format!("{}\n", HTML)));
}

#[test]
fn test_mime_format_singlepart_attachment() {
    let sender = Sender("albert@einstein.com");
    let receiver = Receiver("marie@curie.com");
    let message = Message::new("Test Subject".to_owned(), None, None);
    let a = test_txt();
    let res = MimeFormat::new(&sender, &receiver, &message, Some(&a), original_date());
    assert!(res.is_ok());
    let mime_format = res.unwrap();
    assert_eq!(mime_format.shape, MimeShape::Attachment);
    let out = formatted(&mime_format);
    assert!(out.contains("Content-Disposition: attachment; filename=\"test.txt\""));
    assert!(out.contains("This is a test file."));
}

#[test]
fn test_mime_format_multipart_alternative() {
    let message = Message::new("Test Subject".to_owned(), Some(TEXT.to_owned()), Some(HTML.to_owned()));
    let boundaries = vec!["RZcCpBhV4GEzm8ETTVblOuzZ8bwGzGVyjkQfGTMt"];
    let res = MimeFormat::new_with_boundaries(
        &Sender("albert@einstein.com"),
        &Receiver("marie@curie.com"),
        &message,
        None,
        original_date(),
        boundaries,
    );
    assert!(res.is_ok());
    let mime_format = res.unwrap();
    assert_eq!(mime_format.shape, MimeShape::Alternative);
    let out = formatted(&mime_format);
    assert!(out.contains(
        "Content-Type: multipart/alternative;\n boundary=\"RZcCpBhV4GEzm8ETTVblOuzZ8bwGzGVyjkQfGTMt\""
    ) || out.contains(
        "Content-Type: multipart/alternative; boundary=\"RZcCpBhV4GEzm8ETTVblOuzZ8bwGzGVyjkQfGTMt\""
    ));
    assert_eq!(out.matches("--RZcCpBhV4GEzm8ETTVblOuzZ8bwGzGVyjkQfGTMt\n").count(), 2);
    assert!(out.ends_with("--RZcCpBhV4GEzm8ETTVblOuzZ8bwGzGVyjkQfGTMt--\n"));
}

#[test]
fn test_mime_format_multipart_mixed() {
    let message = Message::new("Test Subject".to_owned(), Some(TEXT.to_owned()), None);
    let boundaries = vec!["RZcCpBhV4GEzm8ETTVblOuzZ8bwGzGVyjkQfGTMt"];
    let a = test_txt();
    let res = MimeFormat::new_with_boundaries(
        &Sender("albert@einstein.com"),
        &Receiver("marie@curie.com"),
        &message,
        Some(&a),
        original_date(),
        boundaries,
    );
    assert!(res.is_ok());
    let mime_format = res.unwrap();
    assert_eq!(mime_format.shape, MimeShape::MixedText);
    let out = formatted(&mime_format);
    assert!(out.contains("multipart/mixed"));
    assert_eq!(out.matches("--RZcCpBhV4GEzm8ETTVblOuzZ8bwGzGVyjkQfGTMt\n").count(), 2);
    assert!(out.contains("Content-Disposition: attachment; filename=\"test.txt\""));
}

#[test]
fn test_mime_format_multipart_mixed_alternative() {
    let message = Message::new("Test Subject".to_owned(), Some(TEXT.to_owned()), Some(HTML.to_owned()));
    let boundaries = vec![
        "OTi56O3hPypBNfzLsCk053S1timfKY03AexmLpxU",
        "HDKQ1fKhhPf7wLdMpdLSlteF05Rxv6VCIqIQf82I",
    ];
    let a = test_txt();
    let res = MimeFormat::new_with_boundaries(
        &Sender("albert@einstein.com"),
        &Receiver("marie@curie.com"),
        &message,
        Some(&a),
        original_date(),
        boundaries,
    );
    assert!(res.is_ok());
    let mime_format = res.unwrap();
    assert_eq!(mime_format.shape, MimeShape::MixedAlternative);
    let out = formatted(&mime_format);
    assert_eq!(out.matches("--OTi56O3hPypBNfzLsCk053S1timfKY03AexmLpxU\n").count(), 2);
    assert_eq!(out.matches("--HDKQ1fKhhPf7wLdMpdLSlteF05Rxv6VCIqIQf82I\n").count(), 2);
    let inner_end = out.find("--HDKQ1fKhhPf7wLdMpdLSlteF05Rxv6VCIqIQf82I--").unwrap();
    let outer_end = out.find("--OTi56O3hPypBNfzLsCk053S1timfKY03AexmLpxU--").unwrap();
    assert!(inner_end < outer_end);
}

#[test]
fn date_from_the_year_ten_thousand_is_refused() {
    let m = message(true, false);
    let res = MimeFormat::new(&Sender("albert@einstein.com"), &Receiver("marie@curie.com"), &m, None, 253402300800);
    assert_eq!(res.err().unwrap(), MimeError::DateOutOfRange);
    let res = MimeFormat::new(&Sender("albert@einstein.com"), &Receiver("marie@curie.com"), &m, None, 253402300799);
    assert!(res.is_ok());
}

#[test]
fn attachment_part_carries_sniffed_type() {
    let png = Attachment {
        file_name: "picture.txt".to_owned(),
        bytes: vec![0x89u8, b'P', b'N', b'G', 0x0D, 0x0A, 0x1A, 0x0A, 0, 0, 0, 0],
    };
    let res = MimeFormat::new(
        &Sender("albert@einstein.com"),
        &Receiver("marie@curie.com"),
        &message(true, false),
        Some(&png),
        date(),
    );
    let out = formatted(&res.unwrap());
    assert!(out.contains("Content-Type: image/png"));
    assert!(out.contains("filename=\"picture.txt\""));
}
