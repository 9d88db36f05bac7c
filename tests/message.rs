use pigeon_rs::message::{
    Message, MessageArgs, MessageInputs, MessageSource, MessageTemplate, RequestError,
};

#[test]
fn test_personalize() {
    let text = r#"Dear {first_name} {last_name},
This is a test message (plaintext)."#;
    let html = r#"Dear {first_name} {last_name},
<br>
<br>
This is a test message (html)."#;
    let mut message = Message::new(
        "Test subject".to_owned(),
        Some(text.to_owned()),
        Some(html.to_owned()),
    );
    message.personalize("first_name", "Marie");
    message.personalize("last_name", "Curie");
    assert_eq!(
        message,
        Message {
            subject: "Test subject".to_owned(),
            text: Some("Dear Marie Curie,\nThis is a test message (plaintext).".to_owned()),
            html: Some("Dear Marie Curie,\n<br>\n<br>\nThis is a test message (html).".to_owned())
        }
    );
}

#[test]
fn personalize_leaves_no_placeholder_of_substituted_columns() {
    let mut message = Message::new(
        "Hello {first_name}".to_owned(),
        Some("Dear {first_name} {last_name},\n...".to_owned()),
        None,
    );
    message.personalize("first_name", "Marie");
    message.personalize("last_name", "Curie");
    let text = message.text.clone().unwrap();
    assert_eq!(text, "Dear Marie Curie,\n...");
    assert!(!text.contains("{first_name}"));
    assert!(!text.contains("{last_name}"));
    assert_eq!(message.subject, "Hello Marie");
    assert_eq!(message.html, None);
}

#[test]
fn personalize_replaces_every_occurrence_in_one_pass() {
    let mut message = Message::new("{x}{x} and {x}".to_owned(), None, Some("<b>{x}</b>".to_owned()));
    message.personalize("x", "{x}!");
    assert_eq!(message.subject, "{x}!{x}! and {x}!");
    assert_eq!(message.html, Some("<b>{x}!</b>".to_owned()));
}

#[test]
fn personalize_keeps_later_placeholders_in_values() {
    let mut message = Message::new("{a} {b}".to_owned(), Some("{a}".to_owned()), None);
    message.personalize("a", "{b}");
    message.personalize("b", "B");
    assert_eq!(message.subject, "B B");
    assert_eq!(message.text, Some("B".to_owned()));
}

#[test]
fn personalize_without_placeholder_changes_nothing() {
    let mut message = Message::new("Subject".to_owned(), Some("no braces {here".to_owned()), None);
    let before = message.clone();
    message.personalize("here", "x");
    assert_eq!(message, before);
}

#[test]
fn template_name_is_message_yaml() {
    assert_eq!(Message::template_name(), "message.yaml");
    assert_eq!(MessageTemplate::file_name(), "message.yaml");
}

#[test]
fn template_empty_bodies_read_as_absent() {
    let template = MessageTemplate {
        subject: "Test subject".to_owned(),
        text: Some("".to_owned()),
        html: Some("".to_owned()),
    };
    let message = Message::from_template(template);
    assert_eq!(
        message,
        Message { subject: "Test subject".to_owned(), text: None, html: None }
    );
}

#[test]
fn template_with_bodies_is_kept() {
    let template = MessageTemplate {
        subject: "Test subject".to_owned(),
        text: Some("This is a test message (plaintext).".to_owned()),
        html: None,
    };
    let message = Message::from_template(template);
    assert_eq!(message.text, Some("This is a test message (plaintext).".to_owned()));
    assert_eq!(message.html, None);
}

fn inputs() -> MessageInputs {
    MessageInputs { subject: None, content: None, template: None, text: None, html: None }
}

#[test]
fn test_message_from_args_subject_content() {
    let mut i = inputs();
    i.subject = Some("Test subject".to_owned());
    i.content = Some("This is a test message (plaintext).".to_owned());
    let message = Message::resolve(i).unwrap();
    assert_eq!(
        message,
        Message {
            subject: "Test subject".to_owned(),
            text: Some("This is a test message (plaintext).".to_owned()),
            html: None,
        }
    );
}

#[test]
fn test_message_from_args_message_file() {
    let mut i = inputs();
    i.template = Some(MessageTemplate {
        subject: "Test subject".to_owned(),
        text: Some("This is a test message (plaintext).".to_owned()),
        html: Some("<p>This is a test message (html).</p>".to_owned()),
    });
    let message = Message::resolve(i).unwrap();
    assert_eq!(
        message,
        Message {
            subject: "Test subject".to_owned(),
            text: Some("This is a test message (plaintext).".to_owned()),
            html: Some("<p>This is a test message (html).</p>".to_owned()),
        }
    );
}

#[test]
fn resolve_template_wins_over_subject() {
    let mut i = inputs();
    i.subject = Some("Ignored".to_owned());
    i.template = Some(MessageTemplate {
        subject: "Test subject".to_owned(),
        text: Some("t".to_owned()),
        html: Some("".to_owned()),
    });
    let message = Message::resolve(i).unwrap();
    assert_eq!(message.subject, "Test subject");
    assert_eq!(message.text, Some("t".to_owned()));
    assert_eq!(message.html, None);
}

#[test]
fn test_message_from_args_text_and_html_file() {
    let mut i = inputs();
    i.subject = Some("Test subject".to_owned());
    i.text = Some("This is a test message (plaintext).\n\nThis is the last line.".to_owned());
    i.html = Some("<p>This is a test message (html).</p>\n\n<p>This is the last line.</p>".to_owned());
    let message = Message::resolve(i).unwrap();
    assert_eq!(
        message,
        Message {
            subject: "Test subject".to_owned(),
            text: Some("This is a test message (plaintext).\n\nThis is the last line.".to_owned()),
            html: Some(
                "<p>This is a test message (html).</p>\n\n<p>This is the last line.</p>".to_owned()
            ),
        }
    );
}

#[test]
fn resolve_conflicts_and_missing_arguments() {
    let mut i = inputs();
    i.subject = Some("s".to_owned());
    i.content = Some("c".to_owned());
    i.html = Some("h".to_owned());
    assert_eq!(Message::resolve(i), Err(RequestError::ContentConflict));

    let mut i = inputs();
    i.template = Some(MessageTemplate { subject: "s".to_owned(), text: None, html: None });
    i.text = Some("t".to_owned());
    assert_eq!(Message::resolve(i), Err(RequestError::TemplateConflict));

    let mut i = inputs();
    i.content = Some("c".to_owned());
    assert_eq!(Message::resolve(i), Err(RequestError::MissingArguments));

    let mut i = inputs();
    i.subject = Some("s".to_owned());
    assert_eq!(Message::resolve(i), Err(RequestError::MissingArguments));
    assert!(RequestError::MissingArguments.describe().contains("message-file"));
    assert!(RequestError::ContentConflict.describe().contains("content"));
}

#[test]
fn source_follows_priority() {
    let args = MessageArgs {
        subject: true,
        content: false,
        message_file: false,
        text_file: true,
        html_file: false,
    };
    assert_eq!(args.source(), Ok(MessageSource::Files));
    let args = MessageArgs {
        subject: true,
        content: true,
        message_file: false,
        text_file: false,
        html_file: false,
    };
    assert_eq!(args.source(), Ok(MessageSource::Literal));
    let args = MessageArgs {
        subject: false,
        content: false,
        message_file: true,
        text_file: false,
        html_file: false,
    };
    assert_eq!(args.source(), Ok(MessageSource::Template));
}
