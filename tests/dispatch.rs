use pigeon_rs::dispatch::{closing_line, Action, Confirmed, Dispatch, Event, Stage};

#[test]
fn maybe_then_yes_sends_exactly_once() {
    let (mut d, action) = Dispatch::new(1, false, false);
    assert_eq!(action, Action::Prompt);
    let mut sends = 0;
    let mut answers = vec!["maybe", "y"].into_iter();
    let mut action = action;
    loop {
        action = match action {
            Action::Prompt | Action::Reprompt => d.step(&Event::Answer(answers.next().unwrap().to_owned())),
            Action::Send(_) => {
                sends += 1;
                d.step(&Event::Sent)
            }
            Action::Archive(_) => d.step(&Event::Archived),
            Action::Finish | Action::Abort => break,
        };
    }
    assert_eq!(sends, 1);
    assert_eq!(d.stage, Stage::Done);
}

#[test]
fn invalid_answer_reprompts_without_advancing() {
    let (mut d, _) = Dispatch::new(2, false, true);
    assert_eq!(d.step(&Event::Answer("maybe".to_owned())), Action::Reprompt);
    assert_eq!(d.stage, Stage::AwaitingConfirmation);
    assert_eq!(d.step(&Event::Sent), Action::Prompt);
    assert_eq!(d.stage, Stage::AwaitingConfirmation);
}

#[test]
fn no_aborts_and_never_sends() {
    let (mut d, _) = Dispatch::new(3, false, true);
    assert_eq!(d.step(&Event::Answer(" No \n".to_owned())), Action::Abort);
    assert_eq!(d.stage, Stage::Skipped);
    assert_eq!(d.step(&Event::Sent), Action::Abort);
    assert_eq!(d.step(&Event::Answer("yes".to_owned())), Action::Abort);
}

#[test]
fn assume_yes_sends_and_archives_in_order() {
    let (mut d, action) = Dispatch::new(2, true, true);
    assert_eq!(action, Action::Send(0));
    assert_eq!(d.step(&Event::Sent), Action::Archive(0));
    assert_eq!(d.step(&Event::Archived), Action::Send(1));
    assert_eq!(d.step(&Event::Sent), Action::Archive(1));
    assert_eq!(d.step(&Event::Archived), Action::Finish);
    assert_eq!(d.stage, Stage::Done);
}

#[test]
fn without_archive_and_with_no_emails() {
    let (mut d, action) = Dispatch::new(2, true, false);
    assert_eq!(action, Action::Send(0));
    assert_eq!(d.step(&Event::Sent), Action::Send(1));
    assert_eq!(d.step(&Event::Sent), Action::Finish);
    let (_, action) = Dispatch::new(0, true, true);
    assert_eq!(action, Action::Finish);
}

#[test]
fn answers_are_read_case_insensitively() {
    assert_eq!(Confirmed::from_answer("y\n"), Some(Confirmed::Yes));
    assert_eq!(Confirmed::from_answer("  YES "), Some(Confirmed::Yes));
    assert_eq!(Confirmed::from_answer("Yes"), Some(Confirmed::Yes));
    assert_eq!(Confirmed::from_answer("n"), Some(Confirmed::No));
    assert_eq!(Confirmed::from_answer("No"), Some(Confirmed::No));
    assert_eq!(Confirmed::from_answer("maybe"), None);
    assert_eq!(Confirmed::from_answer(""), None);
    assert_eq!(Confirmed::from_lowered("yes"), Some(Confirmed::Yes));
    assert_eq!(Confirmed::from_lowered("YES"), None);
}

#[test]
fn closing_lines() {
    assert_eq!(closing_line(Action::Finish, false, false), "Email sent");
    assert_eq!(closing_line(Action::Finish, true, false), "Email sent (dry run)");
    assert_eq!(closing_line(Action::Finish, false, true), "All emails sent");
    assert_eq!(closing_line(Action::Finish, true, true), "All emails sent (dry run)");
    assert_eq!(closing_line(Action::Abort, true, true), "Aborted");
}
