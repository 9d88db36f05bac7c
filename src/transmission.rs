//! Handing emails to a transport: the providers, what a send reports back,
//! and the transport that sends nothing.
use crate::email::Email;
use crate::message::Message;
use crate::receiver::{Receiver, Sender};
use crate::text::{chars_of, find_char, format_green, format_red, index_of, lower_of, lowercase, END, GREEN, RED};
use vstd::prelude::*;

verus! {

/// Outcome of handing one email to a transport.
#[derive(Debug, Clone, PartialEq, Eq)]
pub enum Status {
    /// Nothing was sent: dry run.
    DryRun,
    /// The transport accepted the email under this message id.
    SentOk(String),
    /// The transport refused the email, for this reason.
    SentError(String),
}

/// The message id in an SMTP reply such as `2.0.0 Ok <id>`: its second
/// space-separated field, or the whole reply when it has a single field.
pub open spec fn smtp_message_id(reply: Seq<char>) -> Seq<char> {
    let i = index_of(reply, ' ', 0);
    if i == reply.len() {
        reply
    } else {
        reply.subrange(i + 1, index_of(reply, ' ', i + 1))
    }
}

proof fn lemma_index_of_bounds(s: Seq<char>, c: char, from: int)
    requires
        0 <= from <= s.len(),
    ensures
        from <= index_of(s, c, from) <= s.len(),
    decreases s.len() - from,
{
    if from < s.len() && s[from] != c {
        lemma_index_of_bounds(s, c, from + 1);
    }
}

impl Status {
    /// The status for a reply of an SMTP server: the message id it names, or
    /// the reason the send failed.
    pub fn from_smtp_reply(reply: Result<&str, &str>) -> (r: Status)
        ensures
            match reply {
                Ok(text) => r matches Status::SentOk(id) && id@ == smtp_message_id(text@),
                Err(reason) => r matches Status::SentError(e) && e@ == reason@,
            },
    {
        match reply {
            Ok(text) => {
                let cs = chars_of(text);
                proof {
                    lemma_index_of_bounds(text@, ' ', 0);
                }
                let i = find_char(&cs, ' ', 0);
                if i == cs.len() {
                    Status::SentOk(String::from_str(text))
                } else {
                    proof {
                        lemma_index_of_bounds(text@, ' ', i + 1);
                    }
                    let j = find_char(&cs, ' ', i + 1);
                    Status::SentOk(String::from_str(text.substring_char(i + 1, j)))
                }
            },
            Err(reason) => Status::SentError(String::from_str(reason)),
        }
    }

    /// The status for the reply of an email API: the message id it returned,
    /// or the reason the send failed.
    pub fn from_api_reply(reply: Result<String, String>) -> (r: Status)
        ensures
            match reply {
                Ok(id) => r matches Status::SentOk(i) && i@ == id@,
                Err(reason) => r matches Status::SentError(e) && e@ == reason@,
            },
    {
        match reply {
            Ok(id) => Status::SentOk(id),
            Err(reason) => Status::SentError(reason),
        }
    }

    /// The status as shown to the user: `dry run` or `ok <id>` in green,
    /// `FAILED <reason>` in red.
    pub fn to_text(&self) -> (r: String)
        ensures
            r@ == match self {
                Status::DryRun => GREEN@ + "dry run"@ + END@,
                Status::SentOk(id) => GREEN@ + "ok"@ + END@ + " "@ + id@,
                Status::SentError(e) => RED@ + "FAILED"@ + END@ + " "@ + e@,
            },
    {
        match self {
            Status::DryRun => format_green("dry run"),
            Status::SentOk(id) => {
                let mut s = format_green("ok");
                s.append(" ");
                s.append(id.as_str());
                s
            },
            Status::SentError(e) => {
                let mut s = format_red("FAILED");
                s.append(" ");
                s.append(e.as_str());
                s
            },
        }
    }
}

/// An email after it was handed to a transport, with what the transport
/// reported.
#[derive(Debug)]
pub struct SentEmail<'a> {
    pub sender: Sender<'a>,
    pub receiver: Receiver<'a>,
    pub message: &'a Message,
    pub status: Status,
}

impl<'a> SentEmail<'a> {
    pub fn new(email: &'a Email<'a>, status: Status) -> (r: SentEmail<'a>)
        ensures
            r.sender == email.sender,
            r.receiver == email.receiver,
            r.message == &email.message,
            r.status == status,
    {
        SentEmail { sender: email.sender, receiver: email.receiver, message: &email.message, status }
    }

    /// The line reported for this email: `<receiver> ... <status>`.
    pub fn status_line(&self) -> (r: String)
        ensures
            r@ == self.receiver.0@ + " ... "@ + self.status.to_text_spec(),
    {
        let mut s = String::from_str(self.receiver.0);
        s.append(" ... ");
        let t = self.status.to_text();
        s.append(t.as_str());
        s
    }
}

impl Status {
    /// The text that [`Status::to_text`] returns.
    pub open spec fn to_text_spec(&self) -> Seq<char> {
        match self {
            Status::DryRun => GREEN@ + "dry run"@ + END@,
            Status::SentOk(id) => GREEN@ + "ok"@ + END@ + " "@ + id@,
            Status::SentError(e) => RED@ + "FAILED"@ + END@ + " "@ + e@,
        }
    }
}

/// A transport that emails can be handed to.
pub trait SendEmail {
    /// Hands `email` over and reports what became of it; a failure of the
    /// transport is reported as [`Status::SentError`], never raised.
    fn send<'a>(&self, email: &'a Email<'a>) -> (r: SentEmail<'a>)
        ensures
            r.sender == email.sender,
            r.receiver == email.receiver,
    ;
}

/// The transport of a dry run: it sends nothing.
#[derive(Debug, Clone, Copy, PartialEq, Eq)]
pub struct MockClient;

impl SendEmail for MockClient {
    /// Hands `email` to nobody; see [`MockClient::dry_send`], which states
    /// that the status is [`Status::DryRun`].
    fn send<'a>(&self, email: &'a Email<'a>) -> (r: SentEmail<'a>)
    {
        self.dry_send(email)
    }
}

impl MockClient {
    /// Hands `email` to nobody: the status is always [`Status::DryRun`].
    pub fn dry_send<'a>(&self, email: &'a Email<'a>) -> (r: SentEmail<'a>)
        ensures
            r.sender == email.sender,
            r.receiver == email.receiver,
            r.status == Status::DryRun,
    {
        SentEmail::new(email, Status::DryRun)
    }
}

/// The provider that emails are handed to.
#[derive(Debug, Clone, Copy, PartialEq, Eq)]
pub enum TransmissionType {
    Smtp,
    Aws,
    Dry,
}

/// A provider name that is not supported.
#[derive(Debug, Clone, PartialEq, Eq)]
pub struct UnsupportedProvider(pub String);

/// The provider for a lowercase name: `smtp` or `aws`, or the mock one in a
/// dry run whatever the name.
pub open spec fn provider_of(dry_run: bool, lowered: Seq<char>) -> Option<TransmissionType> {
    if dry_run {
        Some(TransmissionType::Dry)
    } else if lowered == "smtp"@ {
        Some(TransmissionType::Smtp)
    } else if lowered == "aws"@ {
        Some(TransmissionType::Aws)
    } else {
        None
    }
}

impl TransmissionType {
    /// The provider's name.
    pub fn name(&self) -> (r: &'static str)
        ensures
            r@ == match self {
                TransmissionType::Smtp => "smtp"@,
                TransmissionType::Aws => "aws"@,
                TransmissionType::Dry => "dry"@,
            },
    {
        match self {
            TransmissionType::Smtp => "smtp",
            TransmissionType::Aws => "aws",
            TransmissionType::Dry => "dry",
        }
    }

    /// The provider for a name already in lowercase.
    pub fn from_lowered(dry_run: bool, lowered: &str) -> (r: Result<TransmissionType, UnsupportedProvider>)
        ensures
            match provider_of(dry_run, lowered@) {
                Some(t) => r == Ok::<TransmissionType, UnsupportedProvider>(t),
                None => r matches Err(UnsupportedProvider(name)) && name@ == lowered@,
            },
    {
        if dry_run {
            return Ok(TransmissionType::Dry);
        }
        let name = String::from_str(lowered);
        if name == String::from_str("smtp") {
            Ok(TransmissionType::Smtp)
        } else if name == String::from_str("aws") {
            Ok(TransmissionType::Aws)
        } else {
            Err(UnsupportedProvider(name))
        }
    }

    /// The provider selected by the `connection` argument, compared without
    /// regard to case; a dry run always selects the mock provider.
    pub fn select(dry_run: bool, connection: &str) -> (r: Result<TransmissionType, UnsupportedProvider>)
        ensures
            match provider_of(dry_run, lower_of(connection@)) {
                Some(t) => r == Ok::<TransmissionType, UnsupportedProvider>(t),
                None => r matches Err(UnsupportedProvider(name)) && name@ == lower_of(connection@),
            },
    {
        if dry_run {
            return Ok(TransmissionType::Dry);
        }
        let lowered = lowercase(connection);
        Self::from_lowered(dry_run, lowered.as_str())
    }
}

} // verus!
