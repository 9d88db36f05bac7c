//! The content of an email: subject, plaintext and html, how it is resolved
//! from the caller's inputs, and how placeholders in it are filled in.
use crate::text::{contains, lemma_replace_absent, replace, replace_all};
use vstd::prelude::*;

verus! {

/// File name under which a message template is written and looked up.
pub const TEMPLATE_FILE_NAME: &'static str = "message.yaml";

/// The content of a new, empty message template.
pub const MESSAGE_TEMPLATE: &'static str = "# Specify the subject, plaintext and html version of your email.
# Personalize message by wrapping variables in curly brackets, eg. {first_name}.

# The subject of your email
subject: \"\"
# The plaintext version
text: \"\"
# The html version
html: \"\"
";

/// Subject, plaintext and html version of an email.
#[derive(Debug, Clone, PartialEq, Eq)]
pub struct Message {
    pub subject: String,
    pub text: Option<String>,
    pub html: Option<String>,
}

/// The mathematical content of a [`Message`].
pub struct MessageView {
    pub subject: Seq<char>,
    pub text: Option<Seq<char>>,
    pub html: Option<Seq<char>>,
}

/// The characters of an optional string.
pub open spec fn opt_view(o: Option<String>) -> Option<Seq<char>> {
    match o {
        Some(s) => Some(s@),
        None => None,
    }
}

/// `o` with [`replace_all`] applied inside it, if present.
pub open spec fn opt_replace_all(o: Option<Seq<char>>, pat: Seq<char>, rep: Seq<char>) -> Option<
    Seq<char>,
> {
    match o {
        Some(s) => Some(replace_all(s, pat, rep)),
        None => None,
    }
}

/// The literal token `{name}` that stands for a personalization column.
pub open spec fn placeholder(name: Seq<char>) -> Seq<char> {
    seq!['{'] + name + seq!['}']
}

impl View for Message {
    type V = MessageView;

    open spec fn view(&self) -> MessageView {
        MessageView { subject: self.subject@, text: opt_view(self.text), html: opt_view(self.html) }
    }
}

impl MessageView {
    /// Every `{name}` in subject, text and html replaced by `value`.
    pub open spec fn personalized(self, name: Seq<char>, value: Seq<char>) -> MessageView {
        MessageView {
            subject: replace_all(self.subject, placeholder(name), value),
            text: opt_replace_all(self.text, placeholder(name), value),
            html: opt_replace_all(self.html, placeholder(name), value),
        }
    }

    /// The columns applied one after the other, in the order given, each
    /// with the value at the same position.
    pub open spec fn personalized_all(self, names: Seq<Seq<char>>, values: Seq<Seq<char>>) -> MessageView
        decreases names.len(),
    {
        if names.len() == 0 {
            self
        } else {
            self.personalized_all(names.drop_last(), values).personalized(
                names.last(),
                values[names.len() - 1],
            )
        }
    }
}

/// `s`, with an empty string read as absent.
pub open spec fn non_empty(o: Option<Seq<char>>) -> Option<Seq<char>> {
    match o {
        Some(s) => if s.len() == 0 {
            None
        } else {
            Some(s)
        },
        None => None,
    }
}

fn clone_opt(o: &Option<String>) -> (r: Option<String>)
    ensures
        opt_view(r) == opt_view(*o),
{
    match o {
        Some(s) => Some(s.clone()),
        None => None,
    }
}

fn replace_opt(o: &Option<String>, pat: &str, rep: &str) -> (r: Option<String>)
    requires
        pat@.len() > 0,
    ensures
        opt_view(r) == opt_replace_all(opt_view(*o), pat@, rep@),
{
    match o {
        Some(s) => Some(replace(s.as_str(), pat, rep)),
        None => None,
    }
}

fn drop_empty(o: Option<String>) -> (r: Option<String>)
    ensures
        opt_view(r) == non_empty(opt_view(o)),
{
    match o {
        Some(s) => if s.as_str().is_empty() {
            None
        } else {
            Some(s)
        },
        None => None,
    }
}

impl Message {
    pub fn new(subject: String, text: Option<String>, html: Option<String>) -> (r: Message)
        ensures
            r.subject@ == subject@,
            opt_view(r.text) == opt_view(text),
            opt_view(r.html) == opt_view(html),
    {
        Message { subject, text, html }
    }

    /// A message given on the command line: a subject and a plaintext body.
    pub fn from_literal(subject: String, content: String) -> (r: Message)
        ensures
            r.subject@ == subject@,
            opt_view(r.text) == Some(content@),
            r.html is None,
    {
        Message { subject, text: Some(content), html: None }
    }

    /// A message read from a template document; an empty text or html is
    /// taken as absent.
    pub fn from_template(template: MessageTemplate) -> (r: Message)
        ensures
            r.subject@ == template.subject@,
            opt_view(r.text) == non_empty(opt_view(template.text)),
            opt_view(r.html) == non_empty(opt_view(template.html)),
    {
        Message {
            subject: template.subject,
            text: drop_empty(template.text),
            html: drop_empty(template.html),
        }
    }

    /// Replaces every `{col_name}` in subject, text and html by `col_value`,
    /// in one forward pass per field.
    pub fn personalize(&mut self, col_name: &str, col_value: &str)
        ensures
            final(self)@ == old(self)@.personalized(col_name@, col_value@),
    {
        let mut token = String::from_str("{");
        token.append(col_name);
        token.append("}");
        proof {
            reveal_strlit("{");
            reveal_strlit("}");
            assert(token@ =~= placeholder(col_name@));
        }
        let subject = replace(self.subject.as_str(), token.as_str(), col_value);
        let text = replace_opt(&self.text, token.as_str(), col_value);
        let html = replace_opt(&self.html, token.as_str(), col_value);
        self.subject = subject;
        self.text = text;
        self.html = html;
    }

    /// A copy of this message, with the same content.
    pub fn duplicate(&self) -> (r: Message)
        ensures
            r@ == self@,
    {
        Message {
            subject: self.subject.clone(),
            text: clone_opt(&self.text),
            html: clone_opt(&self.html),
        }
    }

    /// File name of the message template.
    pub fn template_name() -> (r: &'static str)
        ensures
            r@ == TEMPLATE_FILE_NAME@,
    {
        TEMPLATE_FILE_NAME
    }

    /// Resolves the message from the caller's inputs (see [`MessageArgs::source`]).
    pub fn resolve(inputs: MessageInputs) -> (r: Result<Message, RequestError>)
        ensures
            match inputs.args().source_spec() {
                Ok(MessageSource::Literal) => r matches Ok(m) && m@ == (MessageView {
                    subject: inputs.subject->0@,
                    text: Some(inputs.content->0@),
                    html: None,
                }),
                Ok(MessageSource::Template) => r matches Ok(m) && m@ == (MessageView {
                    subject: inputs.template->0.subject@,
                    text: non_empty(opt_view(inputs.template->0.text)),
                    html: non_empty(opt_view(inputs.template->0.html)),
                }),
                Ok(MessageSource::Files) => r matches Ok(m) && m@ == (MessageView {
                    subject: inputs.subject->0@,
                    text: opt_view(inputs.text),
                    html: opt_view(inputs.html),
                }),
                Err(e) => r == Err::<Message, RequestError>(e),
            },
    {
        let args = inputs.args();
        match args.source() {
            Ok(MessageSource::Literal) => match (inputs.subject, inputs.content) {
                (Some(subject), Some(content)) => Ok(Message::from_literal(subject, content)),
                _ => Err(RequestError::MissingArguments),
            },
            Ok(MessageSource::Template) => match inputs.template {
                Some(template) => Ok(Message::from_template(template)),
                None => Err(RequestError::MissingArguments),
            },
            Ok(MessageSource::Files) => match inputs.subject {
                Some(subject) => Ok(Message::new(subject, inputs.text, inputs.html)),
                None => Err(RequestError::MissingArguments),
            },
            Err(e) => Err(e),
        }
    }
}

/// The structured message document: a subject and optional text and html.
#[derive(Debug, Clone, PartialEq, Eq)]
pub struct MessageTemplate {
    pub subject: String,
    pub text: Option<String>,
    pub html: Option<String>,
}

impl MessageTemplate {
    /// File name of the message template.
    pub fn file_name() -> (r: &'static str)
        ensures
            r@ == TEMPLATE_FILE_NAME@,
    {
        TEMPLATE_FILE_NAME
    }
}

/// Which of the message arguments were supplied.
#[derive(Debug, Clone, Copy, PartialEq, Eq)]
pub struct MessageArgs {
    pub subject: bool,
    pub content: bool,
    pub message_file: bool,
    pub text_file: bool,
    pub html_file: bool,
}

/// Where the message comes from.
#[derive(Debug, Clone, Copy, PartialEq, Eq)]
pub enum MessageSource {
    /// A subject and a plaintext content given as arguments.
    Literal,
    /// A structured template document.
    Template,
    /// A subject and separate text and/or html files.
    Files,
}

/// Why the message arguments do not describe one message.
#[derive(Debug, Clone, Copy, PartialEq, Eq)]
pub enum RequestError {
    /// `content` together with `message-file`, `text-file` or `html-file`.
    ContentConflict,
    /// `message-file` together with `text-file` or `html-file`.
    TemplateConflict,
    /// None of the three ways of giving a message is complete.
    MissingArguments,
}

impl RequestError {
    /// A description that names the arguments concerned.
    pub fn describe(&self) -> (r: &'static str) {
        match self {
            RequestError::ContentConflict => {
                "Argument conflict: 'content' cannot be combined with 'message-file', 'text-file' or 'html-file'"
            },
            RequestError::TemplateConflict => {
                "Argument conflict: 'message-file' cannot be combined with 'text-file' or 'html-file'"
            },
            RequestError::MissingArguments => {
                "Missing arguments. Please provide 'subject' and 'content', or 'message-file', or 'subject' with 'text-file' and/or 'html-file'"
            },
        }
    }
}

impl MessageArgs {
    /// The source that the arguments select: conflicts first, then a
    /// literal message, a template, and separate files, in that order.
    pub open spec fn source_spec(self) -> Result<MessageSource, RequestError> {
        if self.content && (self.message_file || self.text_file || self.html_file) {
            Err(RequestError::ContentConflict)
        } else if self.message_file && (self.text_file || self.html_file) {
            Err(RequestError::TemplateConflict)
        } else if self.subject && self.content {
            Ok(MessageSource::Literal)
        } else if self.message_file {
            Ok(MessageSource::Template)
        } else if self.subject && (self.text_file || self.html_file) {
            Ok(MessageSource::Files)
        } else {
            Err(RequestError::MissingArguments)
        }
    }

    pub fn source(&self) -> (r: Result<MessageSource, RequestError>)
        ensures
            r == self.source_spec(),
    {
        if self.content && (self.message_file || self.text_file || self.html_file) {
            Err(RequestError::ContentConflict)
        } else if self.message_file && (self.text_file || self.html_file) {
            Err(RequestError::TemplateConflict)
        } else if self.subject && self.content {
            Ok(MessageSource::Literal)
        } else if self.message_file {
            Ok(MessageSource::Template)
        } else if self.subject && (self.text_file || self.html_file) {
            Ok(MessageSource::Files)
        } else {
            Err(RequestError::MissingArguments)
        }
    }
}

/// The values behind the message arguments, with files already read.
#[derive(Debug, Clone)]
pub struct MessageInputs {
    pub subject: Option<String>,
    pub content: Option<String>,
    pub template: Option<MessageTemplate>,
    pub text: Option<String>,
    pub html: Option<String>,
}

impl MessageInputs {
    pub open spec fn args_spec(&self) -> MessageArgs {
        MessageArgs {
            subject: self.subject is Some,
            content: self.content is Some,
            message_file: self.template is Some,
            text_file: self.text is Some,
            html_file: self.html is Some,
        }
    }

    /// Which arguments these inputs supply.
    #[verifier::when_used_as_spec(args_spec)]
    pub fn args(&self) -> (r: MessageArgs)
        ensures
            r == self.args_spec(),
    {
        MessageArgs {
            subject: self.subject.is_some(),
            content: self.content.is_some(),
            message_file: self.template.is_some(),
            text_file: self.text.is_some(),
            html_file: self.html.is_some(),
        }
    }
}

/// Whether `{name}` occurs in the optional text.
pub open spec fn opt_contains(o: Option<Seq<char>>, pat: Seq<char>) -> bool {
    match o {
        Some(s) => contains(s, pat),
        None => false,
    }
}

/// Personalizing for a column whose placeholder occurs nowhere in the
/// message leaves the message as it is.
pub proof fn lemma_personalize_without_placeholder(m: MessageView, name: Seq<char>, value: Seq<char>)
    requires
        !contains(m.subject, placeholder(name)),
        !opt_contains(m.text, placeholder(name)),
        !opt_contains(m.html, placeholder(name)),
    ensures
        m.personalized(name, value) == m,
{
    lemma_replace_absent(m.subject, placeholder(name), value);
    if let Some(t) = m.text {
        lemma_replace_absent(t, placeholder(name), value);
    }
    if let Some(h) = m.html {
        lemma_replace_absent(h, placeholder(name), value);
    }
}

} // verus!
