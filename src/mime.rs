//! MIME formatting of one email: which parts the body has, how they nest,
//! and their assembly into a message by the `lettre` builder.
use crate::message::{Message, MessageView};
use crate::receiver::{Receiver, Sender};
use lettre::address::AddressError;
use lettre::message::header::{ContentDisposition, ContentType, ContentTypeErr};
use lettre::message::{Mailbox, MultiPart, MultiPartBuilder, SinglePart};
use lettre::Message as LettreMessage;
use std::time::{Duration, UNIX_EPOCH};
use vstd::prelude::*;

verus! {

#[verifier::external_type_specification]
#[verifier::external_body]
pub struct ExMailbox(Mailbox);

#[verifier::external_type_specification]
#[verifier::external_body]
pub struct ExAddressError(AddressError);

#[verifier::external_type_specification]
#[verifier::external_body]
pub struct ExContentType(ContentType);

#[verifier::external_type_specification]
#[verifier::external_body]
pub struct ExContentTypeErr(ContentTypeErr);

#[verifier::external_type_specification]
#[verifier::external_body]
pub struct ExSinglePart(SinglePart);

#[verifier::external_type_specification]
#[verifier::external_body]
pub struct ExMultiPart(MultiPart);

#[verifier::external_type_specification]
#[verifier::external_body]
pub struct ExMultiPartBuilder(MultiPartBuilder);

#[verifier::external_type_specification]
#[verifier::external_body]
pub struct ExLettreMessage(LettreMessage);

#[verifier::external_type_specification]
#[verifier::external_body]
pub struct ExLettreError(lettre::error::Error);

/// Whether `lettre` reads the text as a mailbox (`name <user@domain>` or a
/// bare address).
pub uninterp spec fn mailbox_parses(s: Seq<char>) -> bool;

/// Whether `lettre` accepts the text as a `Content-Type` value.
pub uninterp spec fn content_type_parses(s: Seq<char>) -> bool;

/// The MIME type that `infer` recognises from the leading bytes of a file,
/// if any.
pub uninterp spec fn sniffed_mime_type(bytes: Seq<u8>) -> Option<Seq<char>>;

/// The RFC 5322 bytes that lettre's `Message::formatted` gives a message
/// with these headers and this body.
pub uninterp spec fn mime_bytes(mail: MailModel) -> Seq<u8>;

/// Content type used when the bytes of an attachment are not recognised.
pub const OCTET_STREAM: &'static str = "application/octet-stream";

/// Longest boundary that RFC 2046 allows.
pub const MAX_BOUNDARY_LEN: usize = 70;

/// First second, counted from the Unix epoch, of the year 10000: the `Date`
/// header can only show earlier instants.
pub const MAX_DATE_SECS: u64 = 253402300800;

/// One leaf part of a body.
pub enum PartModel {
    /// `text/plain; charset=utf-8` with this text.
    Plain(Seq<char>),
    /// `text/html; charset=utf-8` with this html.
    Html(Seq<char>),
    /// An attachment: its content type, file name and bytes.
    File { content_type: Seq<char>, file_name: Seq<char>, bytes: Seq<u8> },
}

/// The kind of a multipart.
#[derive(Debug, Clone, Copy, PartialEq, Eq)]
pub enum MultiKind {
    Mixed,
    Alternative,
}

/// A MIME body: a leaf part, or a multipart with its boundary and its parts
/// in order.
pub enum MimeNode {
    Part(PartModel),
    Multi { kind: MultiKind, boundary: Seq<char>, parts: Seq<MimeNode> },
}

/// A whole message: its `From`, `To`, `Subject` and `Date` (seconds after
/// the Unix epoch) headers and its body.
pub struct MailModel {
    pub from: Seq<char>,
    pub to: Seq<char>,
    pub subject: Seq<char>,
    pub date: int,
    pub body: MimeNode,
}

/// `node` with `part` appended, if it is a multipart.
pub open spec fn with_part(node: MimeNode, part: PartModel) -> MimeNode {
    match node {
        MimeNode::Multi { kind, boundary, parts } => MimeNode::Multi {
            kind,
            boundary,
            parts: parts.push(MimeNode::Part(part)),
        },
        MimeNode::Part(p) => MimeNode::Part(p),
    }
}

/// A message with these headers and body.
pub open spec fn mail_model(from: Seq<char>, to: Seq<char>, subject: Seq<char>, date: int, body: MimeNode) -> MailModel {
    MailModel { from, to, subject, date, body }
}

struct Address {
    mailbox: Mailbox,
    text: Ghost<Seq<char>>,
}

struct TypeHeader {
    content_type: ContentType,
    text: Ghost<Seq<char>>,
}

struct Part {
    part: SinglePart,
    model: Ghost<PartModel>,
}

struct MultiStart {
    builder: MultiPartBuilder,
    kind: Ghost<MultiKind>,
    boundary: Ghost<Seq<char>>,
}

struct Multi {
    multi: MultiPart,
    model: Ghost<MimeNode>,
}

/// A message built by lettre, with the headers and body it was built from.
pub struct Mail {
    message: LettreMessage,
    model: Ghost<MailModel>,
}

impl Mail {
    /// The headers and body of the message.
    pub closed spec fn model(&self) -> MailModel {
        self.model@
    }

    /// The message as lettre holds it, for a transport.
    pub fn lettre_message(&self) -> &LettreMessage {
        &self.message
    }

    /// The message as RFC 5322 bytes, as handed to a transport or archived.
    pub fn formatted(&self) -> (r: Vec<u8>)
        ensures
            r@ == mime_bytes(self.model()),
    {
        formatted_bytes(self)
    }
}

/// Relies on `Mailbox`'s `FromStr` impl in lettre: the outcome depends on
/// the text alone.
#[verifier::external_body]
fn parse_mailbox(s: &str) -> (r: Result<Address, AddressError>)
    ensures
        r is Ok <==> mailbox_parses(s@),
        r matches Ok(a) ==> a.text@ == s@,
{
    match s.parse::<Mailbox>() {
        Ok(mailbox) => Ok(Address { mailbox, text: Ghost(s@) }),
        Err(e) => Err(e),
    }
}

/// Relies on lettre's `ContentType::parse`: the outcome depends on the text
/// alone.
#[verifier::external_body]
fn parse_content_type(s: &str) -> (r: Result<TypeHeader, ContentTypeErr>)
    ensures
        r is Ok <==> content_type_parses(s@),
        r matches Ok(t) ==> t.text@ == s@,
{
    match ContentType::parse(s) {
        Ok(content_type) => Ok(TypeHeader { content_type, text: Ghost(s@) }),
        Err(e) => Err(e),
    }
}

/// Relies on `infer::get`: the MIME type it detects from the bytes, if any.
#[verifier::external_body]
fn sniff_mime_type(bytes: &[u8]) -> (r: Option<&'static str>)
    ensures
        match r {
            Some(t) => sniffed_mime_type(bytes@) == Some(t@),
            None => sniffed_mime_type(bytes@) is None,
        },
{
    infer::get(bytes).map(|kind| kind.mime_type())
}

/// Relies on `uuid::Uuid::new_v4` and its `simple` form: 32 random
/// lowercase hexadecimal digits, a usable multipart boundary.
#[verifier::external_body]
fn random_boundary() -> (r: String)
    ensures
        is_boundary(r@),
{
    uuid::Uuid::new_v4().simple().to_string()
}

/// Relies on lettre's `SinglePart` builder: a `text/plain; charset=utf-8`
/// part holding `text`.
#[verifier::external_body]
fn text_plain_part(text: &str) -> (r: Part)
    ensures
        r.model@ == PartModel::Plain(text@),
{
    let part = SinglePart::builder().header(ContentType::TEXT_PLAIN).body(text.to_string());
    Part { part, model: Ghost(PartModel::Plain(text@)) }
}

/// Relies on lettre's `SinglePart` builder: a `text/html; charset=utf-8`
/// part holding `html`.
#[verifier::external_body]
fn text_html_part(html: &str) -> (r: Part)
    ensures
        r.model@ == PartModel::Html(html@),
{
    let part = SinglePart::builder().header(ContentType::TEXT_HTML).body(html.to_string());
    Part { part, model: Ghost(PartModel::Html(html@)) }
}

/// Relies on lettre's `SinglePart` builder and `ContentDisposition::attachment`:
/// an attachment part of this type, named `file_name`, holding `bytes`.
#[verifier::external_body]
fn attachment_part(content_type: TypeHeader, file_name: &str, bytes: Vec<u8>) -> (r: Part)
    ensures
        r.model@ == (PartModel::File { content_type: content_type.text@, file_name: file_name@, bytes: bytes@ }),
{
    let model = Ghost(PartModel::File { content_type: content_type.text@, file_name: file_name@, bytes: bytes@ });
    let disposition = ContentDisposition::attachment(file_name);
    let part = SinglePart::builder().header(content_type.content_type).header(disposition).body(bytes);
    Part { part, model }
}

/// Relies on lettre's `MultiPart::mixed` and `MultiPartBuilder::boundary`,
/// which panics on a boundary that it cannot quote; an ASCII alphanumeric
/// one is always accepted.
#[verifier::external_body]
fn mixed_start(boundary: &str) -> (r: MultiStart)
    requires
        is_boundary(boundary@),
    ensures
        r.kind@ == MultiKind::Mixed,
        r.boundary@ == boundary@,
{
    let builder = MultiPart::mixed().boundary(boundary);
    MultiStart { builder, kind: Ghost(MultiKind::Mixed), boundary: Ghost(boundary@) }
}

/// Relies on lettre's `MultiPart::alternative` and
/// `MultiPartBuilder::boundary`, as for [`mixed_start`].
#[verifier::external_body]
fn alternative_start(boundary: &str) -> (r: MultiStart)
    requires
        is_boundary(boundary@),
    ensures
        r.kind@ == MultiKind::Alternative,
        r.boundary@ == boundary@,
{
    let builder = MultiPart::alternative().boundary(boundary);
    MultiStart { builder, kind: Ghost(MultiKind::Alternative), boundary: Ghost(boundary@) }
}

/// Relies on lettre's `MultiPartBuilder::singlepart`: a multipart whose
/// only part is `part`.
#[verifier::external_body]
fn multipart_of_single(start: MultiStart, part: Part) -> (r: Multi)
    ensures
        r.model@ == (MimeNode::Multi { kind: start.kind@, boundary: start.boundary@, parts: seq![MimeNode::Part(part.model@)] }),
{
    let model = Ghost(MimeNode::Multi { kind: start.kind@, boundary: start.boundary@, parts: seq![MimeNode::Part(part.model@)] });
    Multi { multi: start.builder.singlepart(part.part), model }
}

/// Relies on lettre's `MultiPartBuilder::multipart`: a multipart whose only
/// part is the nested `inner`.
#[verifier::external_body]
fn multipart_of_multi(start: MultiStart, inner: Multi) -> (r: Multi)
    ensures
        r.model@ == (MimeNode::Multi { kind: start.kind@, boundary: start.boundary@, parts: seq![inner.model@] }),
{
    let model = Ghost(MimeNode::Multi { kind: start.kind@, boundary: start.boundary@, parts: seq![inner.model@] });
    Multi { multi: start.builder.multipart(inner.multi), model }
}

/// Relies on lettre's `MultiPart::singlepart`: `multi` with `part` appended.
#[verifier::external_body]
fn append_single(multi: Multi, part: Part) -> (r: Multi)
    ensures
        r.model@ == with_part(multi.model@, part.model@),
{
    let model = Ghost(with_part(multi.model@, part.model@));
    Multi { multi: multi.multi.singlepart(part.part), model }
}

/// Relies on lettre's `MessageBuilder` (`from`, `to`, `subject`, `date`) and
/// `singlepart`. Building fails only without `From`, with several `From`
/// and no `Sender`, or without a recipient; here one `From` and one `To`
/// are set. The date is before the year 10000, which `Date` can show.
#[verifier::external_body]
fn build_single(from: Address, to: Address, subject: &str, date: u64, part: Part) -> (r: Result<Mail, lettre::error::Error>)
    requires
        date < MAX_DATE_SECS,
    ensures
        match r {
            Ok(m) => m.model@ == mail_model(from.text@, to.text@, subject@, date as int, MimeNode::Part(part.model@)),
            Err(_) => false,
        },
{
    let model = Ghost(mail_model(from.text@, to.text@, subject@, date as int, MimeNode::Part(part.model@)));
    let builder = LettreMessage::builder().from(from.mailbox).to(to.mailbox).subject(subject);
    let message = builder.date(UNIX_EPOCH + Duration::from_secs(date)).singlepart(part.part)?;
    Ok(Mail { message, model })
}

/// Relies on lettre's `MessageBuilder` and `multipart`, as for
/// [`build_single`].
#[verifier::external_body]
fn build_multi(from: Address, to: Address, subject: &str, date: u64, body: Multi) -> (r: Result<Mail, lettre::error::Error>)
    requires
        date < MAX_DATE_SECS,
    ensures
        match r {
            Ok(m) => m.model@ == mail_model(from.text@, to.text@, subject@, date as int, body.model@),
            Err(_) => false,
        },
{
    let model = Ghost(mail_model(from.text@, to.text@, subject@, date as int, body.model@));
    let builder = LettreMessage::builder().from(from.mailbox).to(to.mailbox).subject(subject);
    let message = builder.date(UNIX_EPOCH + Duration::from_secs(date)).multipart(body.multi)?;
    Ok(Mail { message, model })
}

/// Relies on lettre's `Message::formatted`: the message as RFC 5322 bytes.
#[verifier::external_body]
fn formatted_bytes(mail: &Mail) -> (r: Vec<u8>)
    ensures
        r@ == mime_bytes(mail.model@),
{
    mail.message.formatted()
}

/// A file attached to an email: its name and its content.
#[derive(Debug, Clone, PartialEq, Eq)]
pub struct Attachment {
    pub file_name: String,
    pub bytes: Vec<u8>,
}

/// The layout of an email body, after which parts are present.
#[derive(Debug, Clone, Copy, PartialEq, Eq)]
pub enum MimeShape {
    /// A single `text/plain` part.
    Text,
    /// A single `text/html` part.
    Html,
    /// A single attachment part.
    Attachment,
    /// `multipart/alternative` of text and html.
    Alternative,
    /// `multipart/mixed` of text and the attachment.
    MixedText,
    /// `multipart/mixed` of html and the attachment.
    MixedHtml,
    /// `multipart/mixed` of an alternative of text and html, and the attachment.
    MixedAlternative,
}

/// The layout for the parts present; `None` when there is no part at all.
pub open spec fn shape_of(text: bool, html: bool, attachment: bool) -> Option<MimeShape> {
    match (text, html, attachment) {
        (true, true, true) => Some(MimeShape::MixedAlternative),
        (true, true, false) => Some(MimeShape::Alternative),
        (true, false, true) => Some(MimeShape::MixedText),
        (false, true, true) => Some(MimeShape::MixedHtml),
        (true, false, false) => Some(MimeShape::Text),
        (false, true, false) => Some(MimeShape::Html),
        (false, false, true) => Some(MimeShape::Attachment),
        (false, false, false) => None,
    }
}

impl MimeShape {
    /// How many multipart boundaries the layout uses.
    pub open spec fn boundary_count_spec(self) -> nat {
        match self {
            MimeShape::MixedAlternative => 2,
            MimeShape::Alternative | MimeShape::MixedText | MimeShape::MixedHtml => 1,
            _ => 0,
        }
    }

    /// Whether the layout is a multipart one.
    pub open spec fn is_multipart(self) -> bool {
        self.boundary_count_spec() > 0
    }

    /// The layout for the parts present, or `EmptyBody` when there is none.
    pub fn of_parts(text: bool, html: bool, attachment: bool) -> (r: Result<MimeShape, MimeError>)
        ensures
            match shape_of(text, html, attachment) {
                Some(s) => r == Ok::<MimeShape, MimeError>(s),
                None => r == Err::<MimeShape, MimeError>(MimeError::EmptyBody),
            },
    {
        match (text, html, attachment) {
            (true, true, true) => Ok(MimeShape::MixedAlternative),
            (true, true, false) => Ok(MimeShape::Alternative),
            (true, false, true) => Ok(MimeShape::MixedText),
            (false, true, true) => Ok(MimeShape::MixedHtml),
            (true, false, false) => Ok(MimeShape::Text),
            (false, true, false) => Ok(MimeShape::Html),
            (false, false, true) => Ok(MimeShape::Attachment),
            (false, false, false) => Err(MimeError::EmptyBody),
        }
    }
}

/// Why an email could not be put in MIME form.
#[derive(Debug, Clone, PartialEq, Eq)]
pub enum MimeError {
    /// The sender is not a valid mailbox.
    InvalidSender,
    /// The receiver is not a valid mailbox.
    InvalidReceiver,
    /// The date is in the year 10000 or later.
    DateOutOfRange,
    /// Neither text, html nor attachment is present.
    EmptyBody,
    /// The attachment's file name cannot be represented.
    InvalidAttachmentName,
    /// The attachment could not be read.
    AttachmentReadFailure,
    /// The content type detected for the attachment is not accepted.
    UnsupportedContentType,
    /// A multipart boundary given by the caller is not usable.
    InvalidBoundary,
}

/// Whether `c` is an ASCII letter or digit.
pub open spec fn is_alphanumeric(c: char) -> bool {
    ('a' <= c && c <= 'z') || ('A' <= c && c <= 'Z') || ('0' <= c && c <= '9')
}

/// A usable multipart boundary: 1 to 70 ASCII letters and digits.
pub open spec fn is_boundary(s: Seq<char>) -> bool {
    1 <= s.len() <= MAX_BOUNDARY_LEN && forall|i: int| 0 <= i < s.len() ==> is_alphanumeric(#[trigger] s[i])
}

/// Whether `s` is a usable multipart boundary.
pub fn check_boundary(s: &str) -> (r: bool)
    ensures
        r == is_boundary(s@),
{
    let n = s.unicode_len();
    if n < 1 || n > MAX_BOUNDARY_LEN {
        return false;
    }
    let cs = crate::text::chars_of(s);
    let mut i: usize = 0;
    while i < n
        invariant
            cs@ == s@,
            n == s@.len(),
            i <= n,
            forall|j: int| 0 <= j < i ==> is_alphanumeric(#[trigger] s@[j]),
        decreases n - i,
    {
        let c = cs[i];
        if !(('a' <= c && c <= 'z') || ('A' <= c && c <= 'Z') || ('0' <= c && c <= '9')) {
            return false;
        }
        i = i + 1;
    }
    true
}

/// The MIME type of an attachment: what `infer` detects from its bytes, or
/// `application/octet-stream` when it detects nothing.
pub open spec fn attachment_type_of(bytes: Seq<u8>) -> Seq<char> {
    match sniffed_mime_type(bytes) {
        Some(t) => t,
        None => OCTET_STREAM@,
    }
}

/// The MIME type of an attachment, sniffed from its content.
pub fn attachment_content_type(bytes: &[u8]) -> (r: &'static str)
    ensures
        r@ == attachment_type_of(bytes@),
{
    match sniff_mime_type(bytes) {
        Some(t) => t,
        None => OCTET_STREAM,
    }
}

/// Whether every boundary given is usable.
pub open spec fn all_boundaries(bs: Seq<&str>) -> bool {
    forall|i: int| 0 <= i < bs.len() ==> is_boundary(#[trigger] bs[i]@)
}

/// The name and bytes of the attachment, if there is one.
pub open spec fn attachment_view(attachment: Option<&Attachment>) -> Option<(Seq<char>, Seq<u8>)> {
    match attachment {
        Some(a) => Some((a.file_name@, a.bytes@)),
        None => None,
    }
}

/// The bytes of an attachment view, if there is one.
pub open spec fn view_bytes(attachment: Option<(Seq<char>, Seq<u8>)>) -> Option<Seq<u8>> {
    match attachment {
        Some(a) => Some(a.1),
        None => None,
    }
}

/// The bytes of the attachment, if there is one.
pub open spec fn attachment_bytes(attachment: Option<&Attachment>) -> Option<Seq<u8>> {
    match attachment {
        Some(a) => Some(a.bytes@),
        None => None,
    }
}

/// The text part with `t`.
pub open spec fn plain_node(t: Seq<char>) -> MimeNode {
    MimeNode::Part(PartModel::Plain(t))
}

/// The html part with `h`.
pub open spec fn html_node(h: Seq<char>) -> MimeNode {
    MimeNode::Part(PartModel::Html(h))
}

/// The attachment part: the sniffed content type, the file name and the bytes.
pub open spec fn file_node(a: (Seq<char>, Seq<u8>)) -> MimeNode {
    MimeNode::Part(PartModel::File { content_type: attachment_type_of(a.1), file_name: a.0, bytes: a.1 })
}

/// The body for the parts present, with the boundaries used, the outer one
/// first.
pub open spec fn body_of(
    text: Option<Seq<char>>,
    html: Option<Seq<char>>,
    attachment: Option<(Seq<char>, Seq<u8>)>,
    b: Seq<Seq<char>>,
) -> MimeNode {
    match (text, html, attachment) {
        (Some(t), Some(h), Some(a)) => MimeNode::Multi {
            kind: MultiKind::Mixed,
            boundary: b[0],
            parts: seq![
                MimeNode::Multi { kind: MultiKind::Alternative, boundary: b[1], parts: seq![plain_node(t), html_node(h)] },
                file_node(a),
            ],
        },
        (Some(t), Some(h), None) => MimeNode::Multi {
            kind: MultiKind::Alternative,
            boundary: b[0],
            parts: seq![plain_node(t), html_node(h)],
        },
        (Some(t), None, Some(a)) => MimeNode::Multi { kind: MultiKind::Mixed, boundary: b[0], parts: seq![plain_node(t), file_node(a)] },
        (None, Some(h), Some(a)) => MimeNode::Multi { kind: MultiKind::Mixed, boundary: b[0], parts: seq![html_node(h), file_node(a)] },
        (Some(t), None, None) => plain_node(t),
        (None, Some(h), None) => html_node(h),
        (None, None, Some(a)) => file_node(a),
        (None, None, None) => plain_node(seq![]),
    }
}

/// The message for these inputs, with the boundaries used.
pub open spec fn mail_of(
    sender: Seq<char>,
    receiver: Seq<char>,
    message: MessageView,
    attachment: Option<(Seq<char>, Seq<u8>)>,
    now: u64,
    b: Seq<Seq<char>>,
) -> MailModel {
    mail_model(sender, receiver, message.subject, now as int, body_of(message.text, message.html, attachment, b))
}

/// The first error that formatting meets, in the order: sender, receiver,
/// date, empty body, boundaries, attachment type; `None` when there is none.
pub open spec fn format_error(
    sender: Seq<char>,
    receiver: Seq<char>,
    message: MessageView,
    attachment: Option<Seq<u8>>,
    now: u64,
    boundaries: Seq<&str>,
) -> Option<MimeError> {
    if !mailbox_parses(sender) {
        Some(MimeError::InvalidSender)
    } else if !mailbox_parses(receiver) {
        Some(MimeError::InvalidReceiver)
    } else if now >= MAX_DATE_SECS {
        Some(MimeError::DateOutOfRange)
    } else if shape_of(message.text is Some, message.html is Some, attachment is Some) is None {
        Some(MimeError::EmptyBody)
    } else if !all_boundaries(boundaries) {
        Some(MimeError::InvalidBoundary)
    } else if attachment matches Some(b) && !content_type_parses(attachment_type_of(b)) {
        Some(MimeError::UnsupportedContentType)
    } else {
        None
    }
}

/// Whether `used` are the boundaries of a body of this shape: as many as it
/// needs, all usable, the given ones first.
pub open spec fn boundaries_fit(used: Seq<Seq<char>>, shape: MimeShape, given: Seq<&str>) -> bool {
    &&& used.len() == shape.boundary_count_spec()
    &&& forall|k: int| 0 <= k < used.len() ==> is_boundary(#[trigger] used[k])
    &&& forall|k: int| 0 <= k < used.len() && k < given.len() ==> used[k] == (#[trigger] given[k])@
}

/// Whether `f` is the MIME form of these inputs: the layout that the parts
/// present call for, usable boundaries (the given ones first), and the
/// message with the headers from the inputs and the body of that layout.
pub open spec fn formatted_as(
    f: MimeFormat,
    sender: Seq<char>,
    receiver: Seq<char>,
    message: MessageView,
    attachment: Option<(Seq<char>, Seq<u8>)>,
    now: u64,
    boundaries: Seq<&str>,
) -> bool {
    &&& Some(f.shape) == shape_of(message.text is Some, message.html is Some, attachment is Some)
    &&& boundaries_fit(f.boundaries@, f.shape, boundaries)
    &&& f.message.model() == mail_of(sender, receiver, message, attachment, now, f.boundaries@)
}

/// What formatting returns: the first error met, if any; otherwise the
/// message with the headers taken from the inputs and the body that the
/// parts present call for.
pub open spec fn format_outcome(
    r: Result<MimeFormat, MimeError>,
    sender: Seq<char>,
    receiver: Seq<char>,
    message: MessageView,
    attachment: Option<(Seq<char>, Seq<u8>)>,
    now: u64,
    boundaries: Seq<&str>,
) -> bool {
    match format_error(sender, receiver, message, view_bytes(attachment), now, boundaries) {
        Some(e) => r == Err::<MimeFormat, MimeError>(e),
        None => r matches Ok(f) && formatted_as(f, sender, receiver, message, attachment, now, boundaries),
    }
}

/// An email in MIME form: the message, the layout of its body and the
/// multipart boundaries used, the outer one first.
pub struct MimeFormat {
    pub message: Mail,
    pub shape: MimeShape,
    pub boundaries: Ghost<Seq<Seq<char>>>,
}

impl MimeFormat {
    /// Formats the email, with random multipart boundaries.
    pub fn new(
        sender: &Sender,
        receiver: &Receiver,
        message: &Message,
        attachment: Option<&Attachment>,
        now: u64,
    ) -> (r: Result<MimeFormat, MimeError>)
        ensures
            format_outcome(r, sender.0@, receiver.0@, message@, attachment_view(attachment), now, seq![]),
    {
        let none: Vec<&str> = Vec::new();
        Self::assemble(sender, receiver, message, attachment, now, &none)
    }

    /// Formats the email with the given multipart boundaries: the outer one
    /// first, then the nested one. A boundary that is not given is random.
    pub fn new_with_boundaries(
        sender: &Sender,
        receiver: &Receiver,
        message: &Message,
        attachment: Option<&Attachment>,
        now: u64,
        boundaries: Vec<&str>,
    ) -> (r: Result<MimeFormat, MimeError>)
        ensures
            format_outcome(r, sender.0@, receiver.0@, message@, attachment_view(attachment), now, boundaries@),
    {
        Self::assemble(sender, receiver, message, attachment, now, &boundaries)
    }

    /// The `k`-th boundary: the given one, else a random one.
    fn boundary_at(boundaries: &Vec<&str>, k: usize) -> (r: String)
        requires
            all_boundaries(boundaries@),
        ensures
            is_boundary(r@),
            k < boundaries@.len() ==> r@ == boundaries@[k as int]@,
    {
        if k < boundaries.len() {
            String::from_str(boundaries[k])
        } else {
            random_boundary()
        }
    }

    fn assemble(
        sender: &Sender,
        receiver: &Receiver,
        message: &Message,
        attachment: Option<&Attachment>,
        now: u64,
        boundaries: &Vec<&str>,
    ) -> (r: Result<MimeFormat, MimeError>)
        ensures
            format_outcome(r, sender.0@, receiver.0@, message@, attachment_view(attachment), now, boundaries@),
    {
        let from = match parse_mailbox(sender.0) {
            Ok(m) => m,
            Err(_) => return Err(MimeError::InvalidSender),
        };
        let to = match parse_mailbox(receiver.0) {
            Ok(m) => m,
            Err(_) => return Err(MimeError::InvalidReceiver),
        };
        if now >= MAX_DATE_SECS {
            return Err(MimeError::DateOutOfRange);
        }
        let shape = match MimeShape::of_parts(message.text.is_some(), message.html.is_some(), attachment.is_some()) {
            Ok(s) => s,
            Err(e) => return Err(e),
        };
        let mut i: usize = 0;
        while i < boundaries.len()
            invariant
                i <= boundaries@.len(),
                forall|j: int| 0 <= j < i ==> is_boundary(#[trigger] boundaries@[j]@),
                mailbox_parses(sender.0@),
                mailbox_parses(receiver.0@),
                now < MAX_DATE_SECS,
                shape_of(message.text is Some, message.html is Some, attachment is Some) == Some(shape),
            decreases boundaries@.len() - i,
        {
            if !check_boundary(boundaries[i]) {
                assert(!is_boundary(boundaries@[i as int]@));
                assert(!all_boundaries(boundaries@));
                return Err(MimeError::InvalidBoundary);
            }
            i = i + 1;
        }
        assert(all_boundaries(boundaries@));
        let file_part = match attachment {
            Some(a) => {
                let content_type = attachment_content_type(a.bytes.as_slice());
                match parse_content_type(content_type) {
                    Ok(t) => Some(attachment_part(t, a.file_name.as_str(), a.bytes.clone())),
                    Err(_) => return Err(MimeError::UnsupportedContentType),
                }
            },
            None => None,
        };
        assert(match file_part {
            Some(p) => attachment is Some && MimeNode::Part(p.model@) == file_node(attachment_view(attachment)->0),
            None => attachment is None,
        });
        let subject = message.subject.as_str();
        let ghost att = attachment_view(attachment);
        let ghost mut used: Seq<Seq<char>> = Seq::empty();
        let built = match (&message.text, &message.html, file_part) {
            (Some(text), Some(html), Some(part)) => {
                let outer = Self::boundary_at(boundaries, 0);
                let inner = Self::boundary_at(boundaries, 1);
                let alternative = multipart_of_single(alternative_start(inner.as_str()), text_plain_part(text.as_str()));
                let alternative = append_single(alternative, text_html_part(html.as_str()));
                let mixed = append_single(multipart_of_multi(mixed_start(outer.as_str()), alternative), part);
                proof {
                    used = seq![outer@, inner@];
                }
                assert(mixed.model@ == body_of(message@.text, message@.html, att, used)) by {
                    assert(message@.text == Some(text@));
                    assert(message@.html == Some(html@));
                    assert(seq![plain_node(text@)].push(html_node(html@)) =~= seq![plain_node(text@), html_node(html@)]);
                    let alt = MimeNode::Multi { kind: MultiKind::Alternative, boundary: inner@, parts: seq![plain_node(text@), html_node(html@)] };
                    assert(seq![alt].push(file_node(att->0)) =~= seq![alt, file_node(att->0)]);
                }
                build_multi(from, to, subject, now, mixed)
            },
            (Some(text), Some(html), None) => {
                let outer = Self::boundary_at(boundaries, 0);
                let alternative = multipart_of_single(alternative_start(outer.as_str()), text_plain_part(text.as_str()));
                let alternative = append_single(alternative, text_html_part(html.as_str()));
                proof {
                    used = seq![outer@];
                }
                assert(alternative.model@ == body_of(message@.text, message@.html, att, used)) by {
                    assert(message@.text == Some(text@));
                    assert(message@.html == Some(html@));
                    assert(att is None);
                    assert(seq![plain_node(text@)].push(html_node(html@)) =~= seq![plain_node(text@), html_node(html@)]);
                }
                build_multi(from, to, subject, now, alternative)
            },
            (Some(text), None, Some(part)) => {
                let outer = Self::boundary_at(boundaries, 0);
                let mixed = append_single(multipart_of_single(mixed_start(outer.as_str()), text_plain_part(text.as_str())), part);
                proof {
                    used = seq![outer@];
                }
                assert(mixed.model@ == body_of(message@.text, message@.html, att, used)) by {
                    assert(message@.text == Some(text@));
                    assert(seq![plain_node(text@)].push(file_node(att->0)) =~= seq![plain_node(text@), file_node(att->0)]);
                }
                build_multi(from, to, subject, now, mixed)
            },
            (None, Some(html), Some(part)) => {
                let outer = Self::boundary_at(boundaries, 0);
                let mixed = append_single(multipart_of_single(mixed_start(outer.as_str()), text_html_part(html.as_str())), part);
                proof {
                    used = seq![outer@];
                }
                assert(mixed.model@ == body_of(message@.text, message@.html, att, used)) by {
                    assert(message@.html == Some(html@));
                    assert(seq![html_node(html@)].push(file_node(att->0)) =~= seq![html_node(html@), file_node(att->0)]);
                }
                build_multi(from, to, subject, now, mixed)
            },
            (Some(text), None, None) => build_single(from, to, subject, now, text_plain_part(text.as_str())),
            (None, Some(html), None) => build_single(from, to, subject, now, text_html_part(html.as_str())),
            (None, None, Some(part)) => build_single(from, to, subject, now, part),
            (None, None, None) => return Err(MimeError::EmptyBody),
        };
        match built {
            Ok(m) => Ok(MimeFormat { message: m, shape, boundaries: Ghost(used) }),
            Err(_) => Err(MimeError::EmptyBody),
        }
    }

    /// The email as RFC 5322 bytes, as handed to a transport or archived.
    pub fn formatted(&self) -> (r: Vec<u8>)
        ensures
            r@ == mime_bytes(self.message.model()),
    {
        self.message.formatted()
    }
}

/// Formatting the same inputs at the same time with all the boundaries given
/// gives the same message, hence the same bytes.
pub proof fn lemma_same_inputs_same_bytes(
    r1: Result<MimeFormat, MimeError>,
    r2: Result<MimeFormat, MimeError>,
    sender: Seq<char>,
    receiver: Seq<char>,
    message: MessageView,
    attachment: Option<(Seq<char>, Seq<u8>)>,
    now: u64,
    boundaries: Seq<&str>,
)
    requires
        format_outcome(r1, sender, receiver, message, attachment, now, boundaries),
        format_outcome(r2, sender, receiver, message, attachment, now, boundaries),
        boundaries.len() >= 2,
    ensures
        r1 is Ok <==> r2 is Ok,
        r1 is Err ==> r1 == r2,
        (r1 is Ok && r2 is Ok) ==> mime_bytes(r1->Ok_0.message.model()) == mime_bytes(
            r2->Ok_0.message.model(),
        ),
{
    if r1 is Ok && r2 is Ok {
        let f1 = r1->Ok_0;
        let f2 = r2->Ok_0;
        assert(f1.shape == f2.shape);
        assert forall|k: int| 0 <= k < f1.boundaries@.len() implies f1.boundaries@[k] == f2.boundaries@[k] by {
            assert(f1.boundaries@[k] == boundaries[k]@);
            assert(f2.boundaries@[k] == boundaries[k]@);
        }
        assert(f1.boundaries@ =~= f2.boundaries@);
    }
}

/// The body layout covers every combination of parts: there is no layout
/// exactly when no part is present; it is multipart exactly when two or
/// more parts are present, with `multipart/mixed` outermost whenever there
/// is an attachment beside text or html, and `multipart/alternative` exactly
/// when text and html are both present.
pub proof fn lemma_layout_table(text: bool, html: bool, attachment: bool)
    ensures
        shape_of(text, html, attachment) is None <==> (!text && !html && !attachment),
        shape_of(text, html, attachment) matches Some(s) ==> (s.is_multipart() <==> (
        text as int + html as int + attachment as int >= 2)),
        shape_of(text, html, attachment) matches Some(s) ==> ((s == MimeShape::Alternative
            || s == MimeShape::MixedAlternative) <==> (text && html)),
        shape_of(text, html, attachment) matches Some(s) ==> ((s == MimeShape::MixedText || s
            == MimeShape::MixedHtml || s == MimeShape::MixedAlternative) <==> (attachment && (text
            || html))),
{
}

} // verus!
