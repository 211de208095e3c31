use vstd::prelude::*;

verus! {

/// One attachment of a message: a filename, an explicit content type
/// (never inferred from the bytes), and the bytes carried as they are.
pub struct Part {
    pub filename: String,
    pub content_type: String,
    pub bytes: Vec<u8>,
}

/// The mathematical content of a `Part`.
pub struct PartView {
    pub filename: Seq<char>,
    pub content_type: Seq<char>,
    pub bytes: Seq<u8>,
}

impl View for Part {
    type V = PartView;

    open spec fn view(&self) -> PartView {
        PartView {
            filename: self.filename@,
            content_type: self.content_type@,
            bytes: self.bytes@,
        }
    }
}

/// A fully assembled multi-part message, ready for one delivery
/// attempt: the HTML body first, then the attachments in order.
pub struct EmailMessage {
    pub sender: String,
    pub recipient: String,
    pub subject: String,
    pub html_body: String,
    pub attachments: Vec<Part>,
}

/// The mathematical content of an `EmailMessage`.
pub struct EmailMessageView {
    pub sender: Seq<char>,
    pub recipient: Seq<char>,
    pub subject: Seq<char>,
    pub html_body: Seq<char>,
    pub attachments: Seq<PartView>,
}

impl View for EmailMessage {
    type V = EmailMessageView;

    open spec fn view(&self) -> EmailMessageView {
        EmailMessageView {
            sender: self.sender@,
            recipient: self.recipient@,
            subject: self.subject@,
            html_body: self.html_body@,
            attachments: self.attachments@.map_values(|p: Part| p@),
        }
    }
}

/// The attachment sequence an optional part contributes: empty when it
/// is absent, the part alone when it is present.
pub open spec fn opt_attachment(p: Option<Part>) -> Seq<PartView> {
    match p {
        Option::Some(part) => seq![part@],
        Option::None => Seq::empty(),
    }
}

/// Builds the multi-part message: one HTML body, then the calendar
/// attachment if resolved, then the generated document if generated,
/// in that fixed order.
pub fn assemble_message(
    sender: &String,
    recipient: &String,
    subject: &String,
    html_body: String,
    calendar: Option<Part>,
    document: Option<Part>,
) -> (m: EmailMessage)
    ensures
        m@.sender == sender@,
        m@.recipient == recipient@,
        m@.subject == subject@,
        m@.html_body == html_body@,
        m@.attachments == opt_attachment(calendar) + opt_attachment(document),
{
    let ghost cal = calendar;
    let ghost doc = document;
    let mut attachments: Vec<Part> = Vec::new();
    match calendar {
        Option::Some(p) => attachments.push(p),
        Option::None => {},
    }
    match document {
        Option::Some(p) => attachments.push(p),
        Option::None => {},
    }
    let m = EmailMessage {
        sender: sender.clone(),
        recipient: recipient.clone(),
        subject: subject.clone(),
        html_body,
        attachments,
    };
    proof {
        assert(m@.attachments =~= opt_attachment(cal) + opt_attachment(doc));
    }
    m
}

} // verus!
