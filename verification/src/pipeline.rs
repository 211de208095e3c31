use vstd::prelude::*;

use crate::PipelineError;
use crate::message::{EmailMessage, Part, PartView, assemble_message, opt_attachment};
use crate::value::{Value, json_of, json_of_object, to_json, to_json_object};

verus! {

/// Process-wide configuration, loaded once at startup and read-only
/// afterwards: the relay host and its credentials, the sender address,
/// and the shared secret a caller must present.
#[derive(Clone)]
pub struct Config {
    pub server: String,
    pub username: String,
    pub password: String,
    pub sender: String,
    pub secret: String,
}

/// One caller request, immutable for the request's lifetime.
pub struct SendRequest {
    pub template_name: String,
    pub ics_name: Option<String>,
    pub email_address: String,
    pub subject: String,
    pub parameters: Vec<(String, Value)>,
    pub qrbill_params: Option<Value>,
}

/// A template or attachment identifier that cannot traverse out of its
/// root directory: it is not empty and holds no path separator, so the
/// path built from it — the root, the name, the fixed extension — is
/// one plain entry of the root directory.  (A dot is allowed: with the
/// extension always appended, no name can form a `.` or `..` path
/// component.)
pub open spec fn is_safe_name(s: Seq<char>) -> bool {
    s.len() > 0 && (forall|i: int| 0 <= i < s.len() ==> #[trigger] s[i] != '/' && s[i] != '\\')
}

/// Checks a request identifier against `is_safe_name`.
pub fn check_name(s: &str) -> (r: bool)
    ensures
        r == is_safe_name(s@),
{
    let n: usize = s.unicode_len();
    if n == 0 {
        return false;
    }
    let mut i: usize = 0;
    while i < n
        invariant
            i <= n,
            n == s@.len(),
            forall|j: int| 0 <= j < i ==> #[trigger] s@[j] != '/' && s@[j] != '\\',
        decreases n - i,
    {
        let c = s.get_char(i);
        if c == '/' || c == '\\' {
            return false;
        }
        i = i + 1;
    }
    true
}

/// The paths built from a safe identifier stay within their root
/// directories: past the root's own closing separator, neither the
/// template path nor the calendar path holds another one, so each
/// resolves to a plain entry of its root.
pub proof fn lemma_paths_stay_in_root(name: Seq<char>)
    requires
        is_safe_name(name),
    ensures
        forall|i: int|
            ("templates/"@).len() <= i < template_path_of(name).len()
                ==> #[trigger] template_path_of(name)[i] != '/' && template_path_of(name)[i]
                != '\\',
        forall|i: int|
            ("ics/"@).len() <= i < ics_path_of(name).len() ==> #[trigger] ics_path_of(name)[i]
                != '/' && ics_path_of(name)[i] != '\\',
{
    reveal_strlit("templates/");
    reveal_strlit(".liquid");
    reveal_strlit("ics/");
    reveal_strlit(".ics");
    assert((".liquid"@) =~= seq!['.', 'l', 'i', 'q', 'u', 'i', 'd']);
    assert((".ics"@) =~= seq!['.', 'i', 'c', 's']);
    assert forall|i: int|
        ("templates/"@).len() <= i < template_path_of(name).len()
            implies #[trigger] template_path_of(name)[i] != '/' && template_path_of(name)[i]
            != '\\' by {
        if i < 10 + name.len() {
            assert(template_path_of(name)[i] == name[i - 10]);
        } else {
            assert(template_path_of(name)[i] == (".liquid"@)[i - 10 - name.len()]);
        }
    }
    assert forall|i: int|
        ("ics/"@).len() <= i < ics_path_of(name).len() implies #[trigger] ics_path_of(name)[i]
            != '/' && ics_path_of(name)[i] != '\\' by {
        if i < 4 + name.len() {
            assert(ics_path_of(name)[i] == name[i - 4]);
        } else {
            assert(ics_path_of(name)[i] == (".ics"@)[i - 4 - name.len()]);
        }
    }
}

/// Where a template identifier resolves: under the template root, with
/// the fixed template extension.
pub open spec fn template_path_of(name: Seq<char>) -> Seq<char> {
    "templates/"@ + name + ".liquid"@
}

/// Where a calendar identifier resolves: under the attachment root,
/// with the fixed calendar extension.
pub open spec fn ics_path_of(name: Seq<char>) -> Seq<char> {
    "ics/"@ + name + ".ics"@
}

/// The filename a resolved calendar resource is attached under.
pub open spec fn ics_filename_of(name: Seq<char>) -> Seq<char> {
    name + ".ics"@
}

/// The calendar attachment for a resolved resource: its bytes as they
/// were read, under `<name>.ics`, typed as a calendar.
pub open spec fn calendar_part(name: Seq<char>, bytes: Seq<u8>) -> PartView {
    PartView { filename: ics_filename_of(name), content_type: "text/calendar"@, bytes }
}

/// The generated document attachment: the converted bytes under the
/// fixed document name, typed as a fixed-layout document.
pub open spec fn document_part(bytes: Seq<u8>) -> PartView {
    PartView { filename: "qrbill.pdf"@, content_type: "application/pdf"@, bytes }
}

/// What the surrounding runtime is asked to do next.  Reading a file,
/// rendering the template, posting to the document service, converting
/// the fetched vector image and delivering are the points at which the
/// request leaves the pipeline — the runtime performs each and hands
/// the outcome back as an event; `Respond` ends the request with a
/// status code.
pub enum Action {
    ReadTemplate { path: String },
    RenderTemplate { template: String, params_json: String },
    ReadAttachment { path: String },
    PostDocument { payload: String },
    ConvertDocument { svg: Vec<u8> },
    DeliverMessage { message: EmailMessage },
    Respond { status: u16 },
}

/// How one delivery attempt ended: accepted by the relay, refused
/// while the message was being assembled for the wire, or refused by
/// the relay or the transport.
pub enum DeliveryOutcome {
    Accepted,
    AssemblyFailed(String),
    SendFailed(String),
}

/// What came back from the runtime for the action it was asked to
/// perform.
pub enum Event {
    TemplateRead(Result<String, String>),
    TemplateRendered(Result<String, String>),
    AttachmentRead(Result<Vec<u8>, String>),
    DocumentFetched(Result<Vec<u8>, String>),
    DocumentConverted(Result<Vec<u8>, String>),
    DeliveryDone(DeliveryOutcome),
}

/// Where a request stands between two actions.  The rendered body and
/// the resolved calendar attachment travel with the phase until the
/// message is assembled.
pub enum Phase {
    AwaitingTemplate,
    AwaitingRender,
    AwaitingAttachment { body: String },
    AwaitingDocument { body: String, calendar: Option<Part> },
    AwaitingConversion { body: String, calendar: Option<Part> },
    AwaitingDelivery,
    Done { outcome: Result<(), PipelineError> },
}

/// One request moving through the fixed stage order: authentication,
/// template lookup, rendering, optional calendar attachment, optional
/// document generation, assembly, delivery.  Any stage's failure ends
/// the request; no stage begins before its predecessor has succeeded.
pub struct Pipeline {
    pub config: Config,
    pub request: SendRequest,
    pub phase: Phase,
}

impl Pipeline {
    /// The phase data is consistent with the request: a phase that
    /// waits on an optional stage exists only when the request asked
    /// for that stage.
    pub open spec fn wf(self) -> bool {
        match self.phase {
            Phase::AwaitingAttachment { .. } => self.request.ics_name is Some,
            Phase::AwaitingDocument { .. } => self.request.qrbill_params is Some,
            Phase::AwaitingConversion { .. } => self.request.qrbill_params is Some,
            _ => true,
        }
    }

    /// Whether the pipeline waits for the event it is handed.
    pub open spec fn expects(self, event: Event) -> bool {
        match (self.phase, event) {
            (Phase::AwaitingTemplate, Event::TemplateRead(_)) => true,
            (Phase::AwaitingRender, Event::TemplateRendered(_)) => true,
            (Phase::AwaitingAttachment { .. }, Event::AttachmentRead(_)) => true,
            (Phase::AwaitingDocument { .. }, Event::DocumentFetched(_)) => true,
            (Phase::AwaitingConversion { .. }, Event::DocumentConverted(_)) => true,
            (Phase::AwaitingDelivery, Event::DeliveryDone(_)) => true,
            _ => false,
        }
    }

    /// The request has ended with this error, and the action reports
    /// its status: 401 for an authorization failure, 500 for every
    /// other failure.
    pub open spec fn failed(self, a: Action, e: PipelineError) -> bool {
        &&& self.phase == (Phase::Done { outcome: Err::<(), PipelineError>(e) })
        &&& a == (Action::Respond {
            status: if e == PipelineError::Unauthorized {
                401u16
            } else {
                500u16
            },
        })
    }

    /// The message for this request is handed out for delivery: built
    /// from the configured sender, the requested recipient and
    /// subject, the rendered body, and exactly these attachments.
    pub open spec fn delivering(self, a: Action, body: Seq<char>, atts: Seq<PartView>) -> bool {
        &&& self.phase is AwaitingDelivery
        &&& a matches Action::DeliverMessage { message } && {
            &&& message@.sender == self.config.sender@
            &&& message@.recipient == self.request.email_address@
            &&& message@.subject == self.request.subject@
            &&& message@.html_body == body
            &&& message@.attachments == atts
        }
    }

    /// After the body is rendered, the next stage the request asked
    /// for runs: the calendar attachment, else document generation,
    /// else assembly and delivery with no attachments.
    pub open spec fn after_render_post(
        req: SendRequest,
        post: Pipeline,
        a: Action,
        body: Seq<char>,
    ) -> bool {
        match req.ics_name {
            Option::Some(name) => {
                &&& post.phase matches Phase::AwaitingAttachment { body: b } && b@ == body
                &&& a matches Action::ReadAttachment { path } && path@ == ics_path_of(name@)
            },
            Option::None => Self::after_attachment_post(req, post, a, body, Seq::empty()),
        }
    }

    /// After the calendar stage, the next stage the request asked for
    /// runs: document generation with the request's billing parameters
    /// forwarded as JSON, else assembly and delivery with exactly the
    /// attachments resolved so far.
    pub open spec fn after_attachment_post(
        req: SendRequest,
        post: Pipeline,
        a: Action,
        body: Seq<char>,
        cal_atts: Seq<PartView>,
    ) -> bool {
        match req.qrbill_params {
            Option::Some(params) => {
                &&& post.phase matches Phase::AwaitingDocument { body: b, calendar: c } && b@
                    == body && opt_attachment(c) == cal_atts
                &&& a matches Action::PostDocument { payload } && payload@ == json_of(params)
            },
            Option::None => post.delivering(a, body, cal_atts),
        }
    }

    /// Authenticates the request and opens the pipeline.  The secret
    /// is compared first: on a mismatch the request ends at once with
    /// `Unauthorized` and nothing else runs — no file is read, no
    /// template is rendered, no call leaves the process.  An
    /// identifier that could escape its root directory ends the
    /// request the same way its missing resource would.  Otherwise the
    /// first action asks for the template text.
    pub fn start(config: Config, request: SendRequest, secret: &String) -> (r: (Pipeline, Action))
        ensures
            r.0.config == config,
            r.0.request == request,
            r.0.wf(),
            secret@ != config.secret@ ==> r.0.failed(r.1, PipelineError::Unauthorized),
            secret@ == config.secret@ && !is_safe_name(request.template_name@) ==> r.0.failed(
                r.1,
                PipelineError::TemplateNotFound,
            ),
            secret@ == config.secret@ && is_safe_name(request.template_name@) && (
            request.ics_name matches Some(n) && !is_safe_name(n@)) ==> r.0.failed(
                r.1,
                PipelineError::AttachmentNotFound,
            ),
            secret@ == config.secret@ && is_safe_name(request.template_name@) && (match request
                .ics_name {
                Option::Some(n) => is_safe_name(n@),
                Option::None => true,
            }) ==> {
                &&& r.0.phase is AwaitingTemplate
                &&& r.1 matches Action::ReadTemplate { path } && path@ == template_path_of(
                    request.template_name@,
                )
            },
    {
        if !secret.eq(&config.secret) {
            return Self::finish(config, request, PipelineError::Unauthorized);
        }
        if !check_name(request.template_name.as_str()) {
            return Self::finish(config, request, PipelineError::TemplateNotFound);
        }
        let ics_ok = match &request.ics_name {
            Option::Some(n) => check_name(n.as_str()),
            Option::None => true,
        };
        if !ics_ok {
            return Self::finish(config, request, PipelineError::AttachmentNotFound);
        }
        let mut path = String::from_str("templates/");
        path.append(request.template_name.as_str());
        path.append(".liquid");
        (
            Pipeline { config, request, phase: Phase::AwaitingTemplate },
            Action::ReadTemplate { path },
        )
    }

    /// Ends the request with an error and the status that reports it.
    fn finish(config: Config, request: SendRequest, e: PipelineError) -> (r: (Pipeline, Action))
        ensures
            r.0.config == config,
            r.0.request == request,
            r.0.wf(),
            r.0.failed(r.1, e),
    {
        let status = crate::error_status(e);
        (
            Pipeline { config, request, phase: Phase::Done { outcome: Err(e) } },
            Action::Respond { status },
        )
    }

    /// Consumes the event the pipeline waits for and moves one stage
    /// on.  Every transition is stated here: which event ends the
    /// request with which error, and which event carries it forward
    /// with what next action.  A failure before delivery always ends
    /// in `Respond`, never in `DeliverMessage`: no message is handed
    /// to the relay once any stage has failed.
    pub fn step(self, event: Event) -> (r: (Pipeline, Action))
        requires
            self.wf(),
            self.expects(event),
        ensures
            r.0.config == self.config,
            r.0.request == self.request,
            r.0.wf(),
            (match (self.phase, event) {
                (Phase::AwaitingTemplate, Event::TemplateRead(res)) => match res {
                    Result::Err(_) => r.0.failed(r.1, PipelineError::TemplateNotFound),
                    Result::Ok(text) => {
                        &&& r.0.phase is AwaitingRender
                        &&& r.1 matches Action::RenderTemplate { template, params_json }
                            && template@ == text@ && params_json@ == json_of_object(
                            self.request.parameters@,
                        )
                    },
                },
                (Phase::AwaitingRender, Event::TemplateRendered(res)) => match res {
                    Result::Err(_) => r.0.failed(r.1, PipelineError::TemplateRenderError),
                    Result::Ok(body) => Self::after_render_post(self.request, r.0, r.1, body@),
                },
                (Phase::AwaitingAttachment { body }, Event::AttachmentRead(res)) => match res {
                    Result::Err(_) => r.0.failed(r.1, PipelineError::AttachmentNotFound),
                    Result::Ok(bytes) => self.request.ics_name matches Some(name)
                        && Self::after_attachment_post(
                        self.request,
                        r.0,
                        r.1,
                        body@,
                        seq![calendar_part(name@, bytes@)],
                    ),
                },
                (Phase::AwaitingDocument { body, calendar }, Event::DocumentFetched(res)) => match res {
                    Result::Err(_) => r.0.failed(r.1, PipelineError::DocumentServiceUnavailable),
                    Result::Ok(svg) => {
                        &&& r.0.phase matches Phase::AwaitingConversion { body: b, calendar: c }
                            && b@ == body@ && opt_attachment(c) == opt_attachment(calendar)
                        &&& r.1 matches Action::ConvertDocument { svg: s } && s@ == svg@
                    },
                },
                (Phase::AwaitingConversion { body, calendar }, Event::DocumentConverted(res)) => match res {
                    Result::Err(_) => r.0.failed(r.1, PipelineError::DocumentConversionFailed),
                    Result::Ok(pdf) => r.0.delivering(
                        r.1,
                        body@,
                        opt_attachment(calendar) + seq![document_part(pdf@)],
                    ),
                },
                (Phase::AwaitingDelivery, Event::DeliveryDone(outcome)) => match outcome {
                    DeliveryOutcome::Accepted => {
                        &&& r.0.phase == (Phase::Done { outcome: Ok::<(), PipelineError>(()) })
                        &&& r.1 == (Action::Respond { status: 200u16 })
                    },
                    DeliveryOutcome::AssemblyFailed(_) => r.0.failed(
                        r.1,
                        PipelineError::MessageAssemblyError,
                    ),
                    DeliveryOutcome::SendFailed(_) => r.0.failed(r.1, PipelineError::DeliveryFailed),
                },
                _ => false,
            }),
    {
        let Pipeline { config, request, phase } = self;
        match (phase, event) {
            (Phase::AwaitingTemplate, Event::TemplateRead(res)) => match res {
                Result::Err(_) => Self::finish(config, request, PipelineError::TemplateNotFound),
                Result::Ok(text) => {
                    let params_json = to_json_object(&request.parameters);
                    (
                        Pipeline { config, request, phase: Phase::AwaitingRender },
                        Action::RenderTemplate { template: text, params_json },
                    )
                },
            },
            (Phase::AwaitingRender, Event::TemplateRendered(res)) => match res {
                Result::Err(_) => Self::finish(config, request, PipelineError::TemplateRenderError),
                Result::Ok(body) => Self::after_render(config, request, body),
            },
            (Phase::AwaitingAttachment { body }, Event::AttachmentRead(res)) => match res {
                Result::Err(_) => Self::finish(config, request, PipelineError::AttachmentNotFound),
                Result::Ok(bytes) => {
                    let mut filename = match &request.ics_name {
                        Option::Some(n) => n.clone(),
                        Option::None => vstd::pervasive::unreached(),
                    };
                    filename.append(".ics");
                    let part = Part {
                        filename,
                        content_type: String::from_str("text/calendar"),
                        bytes,
                    };
                    Self::after_attachment(config, request, body, Option::Some(part))
                },
            },
            (Phase::AwaitingDocument { body, calendar }, Event::DocumentFetched(res)) => match res {
                Result::Err(_) => Self::finish(
                    config,
                    request,
                    PipelineError::DocumentServiceUnavailable,
                ),
                Result::Ok(svg) => (
                    Pipeline {
                        config,
                        request,
                        phase: Phase::AwaitingConversion { body, calendar },
                    },
                    Action::ConvertDocument { svg },
                ),
            },
            (Phase::AwaitingConversion { body, calendar }, Event::DocumentConverted(res)) => match res {
                Result::Err(_) => Self::finish(
                    config,
                    request,
                    PipelineError::DocumentConversionFailed,
                ),
                Result::Ok(pdf) => {
                    let ghost gpdf = pdf@;
                    let ghost gcal = calendar;
                    let ghost gbody = body@;
                    let part = Part {
                        filename: String::from_str("qrbill.pdf"),
                        content_type: String::from_str("application/pdf"),
                        bytes: pdf,
                    };
                    let ghost gpart = part;
                    let next = Self::deliver(config, request, body, calendar, Option::Some(part));
                    proof {
                        assert(gpart@ == document_part(gpdf));
                        assert(opt_attachment(Option::Some(gpart)) =~= seq![document_part(gpdf)]);
                        assert(next.0.delivering(
                            next.1,
                            gbody,
                            opt_attachment(gcal) + seq![document_part(gpdf)],
                        ));
                    }
                    next
                },
            },
            (Phase::AwaitingDelivery, Event::DeliveryDone(outcome)) => match outcome {
                DeliveryOutcome::Accepted => (
                    Pipeline { config, request, phase: Phase::Done { outcome: Ok(()) } },
                    Action::Respond { status: 200 },
                ),
                DeliveryOutcome::AssemblyFailed(_) => Self::finish(
                    config,
                    request,
                    PipelineError::MessageAssemblyError,
                ),
                DeliveryOutcome::SendFailed(_) => Self::finish(
                    config,
                    request,
                    PipelineError::DeliveryFailed,
                ),
            },
            _ => vstd::pervasive::unreached(),
        }
    }

    /// After rendering: asks for the calendar resource if one was
    /// requested, else moves on as `after_attachment` with none.
    fn after_render(config: Config, request: SendRequest, body: String) -> (r: (Pipeline, Action))
        ensures
            r.0.config == config,
            r.0.request == request,
            r.0.wf(),
            Self::after_render_post(request, r.0, r.1, body@),
    {
        match &request.ics_name {
            Option::Some(name) => {
                let mut path = String::from_str("ics/");
                path.append(name.as_str());
                path.append(".ics");
                (
                    Pipeline { config, request, phase: Phase::AwaitingAttachment { body } },
                    Action::ReadAttachment { path },
                )
            },
            Option::None => Self::after_attachment(config, request, body, Option::None),
        }
    }

    /// After the calendar stage: posts the billing parameters to the
    /// document service if any were given, else assembles and hands
    /// the message out for delivery.
    fn after_attachment(
        config: Config,
        request: SendRequest,
        body: String,
        calendar: Option<Part>,
    ) -> (r: (Pipeline, Action))
        ensures
            r.0.config == config,
            r.0.request == request,
            r.0.wf(),
            Self::after_attachment_post(request, r.0, r.1, body@, opt_attachment(calendar)),
    {
        match &request.qrbill_params {
            Option::Some(params) => {
                let payload = to_json(params);
                (
                    Pipeline {
                        config,
                        request,
                        phase: Phase::AwaitingDocument { body, calendar },
                    },
                    Action::PostDocument { payload },
                )
            },
            Option::None => Self::deliver(config, request, body, calendar, Option::None),
        }
    }

    /// Assembles the message and hands it out for one delivery
    /// attempt.
    fn deliver(
        config: Config,
        request: SendRequest,
        body: String,
        calendar: Option<Part>,
        document: Option<Part>,
    ) -> (r: (Pipeline, Action))
        ensures
            r.0.config == config,
            r.0.request == request,
            r.0.wf(),
            r.0.delivering(r.1, body@, opt_attachment(calendar) + opt_attachment(document)),
    {
        let message = assemble_message(
            &config.sender,
            &request.email_address,
            &request.subject,
            body,
            calendar,
            document,
        );
        (
            Pipeline { config, request, phase: Phase::AwaitingDelivery },
            Action::DeliverMessage { message },
        )
    }

    /// A valid request that asks for no calendar attachment and no
    /// generated document is delivered with the rendered body alone:
    /// the assembled message carries exactly zero attachments.
    pub proof fn lemma_no_optional_stages_no_attachments(
        self,
        post: Pipeline,
        a: Action,
        body: Seq<char>,
    )
        requires
            self.request.ics_name is None,
            self.request.qrbill_params is None,
            Self::after_render_post(self.request, post, a, body),
        ensures
            post.delivering(a, body, Seq::empty()),
            a matches Action::DeliverMessage { message } && message@.attachments.len() == 0,
    {
    }

    /// How the request ended, once the phase is `Done`.
    pub fn outcome(&self) -> (r: Option<Result<(), PipelineError>>)
        ensures
            (match self.phase {
                Phase::Done { outcome } => r == Some(outcome),
                _ => r is None,
            }),
    {
        match &self.phase {
            Phase::Done { outcome } => Some(*outcome),
            _ => None,
        }
    }
}

/// A request that has ended accepts no further event: once the phase
/// is `Done` — in particular right after a secret mismatch — no stage
/// can run any more, so no file is read and no call leaves the
/// process for that request.
pub proof fn lemma_done_accepts_no_event(p: Pipeline)
    requires
        p.phase is Done,
    ensures
        forall|e: Event| !p.expects(e),
{
}

/// When a calendar resource was requested and resolved, the assembled
/// message's attachment sequence starts with that resource: its bytes
/// as they were read, under `<name>.ics`, typed `text/calendar`.
pub proof fn lemma_calendar_attachment_first(
    m: crate::message::EmailMessageView,
    name: Seq<char>,
    bytes: Seq<u8>,
    rest: Seq<PartView>,
)
    requires
        m.attachments == seq![calendar_part(name, bytes)] + rest,
    ensures
        m.attachments.len() >= 1,
        m.attachments[0].filename == name + ".ics"@,
        m.attachments[0].content_type == "text/calendar"@,
        m.attachments[0].bytes == bytes,
{
}

/// When a document was generated, the assembled message's final
/// attachment is that document: typed `application/pdf`, under the
/// fixed document filename.
pub proof fn lemma_document_attachment_last(
    m: crate::message::EmailMessageView,
    pdf: Seq<u8>,
    front: Seq<PartView>,
)
    requires
        m.attachments == front + seq![document_part(pdf)],
    ensures
        m.attachments.len() >= 1,
        m.attachments.last() == document_part(pdf),
        m.attachments.last().filename == "qrbill.pdf"@,
        m.attachments.last().content_type == "application/pdf"@,
        m.attachments.last().bytes == pdf,
{
}

} // verus!
