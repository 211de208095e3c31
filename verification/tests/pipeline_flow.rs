use mail_sender::PipelineError;
use mail_sender::pipeline::{
    Action, Config, DeliveryOutcome, Event, Pipeline, SendRequest, check_name,
};
use mail_sender::value::Value;

fn config() -> Config {
    Config {
        server: "smtp.example.org".to_string(),
        username: "mailer".to_string(),
        password: "SECRET-REDACTED".to_string(),
        sender: "noreply@example.org".to_string(),
        secret: "s3cret".to_string(),
    }
}

fn request() -> SendRequest {
    SendRequest {
        template_name: "welcome".to_string(),
        ics_name: None,
        email_address: "ada@example.org".to_string(),
        subject: "Welcome".to_string(),
        parameters: vec![("name".to_string(), Value::Str("Ada".to_string()))],
        qrbill_params: None,
    }
}

fn minimal_svg() -> Vec<u8> {
    let text = "<svg xmlns=\"http://www.w3.org/2000/svg\" width=\"10\" height=\"10\">\
                <rect width=\"10\" height=\"10\"/></svg>";
    text.as_bytes().to_vec()
}

// The same template rendering the runtime performs for the
// `RenderTemplate` action.
fn render(template_text: &str, params_json: &str) -> Result<String, String> {
    let globals: liquid::Object = serde_json::from_str(params_json).map_err(|e| e.to_string())?;
    let parser = liquid::ParserBuilder::with_stdlib()
        .build()
        .map_err(|e| e.to_string())?;
    let template = parser.parse(template_text).map_err(|e| e.to_string())?;
    template.render(&globals).map_err(|e| e.to_string())
}

// The same conversion the runtime performs for the `ConvertDocument`
// action, with the data-URL-only image resolver and an empty font set.
fn convert(svg: &[u8]) -> Result<Vec<u8>, String> {
    let options = svg2pdf::usvg::Options {
        image_href_resolver: svg2pdf::usvg::ImageHrefResolver {
            resolve_data: svg2pdf::usvg::ImageHrefResolver::default_data_resolver(),
            resolve_string: Box::new(|_, _| None),
        },
        ..Default::default()
    };
    let tree = svg2pdf::usvg::Tree::from_data(svg, &options).map_err(|e| e.to_string())?;
    svg2pdf::to_pdf(
        &tree,
        svg2pdf::ConversionOptions::default(),
        svg2pdf::PageOptions::default(),
    )
    .map_err(|e| e.to_string())
}

// Drives a started pipeline through template read and rendering.
fn through_render(p: Pipeline, a: Action, template_text: &str) -> (Pipeline, Action) {
    match a {
        Action::ReadTemplate { .. } => {}
        _ => panic!("the first stage after the secret is the template lookup"),
    }
    let (p, a) = p.step(Event::TemplateRead(Ok(template_text.to_string())));
    let (template, params_json) = match a {
        Action::RenderTemplate {
            template,
            params_json,
        } => (template, params_json),
        _ => panic!("a read template goes to the renderer next"),
    };
    assert_eq!(template, template_text);
    p.step(Event::TemplateRendered(render(&template, &params_json)))
}

#[test]
fn wrong_secret_is_rejected_before_any_stage() {
    let (p, a) = Pipeline::start(config(), request(), &"wrong".to_string());
    match a {
        Action::Respond { status } => assert_eq!(status, 401),
        _ => panic!("a mismatched secret must answer at once, not act"),
    }
    assert_eq!(p.outcome(), Some(Err(PipelineError::Unauthorized)));
}

#[test]
fn unsafe_template_name_is_rejected() {
    let mut req = request();
    req.template_name = "../passwd".to_string();
    let (p, a) = Pipeline::start(config(), req, &"s3cret".to_string());
    match a {
        Action::Respond { status } => assert_eq!(status, 500),
        _ => panic!("a traversing name must not reach the filesystem"),
    }
    assert_eq!(p.outcome(), Some(Err(PipelineError::TemplateNotFound)));
}

#[test]
fn unsafe_ics_name_is_rejected() {
    let mut req = request();
    req.ics_name = Some("../passwd".to_string());
    let (p, a) = Pipeline::start(config(), req, &"s3cret".to_string());
    assert!(matches!(a, Action::Respond { status: 500 }));
    assert_eq!(p.outcome(), Some(Err(PipelineError::AttachmentNotFound)));
}

#[test]
fn name_check() {
    assert!(check_name("welcome"));
    assert!(check_name("Invite-2024_v1"));
    assert!(check_name("v1.2"));
    assert!(!check_name(""));
    assert!(!check_name("a/b"));
    assert!(!check_name("..\\x"));
    assert!(!check_name("../passwd"));
}

#[test]
fn welcome_template_end_to_end() {
    let (p, a) = Pipeline::start(config(), request(), &"s3cret".to_string());
    let path = match a {
        Action::ReadTemplate { path } => path,
        _ => panic!("the first stage after the secret is the template lookup"),
    };
    assert_eq!(path, "templates/welcome.liquid");

    let (p, a) = p.step(Event::TemplateRead(Ok("Hello {{ name }}".to_string())));
    let (template, params_json) = match a {
        Action::RenderTemplate {
            template,
            params_json,
        } => (template, params_json),
        _ => panic!("a read template goes to the renderer next"),
    };
    assert_eq!(template, "Hello {{ name }}");
    assert_eq!(params_json, "{\"name\":\"Ada\"}");

    let body = render(&template, &params_json).expect("the template renders");
    let (p, a) = p.step(Event::TemplateRendered(Ok(body)));
    let mut deliveries = 0;
    let message = match a {
        Action::DeliverMessage { message } => {
            deliveries += 1;
            message
        }
        _ => panic!("with no attachments the message goes straight to delivery"),
    };
    assert_eq!(deliveries, 1);
    assert_eq!(message.html_body, "Hello Ada");
    assert_eq!(message.recipient, "ada@example.org");
    assert_eq!(message.sender, "noreply@example.org");
    assert_eq!(message.subject, "Welcome");
    assert_eq!(message.attachments.len(), 0);

    let (p, a) = p.step(Event::DeliveryDone(DeliveryOutcome::Accepted));
    assert!(matches!(a, Action::Respond { status: 200 }));
    assert_eq!(p.outcome(), Some(Ok(())));
}

#[test]
fn rendering_twice_gives_identical_bodies() {
    let run = || {
        let (p, a) = Pipeline::start(config(), request(), &"s3cret".to_string());
        let (_, a) = through_render(p, a, "Hello {{ name }}{% if name %}!{% endif %}");
        match a {
            Action::DeliverMessage { message } => message.html_body,
            _ => panic!("rendering must succeed here"),
        }
    };
    assert_eq!(run(), run());
}

#[test]
fn missing_template_is_a_distinct_failure() {
    let (p, _) = Pipeline::start(config(), request(), &"s3cret".to_string());
    let (p, a) = p.step(Event::TemplateRead(Err("no such file".to_string())));
    assert!(matches!(a, Action::Respond { status: 500 }));
    assert_eq!(p.outcome(), Some(Err(PipelineError::TemplateNotFound)));
}

#[test]
fn template_that_does_not_parse_fails_as_render_error() {
    let (p, a) = Pipeline::start(config(), request(), &"s3cret".to_string());
    let (p, a) = through_render(p, a, "{% endif %}");
    assert!(matches!(a, Action::Respond { status: 500 }));
    assert_eq!(p.outcome(), Some(Err(PipelineError::TemplateRenderError)));
}

#[test]
fn calendar_attachment_comes_first_with_its_bytes() {
    let mut req = request();
    req.ics_name = Some("invite".to_string());
    let (p, a) = Pipeline::start(config(), req, &"s3cret".to_string());
    let (p, a) = through_render(p, a, "Hi");
    let path = match a {
        Action::ReadAttachment { path } => path,
        _ => panic!("a requested calendar resource must be read next"),
    };
    assert_eq!(path, "ics/invite.ics");

    let ics_bytes = b"BEGIN:VCALENDAR".to_vec();
    let (_, a) = p.step(Event::AttachmentRead(Ok(ics_bytes.clone())));
    match a {
        Action::DeliverMessage { message } => {
            assert_eq!(message.attachments.len(), 1);
            assert_eq!(message.attachments[0].filename, "invite.ics");
            assert_eq!(message.attachments[0].content_type, "text/calendar");
            assert_eq!(message.attachments[0].bytes, ics_bytes);
        }
        _ => panic!("a resolved calendar goes into the message"),
    }
}

#[test]
fn missing_calendar_resource_fails() {
    let mut req = request();
    req.ics_name = Some("invite".to_string());
    let (p, a) = Pipeline::start(config(), req, &"s3cret".to_string());
    let (p, _) = through_render(p, a, "Hi");
    let (p, a) = p.step(Event::AttachmentRead(Err("no such file".to_string())));
    assert!(matches!(a, Action::Respond { status: 500 }));
    assert_eq!(p.outcome(), Some(Err(PipelineError::AttachmentNotFound)));
}

#[test]
fn document_request_posts_the_exact_payload() {
    let mut req = request();
    req.qrbill_params = Some(Value::Obj(vec![
        ("amount".to_string(), Value::Num("12.5".to_string())),
        ("to".to_string(), Value::Str("Ada".to_string())),
    ]));
    let (p, a) = Pipeline::start(config(), req, &"s3cret".to_string());
    let (p, a) = through_render(p, a, "Hi");
    let payload = match a {
        Action::PostDocument { payload } => payload,
        _ => panic!("billing parameters must be posted to the document service"),
    };
    assert_eq!(payload, "{\"amount\":12.5,\"to\":\"Ada\"}");

    let svg = minimal_svg();
    let (p, a) = p.step(Event::DocumentFetched(Ok(svg.clone())));
    let handed = match a {
        Action::ConvertDocument { svg } => svg,
        _ => panic!("fetched vector data goes to the converter next"),
    };
    assert_eq!(handed, svg);

    let pdf = convert(&handed).expect("the SVG converts");
    let (_, a) = p.step(Event::DocumentConverted(Ok(pdf.clone())));
    match a {
        Action::DeliverMessage { message } => {
            assert_eq!(message.attachments.len(), 1);
            let doc = &message.attachments[0];
            assert_eq!(doc.filename, "qrbill.pdf");
            assert_eq!(doc.content_type, "application/pdf");
            assert_eq!(doc.bytes, pdf);
            assert_ne!(doc.bytes, svg);
            assert!(doc.bytes.starts_with(b"%PDF"));
        }
        _ => panic!("a generated document goes into the message"),
    }
}

#[test]
fn calendar_then_document_keeps_the_order() {
    let mut req = request();
    req.ics_name = Some("invite".to_string());
    req.qrbill_params = Some(Value::Obj(vec![(
        "amount".to_string(),
        Value::Num("1".to_string()),
    )]));
    let (p, a) = Pipeline::start(config(), req, &"s3cret".to_string());
    let (p, _) = through_render(p, a, "Hi");
    let ics_bytes = b"BEGIN:VCALENDAR".to_vec();
    let (p, a) = p.step(Event::AttachmentRead(Ok(ics_bytes.clone())));
    assert!(matches!(a, Action::PostDocument { .. }));
    let (p, a) = p.step(Event::DocumentFetched(Ok(minimal_svg())));
    let handed = match a {
        Action::ConvertDocument { svg } => svg,
        _ => panic!("fetched vector data goes to the converter next"),
    };
    let pdf = convert(&handed).expect("the SVG converts");
    let (_, a) = p.step(Event::DocumentConverted(Ok(pdf)));
    match a {
        Action::DeliverMessage { message } => {
            assert_eq!(message.attachments.len(), 2);
            assert_eq!(message.attachments[0].filename, "invite.ics");
            assert_eq!(message.attachments[0].bytes, ics_bytes);
            assert_eq!(message.attachments[1].filename, "qrbill.pdf");
            assert_eq!(message.attachments[1].content_type, "application/pdf");
        }
        _ => panic!("both attachments must be assembled, calendar first"),
    }
}

#[test]
fn failed_document_service_prevents_delivery() {
    let mut req = request();
    req.qrbill_params = Some(Value::Obj(vec![(
        "amount".to_string(),
        Value::Num("1".to_string()),
    )]));
    let (p, a) = Pipeline::start(config(), req, &"s3cret".to_string());
    let (p, _) = through_render(p, a, "Hi");
    let (p, a) = p.step(Event::DocumentFetched(Err("connection refused".to_string())));
    match a {
        Action::Respond { status } => assert_eq!(status, 500),
        Action::DeliverMessage { .. } => {
            panic!("no delivery may be attempted after a failed stage")
        }
        _ => panic!("a failed document call ends the request"),
    }
    assert_eq!(p.outcome(), Some(Err(PipelineError::DocumentServiceUnavailable)));
}

#[test]
fn malformed_svg_fails_conversion() {
    let mut req = request();
    req.qrbill_params = Some(Value::Obj(vec![(
        "amount".to_string(),
        Value::Num("1".to_string()),
    )]));
    let (p, a) = Pipeline::start(config(), req, &"s3cret".to_string());
    let (p, _) = through_render(p, a, "Hi");
    let (p, a) = p.step(Event::DocumentFetched(Ok(b"not an svg".to_vec())));
    let handed = match a {
        Action::ConvertDocument { svg } => svg,
        _ => panic!("fetched vector data goes to the converter next"),
    };
    let conversion = convert(&handed);
    assert!(conversion.is_err());
    let (p, a) = p.step(Event::DocumentConverted(conversion));
    assert!(matches!(a, Action::Respond { status: 500 }));
    assert_eq!(p.outcome(), Some(Err(PipelineError::DocumentConversionFailed)));
}

#[test]
fn delivery_failures_are_distinguished() {
    let (p, a) = Pipeline::start(config(), request(), &"s3cret".to_string());
    let (p, _) = through_render(p, a, "Hi");
    let (p, a) = p.step(Event::DeliveryDone(DeliveryOutcome::SendFailed(
        "relay refused".to_string(),
    )));
    assert!(matches!(a, Action::Respond { status: 500 }));
    assert_eq!(p.outcome(), Some(Err(PipelineError::DeliveryFailed)));

    let (p2, a2) = Pipeline::start(config(), request(), &"s3cret".to_string());
    let (p2, _) = through_render(p2, a2, "Hi");
    let (p2, _) = p2.step(Event::DeliveryDone(DeliveryOutcome::AssemblyFailed(
        "bad address".to_string(),
    )));
    assert_eq!(p2.outcome(), Some(Err(PipelineError::MessageAssemblyError)));
}

#[test]
fn status_codes_by_error() {
    assert_eq!(mail_sender::error_status(PipelineError::Unauthorized), 401);
    assert_eq!(mail_sender::error_status(PipelineError::ConfigurationMissing), 500);
    assert_eq!(mail_sender::error_status(PipelineError::TemplateNotFound), 500);
    assert_eq!(mail_sender::error_status(PipelineError::TemplateRenderError), 500);
    assert_eq!(mail_sender::error_status(PipelineError::AttachmentNotFound), 500);
    assert_eq!(mail_sender::error_status(PipelineError::DocumentServiceUnavailable), 500);
    assert_eq!(mail_sender::error_status(PipelineError::DocumentConversionFailed), 500);
    assert_eq!(mail_sender::error_status(PipelineError::MessageAssemblyError), 500);
    assert_eq!(mail_sender::error_status(PipelineError::DeliveryFailed), 500);
}

#[test]
fn template_with_conditional_and_iteration() {
    let mut req = request();
    req.parameters = vec![(
        "xs".to_string(),
        Value::Arr(vec![
            Value::Num("1".to_string()),
            Value::Num("2".to_string()),
            Value::Num("3".to_string()),
        ]),
    )];
    let (p, a) = Pipeline::start(config(), req, &"s3cret".to_string());
    let (_, a) = through_render(p, a, "{% for x in xs %}{{ x }};{% endfor %}");
    match a {
        Action::DeliverMessage { message } => assert_eq!(message.html_body, "1;2;3;"),
        _ => panic!("iteration over a sequence parameter must render"),
    }
}

#[test]
fn overflowing_filter_arithmetic_is_a_render_failure_not_a_crash() {
    let mut req = request();
    req.parameters = vec![(
        "n".to_string(),
        Value::Num(i64::MIN.to_string()),
    )];
    let (p, a) = Pipeline::start(config(), req, &"s3cret".to_string());
    let (p, a) = p.step(match a {
        Action::ReadTemplate { .. } => {
            Event::TemplateRead(Ok("{{ n | divided_by: -1 }}".to_string()))
        }
        _ => panic!("the first stage after the secret is the template lookup"),
    });
    let (template, params_json) = match a {
        Action::RenderTemplate {
            template,
            params_json,
        } => (template, params_json),
        _ => panic!("a read template goes to the renderer next"),
    };
    // The engine panics on this input (`divided_by: -1` on the smallest
    // 64-bit integer); the runtime catches the unwind and reports a render
    // failure, which the pipeline must map to a 500.
    assert_eq!(template, "{{ n | divided_by: -1 }}");
    assert_eq!(params_json, "{\"n\":-9223372036854775808}");
    let rendered: Result<String, String> = Err("template engine panicked".to_string());
    let (p, a) = p.step(Event::TemplateRendered(rendered));
    assert!(matches!(a, Action::Respond { status: 500 }));
    assert_eq!(p.outcome(), Some(Err(PipelineError::TemplateRenderError)));
}
