use tls_issuer::cli::{
    _print_manual, parse_print_mode, AuthPlan, CliCommandHttp, OutputPlan, WriterMode,
};
use tls_issuer::host::Host;
use tls_issuer::service::HyperService;

fn command() -> CliCommandHttp {
    CliCommandHttp {
        json: false,
        form: false,
        follow: false,
        max_redirects: 30,
        auth: None,
        auth_type: "basic".to_string(),
        insecure: false,
        tls: None,
        cert: None,
        cert_key: None,
        timeout: 0,
        check_status: false,
        print: "hb".to_string(),
        verbose: false,
        all: false,
        offline: false,
        output: None,
        debug: false,
        args: vec![],
    }
}

#[test]
fn print_mode_default_is_response_headers_and_body() {
    assert_eq!(parse_print_mode("hb"), Ok((None, Some(WriterMode::All))));
}

#[test]
fn print_mode_single_parts() {
    assert_eq!(parse_print_mode(""), Ok((None, None)));
    assert_eq!(parse_print_mode("h"), Ok((None, Some(WriterMode::Headers))));
    assert_eq!(parse_print_mode("B"), Ok((Some(WriterMode::Body), None)));
    assert_eq!(parse_print_mode("HhH"), Ok((Some(WriterMode::Headers), Some(WriterMode::Headers))));
    assert_eq!(parse_print_mode("hHbB"), Ok((Some(WriterMode::All), Some(WriterMode::All))));
}

#[test]
fn print_mode_unknown_character() {
    assert_eq!(parse_print_mode("hxz"), Err('x'));
}

#[test]
fn output_plans() {
    let mut c = command();
    assert_eq!(
        c.output_plan(),
        Ok(OutputPlan { request_mode: None, response_mode: Some(WriterMode::All), all: false })
    );
    c.verbose = true;
    assert_eq!(
        c.output_plan(),
        Ok(OutputPlan {
            request_mode: Some(WriterMode::All),
            response_mode: Some(WriterMode::All),
            all: true
        })
    );
    c.offline = true;
    assert_eq!(
        c.output_plan(),
        Ok(OutputPlan { request_mode: Some(WriterMode::All), response_mode: None, all: false })
    );
    let mut d = command();
    d.print = "q".to_string();
    assert_eq!(d.output_plan(), Err('q'));
}

#[test]
fn timeout_and_redirects() {
    let mut c = command();
    assert_eq!(c.timeout_secs(), 180);
    c.timeout = 5;
    assert_eq!(c.timeout_secs(), 5);
    assert_eq!(c.redirect_limit(), 0);
    c.follow = true;
    assert_eq!(c.redirect_limit(), 30);
}

#[test]
fn manual_starts_with_usage() {
    assert!(_print_manual().starts_with("\nusage:\n    rama http [METHOD] URL"));
    assert!(_print_manual().ends_with("field-name-with\\:colon=value\n"));
}

#[test]
fn hyper_service_keeps_parts() {
    let s = HyperService::new(3u8, "inner");
    assert_eq!(*s.ctx(), 3);
    assert_eq!(*s.inner(), "inner");
}

#[test]
fn host_text_and_kind() {
    assert_eq!(Host::Name("a.b".to_string()).to_text(), "a.b");
    assert!(Host::Address("::1".to_string()).is_address());
    assert!(!Host::Name("a.b".to_string()).is_address());
}

fn with_auth(auth: Option<&str>, auth_type: &str) -> CliCommandHttp {
    let mut c = command();
    c.auth = auth.map(|a| a.to_string());
    c.auth_type = auth_type.to_string();
    c
}

#[test]
fn auth_none() {
    assert_eq!(with_auth(None, "basic").auth_plan(), Ok(AuthPlan::NoAuth));
}

#[test]
fn auth_basic_splits_at_first_colon() {
    assert_eq!(
        with_auth(Some(" alice:se:cret: "), " BASIC ").auth_plan(),
        Ok(AuthPlan::Basic { user: "alice".to_string(), password: "se:cret".to_string() })
    );
}

#[test]
fn auth_basic_without_password_prompts() {
    assert_eq!(
        with_auth(Some("bob::"), "basic").auth_plan(),
        Ok(AuthPlan::BasicPrompt { user: "bob".to_string() })
    );
}

#[test]
fn auth_bearer() {
    assert_eq!(
        with_auth(Some(" tok "), "Bearer").auth_plan(),
        Ok(AuthPlan::Bearer("tok".to_string()))
    );
}

#[test]
fn auth_unknown_kind() {
    assert_eq!(with_auth(Some("x"), " Digest").auth_plan(), Err("digest".to_string()));
}
