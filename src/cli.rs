//! Decisions of the command-line HTTP client: what to print, how long to
//! wait, how many redirects to follow, and how to authenticate.
use vstd::prelude::*;
use vstd::std_specs::iter::IteratorSpec;
use vstd::string::{axiom_spec_iter, next_postcondition};
use crate::text::{
    lower_of, lowercase, split_at_colon, trim, trim_trailing_colons, trimmed,
    without_trailing_colons,
};

verus! {

/// What part of a request or response gets written out.
#[derive(Debug, Clone, Copy, PartialEq, Eq, Structural)]
pub enum WriterMode {
    Headers,
    Body,
    All,
}

/// The mode that writes what `m` writes and the headers too.
pub open spec fn add_headers(m: Option<WriterMode>) -> WriterMode {
    match m {
        Some(WriterMode::All) | Some(WriterMode::Body) => WriterMode::All,
        _ => WriterMode::Headers,
    }
}

/// The mode that writes what `m` writes and the body too.
pub open spec fn add_body(m: Option<WriterMode>) -> WriterMode {
    match m {
        Some(WriterMode::All) | Some(WriterMode::Headers) => WriterMode::All,
        _ => WriterMode::Body,
    }
}

/// The request and response modes after reading one more character of a
/// print mode, or the character where it is unknown: 'h' and 'b' add
/// headers and body to the response, 'H' and 'B' to the request.
pub open spec fn print_step(
    st: (Option<WriterMode>, Option<WriterMode>),
    c: char,
) -> Result<(Option<WriterMode>, Option<WriterMode>), char> {
    if c == 'h' {
        Ok((st.0, Some(add_headers(st.1))))
    } else if c == 'H' {
        Ok((Some(add_headers(st.0)), st.1))
    } else if c == 'b' {
        Ok((st.0, Some(add_body(st.1))))
    } else if c == 'B' {
        Ok((Some(add_body(st.0)), st.1))
    } else {
        Err(c)
    }
}

/// The request and response modes that a print mode asks for, or its
/// first unknown character.
pub open spec fn print_modes(s: Seq<char>) -> Result<(Option<WriterMode>, Option<WriterMode>), char>
    decreases s.len(),
{
    if s.len() == 0 {
        Ok((None, None))
    } else {
        match print_modes(s.drop_last()) {
            Ok(st) => print_step(st, s.last()),
            Err(c) => Err(c),
        }
    }
}

/// The mode that writes what `m` writes and the headers too.
fn with_headers(m: Option<WriterMode>) -> (r: WriterMode)
    ensures
        r == add_headers(m),
{
    match m {
        Some(WriterMode::All) | Some(WriterMode::Body) => WriterMode::All,
        Some(WriterMode::Headers) | None => WriterMode::Headers,
    }
}

/// The mode that writes what `m` writes and the body too.
fn with_body(m: Option<WriterMode>) -> (r: WriterMode)
    ensures
        r == add_body(m),
{
    match m {
        Some(WriterMode::All) | Some(WriterMode::Headers) => WriterMode::All,
        Some(WriterMode::Body) | None => WriterMode::Body,
    }
}

/// The request and response modes of the print mode `mode`, or its first
/// unknown character.
pub fn parse_print_mode(mode: &str) -> (r: Result<(Option<WriterMode>, Option<WriterMode>), char>)
    ensures
        r == print_modes(mode@),
{
    broadcast use axiom_spec_iter, next_postcondition;

    let ghost all = mode@;
    let mut request_mode: Option<WriterMode> = None;
    let mut response_mode: Option<WriterMode> = None;
    let mut it = mode.chars();
    let ghost mut done: int = 0;
    assert(all.take(0) =~= Seq::<char>::empty());
    loop
        invariant
            all == mode@,
            0 <= done <= all.len(),
            it.remaining() == all.skip(done),
            print_modes(all.take(done)) == Ok::<
                (Option<WriterMode>, Option<WriterMode>),
                char,
            >((request_mode, response_mode)),
        decreases all.len() - done,
    {
        let ghost before = it.remaining();
        match it.next() {
            None => {
                assert(all.skip(done).len() == 0);
                assert(all.take(done) =~= all);
                return Ok((request_mode, response_mode));
            },
            Some(c) => {
                proof {
                    assert(before.len() > 0);
                    assert(c == all[done]);
                    assert(all.take(done + 1).last() == c);
                    assert(all.take(done + 1).drop_last() =~= all.take(done));
                    assert(all.skip(done + 1) =~= before.drop_first());
                }
                if c == 'h' {
                    response_mode = Some(with_headers(response_mode));
                } else if c == 'H' {
                    request_mode = Some(with_headers(request_mode));
                } else if c == 'b' {
                    response_mode = Some(with_body(response_mode));
                } else if c == 'B' {
                    request_mode = Some(with_body(request_mode));
                } else {
                    proof {
                        assert(print_modes(all.take(done + 1)) == Err::<
                            (Option<WriterMode>, Option<WriterMode>),
                            char,
                        >(c));
                        lemma_print_modes_error_stays(all, done + 1);
                    }
                    return Err(c);
                }
                proof {
                    done = done + 1;
                }
            },
        }
    }
}

/// Once a print mode has an unknown character, so has every longer one.
proof fn lemma_print_modes_error_stays(s: Seq<char>, n: int)
    requires
        0 < n <= s.len(),
        print_modes(s.take(n)) is Err,
    ensures
        print_modes(s) == print_modes(s.take(n)),
    decreases s.len() - n,
{
    if n < s.len() {
        assert(s.take(n + 1).drop_last() =~= s.take(n));
        lemma_print_modes_error_stays(s, n + 1);
    } else {
        assert(s.take(n) =~= s);
    }
}

/// Seconds a connection may take when no timeout is given.
pub const DEFAULT_TIMEOUT_SECS: u64 = 180;

/// Options of the HTTP client command.
#[derive(Debug, Clone, PartialEq, Eq)]
pub struct CliCommandHttp {
    /// Serialize data items as a JSON object (the default).
    pub json: bool,
    /// Serialize data items as form fields.
    pub form: bool,
    /// Follow redirects.
    pub follow: bool,
    /// The maximum number of redirects to follow.
    pub max_redirects: usize,
    /// Client authentication: `USER[:PASS]` or a token.
    pub auth: Option<String>,
    /// The kind of authentication: basic or bearer.
    pub auth_type: String,
    /// Skip TLS certificate verification.
    pub insecure: bool,
    /// The TLS version to use.
    pub tls: Option<String>,
    /// Path of the client certificate.
    pub cert: Option<String>,
    /// Path of the client certificate's key.
    pub cert_key: Option<String>,
    /// Seconds each connection may take; 0 for the default.
    pub timeout: u64,
    /// Fail on a status code that is not 2xx.
    pub check_status: bool,
    /// What to print: 'h'/'b' for response headers/body, 'H'/'B' for the
    /// request's.
    pub print: String,
    /// Print everything of all requests and responses.
    pub verbose: bool,
    /// Print all requests and responses, redirects included.
    pub all: bool,
    /// Print the request instead of sending it.
    pub offline: bool,
    /// File to write the output to instead of stdout.
    pub output: Option<String>,
    /// Print debug information.
    pub debug: bool,
    /// Method, URL and request items.
    pub args: Vec<String>,
}

/// What the client prints and whether it does so for every exchange.
#[derive(Debug, Clone, Copy, PartialEq, Eq, Structural)]
pub struct OutputPlan {
    pub request_mode: Option<WriterMode>,
    pub response_mode: Option<WriterMode>,
    pub all: bool,
}

/// The output of the client for `cfg`: the request alone when offline,
/// everything of every exchange when verbose, else the print mode.
pub open spec fn output_of(cfg: CliCommandHttp) -> Result<OutputPlan, char> {
    if cfg.offline {
        Ok(OutputPlan { request_mode: Some(WriterMode::All), response_mode: None, all: cfg.all })
    } else if cfg.verbose {
        Ok(
            OutputPlan {
                request_mode: Some(WriterMode::All),
                response_mode: Some(WriterMode::All),
                all: true,
            },
        )
    } else {
        match print_modes(cfg.print@) {
            Ok(m) => Ok(OutputPlan { request_mode: m.0, response_mode: m.1, all: cfg.all }),
            Err(c) => Err(c),
        }
    }
}

impl CliCommandHttp {
    /// What the client prints, or the first unknown print-mode character.
    pub fn output_plan(&self) -> (r: Result<OutputPlan, char>)
        ensures
            r == output_of(*self),
    {
        if self.offline {
            Ok(
                OutputPlan {
                    request_mode: Some(WriterMode::All),
                    response_mode: None,
                    all: self.all,
                },
            )
        } else if self.verbose {
            Ok(
                OutputPlan {
                    request_mode: Some(WriterMode::All),
                    response_mode: Some(WriterMode::All),
                    all: true,
                },
            )
        } else {
            match parse_print_mode(self.print.as_str()) {
                Ok((request_mode, response_mode)) => Ok(
                    OutputPlan { request_mode, response_mode, all: self.all },
                ),
                Err(c) => Err(c),
            }
        }
    }

    /// Seconds each connection may take.
    pub fn timeout_secs(&self) -> (r: u64)
        ensures
            r == if self.timeout > 0 {
                self.timeout
            } else {
                DEFAULT_TIMEOUT_SECS
            },
    {
        if self.timeout > 0 {
            self.timeout
        } else {
            DEFAULT_TIMEOUT_SECS
        }
    }

    /// The number of redirects to follow: none unless asked to follow.
    pub fn redirect_limit(&self) -> (r: usize)
        ensures
            r == if self.follow {
                self.max_redirects
            } else {
                0
            },
    {
        if self.follow {
            self.max_redirects
        } else {
            0
        }
    }
}

/// The usage text of the HTTP client command.
pub const MANUAL: &'static str = "\nusage:\n    rama http [METHOD] URL [REQUEST_ITEM ...]\n\nPositional arguments:\n\n  These arguments come after any flags and in the order they are listed here.\n  Only URL is required.\n\n  METHOD\n      The HTTP method to be used for the request (GET, POST, PUT, DELETE, ...).\n\n      This argument can be omitted in which case HTTPie will use POST if there\n      is some data to be sent, otherwise GET:\n\n          $ rama http example.org               # => GET\n          $ rama http example.org hello=world   # => POST\n\n  URL\n      The request URL. Scheme defaults to 'http://' if the URL\n      does not include one.\n\n      You can also use a shorthand for localhost\n\n          $ rama http :3000                    # => http://localhost:3000\n          $ rama http :/foo                    # => http://localhost/foo\n\n  REQUEST_ITEM\n      Optional key-value pairs to be included in the request. The separator used\n      determines the type:\n\n      ':' HTTP headers:\n\n          Referer:https://ramaproxy.org  Cookie:foo=bar  User-Agent:rama/0.2.0\n\n      '==' URL parameters to be appended to the request URI:\n\n          search==rama\n\n      '=' Data fields to be serialized into a JSON object or form data:\n\n          name=rama  language=Rust  description='CLI HTTP client'\n\n      ':=' Non-string data fields:\n\n          awesome:=true  amount:=42  colors:='[\"red\", \"green\", \"blue\"]'\n\n      You can use a backslash to escape a colliding separator in the field name:\n\n          field-name-with\\:colon=value\n";

/// The usage text of the HTTP client command.
pub fn _print_manual() -> (r: &'static str)
    ensures
        r@ == MANUAL@,
{
    MANUAL
}

/// How requests are authenticated.
#[derive(Debug, Clone, PartialEq, Eq)]
pub enum AuthPlan {
    NoAuth,
    /// Basic authentication with a user and password.
    Basic { user: String, password: String },
    /// Basic authentication for a user whose password is asked for.
    BasicPrompt { user: String },
    /// A bearer token.
    Bearer(String),
}

/// The credentials given as `auth`: trimmed, without trailing ':'.
pub open spec fn credentials_of(auth: Seq<char>) -> Seq<char> {
    without_trailing_colons(trimmed(auth))
}

/// The kind of authentication given as `auth_type`: trimmed, in
/// lowercase.
pub open spec fn auth_kind_of(auth_type: Seq<char>) -> Seq<char> {
    lower_of(trimmed(auth_type))
}

/// Whether `r` is the authentication that `auth` and `auth_type` ask
/// for: basic splits the credentials at their first ':' into user and
/// password, and asks for the password where there is no ':'; bearer
/// uses them as token; any other kind is refused and returned.
pub open spec fn is_auth_plan(r: Result<AuthPlan, String>, auth: Option<String>, auth_type: Seq<char>) -> bool {
    match auth {
        None => r == Ok::<AuthPlan, String>(AuthPlan::NoAuth),
        Some(a) => {
            let cred = credentials_of(a@);
            let kind = auth_kind_of(auth_type);
            if kind == "basic"@ {
                if cred.contains(':') {
                    r is Ok && r->Ok_0 is Basic && cred == r->Ok_0->Basic_user@ + seq![':']
                        + r->Ok_0->Basic_password@ && !r->Ok_0->Basic_user@.contains(':')
                } else {
                    r is Ok && r->Ok_0 is BasicPrompt && r->Ok_0->BasicPrompt_user@ == cred
                }
            } else if kind == "bearer"@ {
                r is Ok && r->Ok_0 is Bearer && r->Ok_0->Bearer_0@ == cred
            } else {
                r is Err && r->Err_0@ == kind
            }
        },
    }
}

/// Whether two texts are equal.
fn same_text(a: &String, b: &str) -> (r: bool)
    ensures
        r == (a@ == b@),
{
    let b = b.to_owned();
    *a == b
}

impl CliCommandHttp {
    /// How requests are authenticated, or the unknown kind of
    /// authentication.
    pub fn auth_plan(&self) -> (r: Result<AuthPlan, String>)
        ensures
            is_auth_plan(r, self.auth, self.auth_type@),
    {
        match &self.auth {
            None => Ok(AuthPlan::NoAuth),
            Some(a) => {
                let t = trim(a.as_str());
                let cred = trim_trailing_colons(t.as_str());
                let kt = trim(self.auth_type.as_str());
                let kind = lowercase(kt.as_str());
                if same_text(&kind, "basic") {
                    match split_at_colon(cred.as_str()) {
                        Some(parts) => Ok(
                            AuthPlan::Basic { user: parts.before, password: parts.after },
                        ),
                        None => Ok(AuthPlan::BasicPrompt { user: cred }),
                    }
                } else if same_text(&kind, "bearer") {
                    Ok(AuthPlan::Bearer(cred))
                } else {
                    Err(kind)
                }
            },
        }
    }
}

} // verus!
