//! The sign-in negotiation: a state machine that, fed one response at a time,
//! says which request to send next, until the session is authenticated or the
//! attempt has failed.
use vstd::prelude::*;

use crate::scrape::{
    config_of, extract_field, extract_inline_config, field_in, inline_text, json_is_valid,
    lines, member_or_empty, Field, InlineConfig, ScrapeError,
};
use crate::text::{concat, owned, replace, replaced};

verus! {

/// An e-mail address and a password for signing in.
#[derive(Clone)]
pub struct Credential {
    email: String,
    password: String,
}

impl Credential {
    /// The e-mail address.
    pub closed spec fn spec_email(&self) -> Seq<char> {
        self.email@
    }

    /// The password; empty when it is not known.
    pub closed spec fn spec_password(&self) -> Seq<char> {
        self.password@
    }

    /// A credential from an e-mail address and a password.
    pub fn new(email: &str, password: &str) -> (r: Credential)
        ensures
            r.spec_email() == email@,
            r.spec_password() == password@,
    {
        Credential { email: owned(email), password: owned(password) }
    }

    /// A credential whose password comes from a secret store: the stored
    /// password, or an empty one when none could be read.
    pub fn with_stored_password(email: &str, stored: Option<String>) -> (r: Credential)
        ensures
            r.spec_email() == email@,
            stored matches Some(p) ==> r.spec_password() == p@,
            stored is None ==> r.spec_password() == Seq::<char>::empty(),
    {
        let password = match stored {
            Some(p) => p,
            None => String::new(),
        };
        Credential { email: owned(email), password }
    }

    /// The e-mail address.
    pub fn email(&self) -> (r: &str)
        ensures
            r@ == self.spec_email(),
    {
        self.email.as_str()
    }

    /// The password.
    pub fn password(&self) -> (r: &str)
        ensures
            r@ == self.spec_password(),
    {
        self.password.as_str()
    }

    /// Whether the password is missing, so that it must be entered before
    /// signing in.
    pub fn needs_password(&self) -> (r: bool)
        ensures
            r == (self.spec_password().len() == 0),
    {
        self.password.as_str().is_empty()
    }

    /// Replaces the password.
    pub fn set_password(&mut self, password: &str)
        ensures
            final(self).spec_email() == old(self).spec_email(),
            final(self).spec_password() == password@,
    {
        self.password = owned(password);
    }

    /// Forgets the password.
    pub fn clear_password(&mut self)
        ensures
            final(self).spec_email() == old(self).spec_email(),
            final(self).spec_password() == Seq::<char>::empty(),
    {
        self.password = String::new();
    }
}

/// The exchanges of the sign-in flow, in the order they happen.
#[derive(Clone, Copy, Debug, PartialEq, Eq, Structural)]
pub enum Step {
    /// Opening the application's sign-in page.
    SignIn,
    /// Asking the single-sign-on entry page for its form.
    SamlEntry,
    /// Posting the e-mail address to the single-sign-on form.
    EmailForm,
    /// Following the application's redirect towards the identity provider.
    IdpRedirect,
    /// Opening the identity provider's login page.
    IdpLogin,
    /// Posting the e-mail address and the password.
    Credentials,
    /// Acknowledging "stay signed in".
    KeepMeSignedIn,
    /// Handing the assertion to the application.
    SamlAssertion,
    /// Opening the page that sets the final session cookie.
    Finalize,
}

/// What was wrong with a response.
#[derive(Clone, Copy, Debug, PartialEq, Eq, Structural)]
pub enum ProtocolReason {
    /// The status was not the one this step expects.
    UnexpectedStatus,
    /// A redirect came without a `Location` header.
    MissingLocation,
    /// A redirect target is not a URL with a host.
    BadRedirectTarget,
    /// The anti-forgery token is missing from the entry form.
    TokenNotFound,
    /// The page holds no configuration line.
    ConfigNotFound,
    /// The assertion, its relay state or its target is missing; this is how
    /// rejected credentials show.
    AssertionNotFound,
}

/// Why a sign-in attempt failed, with the step at which it did.
#[derive(Clone, Copy, Debug, PartialEq, Eq, Structural)]
pub enum AuthError {
    /// The request could not be sent or its response not received.
    Transport { step: Step },
    /// A response did not have the expected shape.
    Protocol { step: Step, reason: ProtocolReason },
    /// The configuration line did not frame JSON text.
    MalformedBlob { step: Step },
}

/// Where a negotiation stands.
#[derive(Clone, Copy, Debug, PartialEq, Eq, Structural)]
pub enum Phase {
    /// The request of this step was sent; its response is awaited.
    Awaiting(Step),
    /// The session holds the final cookie.
    Authenticated,
    /// The attempt is over.
    Failed(AuthError),
}

/// The request method.
#[derive(Clone, Copy, Debug, PartialEq, Eq, Structural)]
pub enum Method {
    Get,
    Post,
}

/// A request for the HTTP client to send, with cookies kept and redirects
/// not followed.
#[derive(Clone, Debug)]
pub struct Request {
    pub method: Method,
    pub url: String,
    /// The form fields, in order; empty for a `Get`.
    pub form: Vec<(String, String)>,
}

/// A request as values.
pub struct RequestView {
    pub method: Method,
    pub url: Seq<char>,
    pub form: Seq<(Seq<char>, Seq<char>)>,
}

impl View for Request {
    type V = RequestView;

    open spec fn view(&self) -> RequestView {
        RequestView { method: self.method, url: self.url@, form: self.form.deep_view() }
    }
}

/// A received response: its status, its `Location` header if present, and
/// its body as text.
#[derive(Clone, Debug)]
pub struct Response {
    pub status: u16,
    pub location: Option<String>,
    pub body: String,
}

/// What came of sending a request.
#[derive(Clone, Debug)]
pub enum Reply {
    Received(Response),
    TransportFailure,
}

/// One sign-in attempt in progress.
pub struct Negotiator {
    phase: Phase,
    email: String,
    password: String,
    idp_host: String,
    idp_path: String,
}

/// A negotiation as values: where it stands, the credential it uses, and the
/// host and path of the identity provider's login page once known.
pub struct NegotiatorView {
    pub phase: Phase,
    pub email: Seq<char>,
    pub password: Seq<char>,
    pub idp_host: Seq<char>,
    pub idp_path: Seq<char>,
}

impl View for Negotiator {
    type V = NegotiatorView;

    closed spec fn view(&self) -> NegotiatorView {
        NegotiatorView {
            phase: self.phase,
            email: self.email@,
            password: self.password@,
            idp_host: self.idp_host@,
            idp_path: self.idp_path@,
        }
    }
}


// ---------------------------------------------------------------------------
// The fixed parts of the flow
// ---------------------------------------------------------------------------

/// The application's sign-in page.
pub open spec fn sign_in_url() -> Seq<char> {
    "https://api.factorialhr.com/users/sign_in"@
}

/// The single-sign-on entry page.
pub open spec fn saml_entry_url() -> Seq<char> {
    "https://api.factorialhr.com/saml_login/new?locale=en-us"@
}

/// Where the e-mail form is posted.
pub open spec fn saml_login_url() -> Seq<char> {
    "https://api.factorialhr.com/saml_login?html[class]=form&locale=en-us"@
}

/// Where "stay signed in" is acknowledged.
pub open spec fn kmsi_url() -> Seq<char> {
    "https://login.microsoftonline.com/kmsi"@
}

/// The constant fields of the credential form, replayed as the identity
/// provider expects them.
pub open spec fn credential_constants() -> Seq<(Seq<char>, Seq<char>)> {
    seq![
        ("i19"@, "4564"@),
        ("i13"@, "0"@),
        ("type"@, "11"@),
        ("ps"@, "2"@),
        ("NewUser"@, "1"@),
        ("fspost"@, "0"@),
        ("i21"@, "0"@),
        ("CookieDisclosure"@, "0"@),
        ("IsFidoSupported"@, "1"@),
        ("isSignupPost"@, "0"@),
        ("Irt"@, ""@),
        ("IrtPartition"@, ""@),
        ("hisRegion"@, ""@),
        ("hisScaleUnit"@, ""@),
        ("psRNGCDefaultType"@, ""@),
        ("psRNGCEntropy"@, ""@),
        ("psRNGCSLK"@, ""@),
        ("PPSX"@, ""@),
    ]
}

/// The constant fields of the "stay signed in" form.
pub open spec fn kmsi_constants() -> Seq<(Seq<char>, Seq<char>)> {
    seq![
        ("loginOtions"@, "1"@),
        ("i19"@, "2456"@),
        ("type"@, "28"@),
        ("DontShowAgain"@, "true"@),
    ]
}

/// The fields of the e-mail form.
pub open spec fn email_form(token: Seq<char>, email: Seq<char>) -> Seq<(Seq<char>, Seq<char>)> {
    seq![
        ("authenticity_token"@, token),
        ("return_host"@, "api.factorial.com"@),
        ("email"@, email),
        ("commit"@, "Sign+in+with+SAML+SSO"@),
    ]
}

/// The identifiers of the configuration text `t` as form fields.
pub open spec fn token_fields(t: Seq<char>) -> Seq<(Seq<char>, Seq<char>)> {
    seq![
        ("canary"@, member_or_empty(t, "canary"@)),
        ("ctx"@, member_or_empty(t, "sCtx"@)),
        ("hgprequestid"@, member_or_empty(t, "sessionId"@)),
        ("flowToken"@, member_or_empty(t, "sFT"@)),
    ]
}

/// The fields of the credential form.
pub open spec fn credentials_form(email: Seq<char>, password: Seq<char>, t: Seq<char>) -> Seq<
    (Seq<char>, Seq<char>),
> {
    seq![("login"@, email), ("loginfmt"@, email), ("passwd"@, password)] + token_fields(t)
        + credential_constants()
}

/// The fields of the "stay signed in" form.
pub open spec fn kmsi_form(t: Seq<char>) -> Seq<(Seq<char>, Seq<char>)> {
    token_fields(t) + kmsi_constants()
}

/// The fields that hand the assertion over.
pub open spec fn assertion_form(assertion: Seq<char>, relay: Seq<char>) -> Seq<(Seq<char>, Seq<char>)> {
    seq![("SAMLResponse"@, assertion), ("RelayState"@, relay)]
}

/// Where the credential form goes: the login page's host, and its path with
/// `saml2` turned into `login`.
pub open spec fn credentials_url(host: Seq<char>, path: Seq<char>) -> Seq<char> {
    "https://"@ + host + replaced(path, "saml2"@, "login"@)
}

/// The status each step's response must have, where one is checked.
pub open spec fn expected_status(step: Step) -> Option<u16> {
    match step {
        Step::SamlEntry => Some(200u16),
        Step::EmailForm => Some(302u16),
        Step::IdpRedirect => Some(302u16),
        Step::Credentials => Some(200u16),
        Step::KeepMeSignedIn => Some(200u16),
        Step::SamlAssertion => Some(302u16),
        _ => None,
    }
}

/// What the url crate gives for `s`: `None` where it does not parse,
/// else its host, if any, and its path.
pub uninterp spec fn url_host_path(s: Seq<char>) -> Option<(Option<Seq<char>>, Seq<char>)>;

/// Relies on `reqwest::Url::parse` (the url crate's `Url`), `Url::host_str` and
/// `Url::path`.
#[verifier::external_body]
fn parse_url(s: &str) -> (r: Option<(Option<String>, String)>)
    ensures
        r is Some <==> url_host_path(s@) is Some,
        r matches Some(p) ==> url_host_path(s@) == Some((p.0.deep_view(), p.1@)),
{
    match reqwest::Url::parse(s) {
        Ok(u) => Some((u.host_str().map(str::to_string), u.path().to_string())),
        Err(_) => None,
    }
}

// ---------------------------------------------------------------------------
// Transitions
// ---------------------------------------------------------------------------

pub open spec fn get(url: Seq<char>) -> RequestView {
    RequestView { method: Method::Get, url, form: seq![] }
}

pub open spec fn post(url: Seq<char>, form: Seq<(Seq<char>, Seq<char>)>) -> RequestView {
    RequestView { method: Method::Post, url, form }
}

/// `n` at a new phase.
pub open spec fn at(n: NegotiatorView, phase: Phase) -> NegotiatorView {
    NegotiatorView { phase, ..n }
}

/// Moving on to `step` by sending `q`.
pub open spec fn send(n: NegotiatorView, step: Step, q: RequestView) -> (NegotiatorView, Option<RequestView>) {
    (at(n, Phase::Awaiting(step)), Some(q))
}

/// Ending the attempt with `e`.
pub open spec fn fail(n: NegotiatorView, e: AuthError) -> (NegotiatorView, Option<RequestView>) {
    (at(n, Phase::Failed(e)), None)
}

pub open spec fn protocol(n: NegotiatorView, step: Step, reason: ProtocolReason) -> (NegotiatorView, Option<RequestView>) {
    fail(n, AuthError::Protocol { step, reason })
}

/// The configuration of a page failing to be read, as the error of `step`.
pub open spec fn config_failure(body: Seq<char>, step: Step) -> AuthError {
    if lines(body).len() == 0 {
        AuthError::Protocol { step, reason: ProtocolReason::ConfigNotFound }
    } else {
        AuthError::MalformedBlob { step }
    }
}

/// The configuration text of a page, when it is JSON.
pub open spec fn config_text(body: Seq<char>) -> Option<Seq<char>> {
    match inline_text(body) {
        Some(t) => if json_is_valid(t) { Some(t) } else { None },
        None => None,
    }
}

/// Following the redirect of `r` to reach `step`.
pub open spec fn follow(n: NegotiatorView, from: Step, step: Step, r: Response) -> (NegotiatorView, Option<RequestView>) {
    match r.location {
        Some(l) => send(n, step, get(l@)),
        None => protocol(n, from, ProtocolReason::MissingLocation),
    }
}

/// What a response received at `step` leads to, once its status is as expected.
pub open spec fn on_response(n: NegotiatorView, step: Step, r: Response) -> (NegotiatorView, Option<RequestView>) {
    match step {
        Step::SignIn => send(n, Step::SamlEntry, get(saml_entry_url())),
        Step::SamlEntry => match field_in(r.body@, Field::AuthenticityToken) {
            Some(t) => send(n, Step::EmailForm, post(saml_login_url(), email_form(t, n.email))),
            None => protocol(n, step, ProtocolReason::TokenNotFound),
        },
        Step::EmailForm => follow(n, step, Step::IdpRedirect, r),
        Step::IdpRedirect => match r.location {
            Some(l) => match url_host_path(l@) {
                Some((Some(h), p)) => send(
                    NegotiatorView { idp_host: h, idp_path: p, ..n },
                    Step::IdpLogin,
                    get(l@),
                ),
                _ => protocol(n, step, ProtocolReason::BadRedirectTarget),
            },
            None => protocol(n, step, ProtocolReason::MissingLocation),
        },
        Step::IdpLogin => match config_text(r.body@) {
            Some(t) => send(
                n,
                Step::Credentials,
                post(credentials_url(n.idp_host, n.idp_path), credentials_form(n.email, n.password, t)),
            ),
            None => fail(n, config_failure(r.body@, step)),
        },
        Step::Credentials => match config_text(r.body@) {
            Some(t) => send(n, Step::KeepMeSignedIn, post(kmsi_url(), kmsi_form(t))),
            None => fail(n, config_failure(r.body@, step)),
        },
        Step::KeepMeSignedIn => match (
            field_in(r.body@, Field::SamlResponse),
            field_in(r.body@, Field::RelayState),
            field_in(r.body@, Field::FormAction),
        ) {
            (Some(a), Some(s), Some(u)) => send(n, Step::SamlAssertion, post(u, assertion_form(a, s))),
            _ => protocol(n, step, ProtocolReason::AssertionNotFound),
        },
        Step::SamlAssertion => follow(n, step, Step::Finalize, r),
        Step::Finalize => (at(n, Phase::Authenticated), None),
    }
}

/// One transition: the next state of the negotiation, and the request to send
/// next, if any.
pub open spec fn next(n: NegotiatorView, reply: Reply) -> (NegotiatorView, Option<RequestView>) {
    match n.phase {
        Phase::Awaiting(step) => match reply {
            Reply::TransportFailure => fail(n, AuthError::Transport { step }),
            Reply::Received(r) => match expected_status(step) {
                Some(c) => if r.status == c {
                    on_response(n, step, r)
                } else {
                    protocol(n, step, ProtocolReason::UnexpectedStatus)
                },
                None => on_response(n, step, r),
            },
        },
        _ => (n, None),
    }
}

/// A negotiation fed `replies` in turn: its final state, and the requests it
/// asked to send on the way.
pub open spec fn run(n: NegotiatorView, replies: Seq<Reply>) -> (NegotiatorView, Seq<RequestView>)
    decreases replies.len(),
{
    if replies.len() == 0 {
        (n, seq![])
    } else {
        let (m, q) = next(n, replies[0]);
        let (f, qs) = run(m, replies.drop_first());
        (
            f,
            match q {
                Some(x) => seq![x] + qs,
                None => qs,
            },
        )
    }
}

/// The state in which a negotiation for `c` starts.
pub open spec fn initial(c: Credential) -> NegotiatorView {
    NegotiatorView {
        phase: Phase::Awaiting(Step::SignIn),
        email: c.spec_email(),
        password: c.spec_password(),
        idp_host: seq![],
        idp_path: seq![],
    }
}


// ---------------------------------------------------------------------------
// Building requests
// ---------------------------------------------------------------------------

/// A request as values, if any.
pub open spec fn opt_view(r: Option<Request>) -> Option<RequestView> {
    match r {
        Some(q) => Some(q@),
        None => None,
    }
}

fn empty_form() -> (v: Vec<(String, String)>)
    ensures
        v.deep_view() == Seq::<(Seq<char>, Seq<char>)>::empty(),
{
    let v: Vec<(String, String)> = Vec::new();
    assert(v.deep_view() =~= Seq::<(Seq<char>, Seq<char>)>::empty());
    v
}

fn push_pair(v: &mut Vec<(String, String)>, name: &str, value: &str)
    ensures
        final(v).deep_view() == old(v).deep_view().push((name@, value@)),
{
    v.push((owned(name), owned(value)));
    assert(v.deep_view() =~= old(v).deep_view().push((name@, value@)));
}

fn get_request(url: String) -> (r: Request)
    ensures
        r@ == get(url@),
{
    Request { method: Method::Get, url, form: empty_form() }
}

fn post_request(url: String, form: Vec<(String, String)>) -> (r: Request)
    ensures
        r@ == post(url@, form.deep_view()),
{
    Request { method: Method::Post, url, form }
}

fn email_form_fields(token: &str, email: &str) -> (v: Vec<(String, String)>)
    ensures
        v.deep_view() == email_form(token@, email@),
{
    let mut v = empty_form();
    push_pair(&mut v, "authenticity_token", token);
    push_pair(&mut v, "return_host", "api.factorial.com");
    push_pair(&mut v, "email", email);
    push_pair(&mut v, "commit", "Sign+in+with+SAML+SSO");
    v
}

/// The identifiers of `c` as form fields.
pub open spec fn token_fields_of(c: InlineConfig) -> Seq<(Seq<char>, Seq<char>)> {
    seq![
        ("canary"@, c.canary@),
        ("ctx"@, c.ctx@),
        ("hgprequestid"@, c.session_id@),
        ("flowToken"@, c.flow_token@),
    ]
}

fn push_token_fields(v: &mut Vec<(String, String)>, c: &InlineConfig)
    ensures
        final(v).deep_view() == old(v).deep_view() + token_fields_of(*c),
{
    push_pair(v, "canary", c.canary.as_str());
    push_pair(v, "ctx", c.ctx.as_str());
    push_pair(v, "hgprequestid", c.session_id.as_str());
    push_pair(v, "flowToken", c.flow_token.as_str());
    assert(v.deep_view() =~= old(v).deep_view() + token_fields_of(*c));
}

fn push_credential_constants(v: &mut Vec<(String, String)>)
    ensures
        final(v).deep_view() == old(v).deep_view() + credential_constants(),
{
    push_pair(v, "i19", "4564");
    push_pair(v, "i13", "0");
    push_pair(v, "type", "11");
    push_pair(v, "ps", "2");
    push_pair(v, "NewUser", "1");
    push_pair(v, "fspost", "0");
    push_pair(v, "i21", "0");
    push_pair(v, "CookieDisclosure", "0");
    push_pair(v, "IsFidoSupported", "1");
    push_pair(v, "isSignupPost", "0");
    push_pair(v, "Irt", "");
    push_pair(v, "IrtPartition", "");
    push_pair(v, "hisRegion", "");
    push_pair(v, "hisScaleUnit", "");
    push_pair(v, "psRNGCDefaultType", "");
    push_pair(v, "psRNGCEntropy", "");
    push_pair(v, "psRNGCSLK", "");
    push_pair(v, "PPSX", "");
    assert(v.deep_view() =~= old(v).deep_view() + credential_constants());
}

fn push_kmsi_constants(v: &mut Vec<(String, String)>)
    ensures
        final(v).deep_view() == old(v).deep_view() + kmsi_constants(),
{
    push_pair(v, "loginOtions", "1");
    push_pair(v, "i19", "2456");
    push_pair(v, "type", "28");
    push_pair(v, "DontShowAgain", "true");
    assert(v.deep_view() =~= old(v).deep_view() + kmsi_constants());
}

fn credentials_form_fields(email: &str, password: &str, c: &InlineConfig) -> (v: Vec<(String, String)>)
    ensures
        forall|t: Seq<char>| config_of(t, *c) ==> v.deep_view() == credentials_form(email@, password@, t),
{
    let mut v = empty_form();
    push_pair(&mut v, "login", email);
    push_pair(&mut v, "loginfmt", email);
    push_pair(&mut v, "passwd", password);
    push_token_fields(&mut v, c);
    push_credential_constants(&mut v);
    assert forall|t: Seq<char>| config_of(t, *c) implies v.deep_view() == credentials_form(
        email@,
        password@,
        t,
    ) by {
        assert(token_fields_of(*c) =~= token_fields(t));
        assert(v.deep_view() =~= credentials_form(email@, password@, t));
    }
    v
}

fn kmsi_form_fields(c: &InlineConfig) -> (v: Vec<(String, String)>)
    ensures
        forall|t: Seq<char>| config_of(t, *c) ==> v.deep_view() == kmsi_form(t),
{
    let mut v = empty_form();
    push_token_fields(&mut v, c);
    push_kmsi_constants(&mut v);
    assert forall|t: Seq<char>| config_of(t, *c) implies v.deep_view() == kmsi_form(t) by {
        assert(token_fields_of(*c) =~= token_fields(t));
        assert(v.deep_view() =~= kmsi_form(t));
    }
    v
}

fn assertion_form_fields(assertion: &str, relay: &str) -> (v: Vec<(String, String)>)
    ensures
        v.deep_view() == assertion_form(assertion@, relay@),
{
    let mut v = empty_form();
    push_pair(&mut v, "SAMLResponse", assertion);
    push_pair(&mut v, "RelayState", relay);
    v
}

fn expected_status_of(step: Step) -> (r: Option<u16>)
    ensures
        r == expected_status(step),
{
    match step {
        Step::SamlEntry => Some(200),
        Step::EmailForm => Some(302),
        Step::IdpRedirect => Some(302),
        Step::Credentials => Some(200),
        Step::KeepMeSignedIn => Some(200),
        Step::SamlAssertion => Some(302),
        _ => None,
    }
}

fn config_failure_of(e: ScrapeError, step: Step) -> (r: AuthError)
    ensures
        e == ScrapeError::NotFound ==> r == (AuthError::Protocol { step, reason: ProtocolReason::ConfigNotFound }),
        e == ScrapeError::MalformedBlob ==> r == (AuthError::MalformedBlob { step }),
{
    match e {
        ScrapeError::NotFound => AuthError::Protocol { step, reason: ProtocolReason::ConfigNotFound },
        ScrapeError::MalformedBlob => AuthError::MalformedBlob { step },
    }
}


// ---------------------------------------------------------------------------
// Running the negotiation
// ---------------------------------------------------------------------------

impl Negotiator {
    /// Starts a sign-in attempt for `credential`: the negotiation, and the
    /// first request to send.
    pub fn start(credential: &Credential) -> (r: (Negotiator, Request))
        ensures
            r.0@ == initial(*credential),
            r.1@ == get(sign_in_url()),
    {
        let n = Negotiator {
            phase: Phase::Awaiting(Step::SignIn),
            email: credential.email.clone(),
            password: credential.password.clone(),
            idp_host: String::new(),
            idp_path: String::new(),
        };
        (n, get_request(owned("https://api.factorialhr.com/users/sign_in")))
    }

    /// Where the negotiation stands.
    pub fn phase(&self) -> (r: Phase)
        ensures
            r == self@.phase,
    {
        self.phase
    }

    /// Whether the negotiation ended with an authenticated session.
    pub fn is_authenticated(&self) -> (r: bool)
        ensures
            r == (self@.phase == Phase::Authenticated),
    {
        self.phase == Phase::Authenticated
    }

    fn stop(&mut self, e: AuthError) -> (r: Option<Request>)
        ensures
            (final(self)@, opt_view(r)) == fail(old(self)@, e),
    {
        self.phase = Phase::Failed(e);
        None
    }

    fn move_to(&mut self, step: Step, q: Request) -> (r: Option<Request>)
        ensures
            (final(self)@, opt_view(r)) == send(old(self)@, step, q@),
    {
        self.phase = Phase::Awaiting(step);
        Some(q)
    }

    fn follow(&mut self, from: Step, step: Step, r: &Response) -> (q: Option<Request>)
        ensures
            (final(self)@, opt_view(q)) == follow(old(self)@, from, step, *r),
    {
        match &r.location {
            Some(l) => self.move_to(step, get_request(l.clone())),
            None => self.stop(AuthError::Protocol { step: from, reason: ProtocolReason::MissingLocation }),
        }
    }

    fn after_saml_entry(&mut self, r: &Response) -> (q: Option<Request>)
        ensures
            (final(self)@, opt_view(q)) == on_response(old(self)@, Step::SamlEntry, *r),
    {
        match extract_field(r.body.as_str(), Field::AuthenticityToken) {
            Ok(token) => {
                let form = email_form_fields(token.as_str(), self.email.as_str());
                let q = post_request(owned("https://api.factorialhr.com/saml_login?html[class]=form&locale=en-us"), form);
                self.move_to(Step::EmailForm, q)
            },
            Err(_) => self.stop(AuthError::Protocol { step: Step::SamlEntry, reason: ProtocolReason::TokenNotFound }),
        }
    }

    fn after_idp_redirect(&mut self, r: &Response) -> (q: Option<Request>)
        ensures
            (final(self)@, opt_view(q)) == on_response(old(self)@, Step::IdpRedirect, *r),
    {
        let bad = AuthError::Protocol { step: Step::IdpRedirect, reason: ProtocolReason::BadRedirectTarget };
        match &r.location {
            Some(l) => match parse_url(l.as_str()) {
                Some((Some(host), path)) => {
                    self.idp_host = host;
                    self.idp_path = path;
                    self.move_to(Step::IdpLogin, get_request(l.clone()))
                },
                _ => self.stop(bad),
            },
            None => self.stop(AuthError::Protocol { step: Step::IdpRedirect, reason: ProtocolReason::MissingLocation }),
        }
    }

    fn after_idp_login(&mut self, r: &Response) -> (q: Option<Request>)
        ensures
            (final(self)@, opt_view(q)) == on_response(old(self)@, Step::IdpLogin, *r),
    {
        match extract_inline_config(r.body.as_str()) {
            Ok(c) => {
                proof {
                    reveal_strlit("saml2");
                }
                let path = replace(self.idp_path.as_str(), "saml2", "login");
                let site = concat("https://", self.idp_host.as_str());
                let url = concat(site.as_str(), path.as_str());
                let form = credentials_form_fields(self.email.as_str(), self.password.as_str(), &c);
                self.move_to(Step::Credentials, post_request(url, form))
            },
            Err(e) => self.stop(config_failure_of(e, Step::IdpLogin)),
        }
    }

    fn after_credentials(&mut self, r: &Response) -> (q: Option<Request>)
        ensures
            (final(self)@, opt_view(q)) == on_response(old(self)@, Step::Credentials, *r),
    {
        match extract_inline_config(r.body.as_str()) {
            Ok(c) => {
                let form = kmsi_form_fields(&c);
                self.move_to(Step::KeepMeSignedIn, post_request(owned("https://login.microsoftonline.com/kmsi"), form))
            },
            Err(e) => self.stop(config_failure_of(e, Step::Credentials)),
        }
    }

    fn after_kmsi(&mut self, r: &Response) -> (q: Option<Request>)
        ensures
            (final(self)@, opt_view(q)) == on_response(old(self)@, Step::KeepMeSignedIn, *r),
    {
        let missing = AuthError::Protocol { step: Step::KeepMeSignedIn, reason: ProtocolReason::AssertionNotFound };
        let body = r.body.as_str();
        let assertion = match extract_field(body, Field::SamlResponse) {
            Ok(v) => v,
            Err(_) => return self.stop(missing),
        };
        let relay = match extract_field(body, Field::RelayState) {
            Ok(v) => v,
            Err(_) => return self.stop(missing),
        };
        let action = match extract_field(body, Field::FormAction) {
            Ok(v) => v,
            Err(_) => return self.stop(missing),
        };
        let form = assertion_form_fields(assertion.as_str(), relay.as_str());
        self.move_to(Step::SamlAssertion, post_request(action, form))
    }

    fn on_response(&mut self, step: Step, r: &Response) -> (q: Option<Request>)
        ensures
            (final(self)@, opt_view(q)) == on_response(old(self)@, step, *r),
    {
        match step {
            Step::SignIn => self.move_to(
                Step::SamlEntry,
                get_request(owned("https://api.factorialhr.com/saml_login/new?locale=en-us")),
            ),
            Step::SamlEntry => self.after_saml_entry(r),
            Step::EmailForm => self.follow(step, Step::IdpRedirect, r),
            Step::IdpRedirect => self.after_idp_redirect(r),
            Step::IdpLogin => self.after_idp_login(r),
            Step::Credentials => self.after_credentials(r),
            Step::KeepMeSignedIn => self.after_kmsi(r),
            Step::SamlAssertion => self.follow(step, Step::Finalize, r),
            Step::Finalize => {
                self.phase = Phase::Authenticated;
                None
            },
        }
    }

    /// Feeds the outcome of the last request to the negotiation: it moves on
    /// and returns the next request to send, or ends (authenticated or failed)
    /// and returns `None`. Once ended, it stays as it is.
    pub fn advance(&mut self, reply: Reply) -> (q: Option<Request>)
        ensures
            (final(self)@, opt_view(q)) == next(old(self)@, reply),
    {
        match self.phase {
            Phase::Awaiting(step) => match reply {
                Reply::TransportFailure => self.stop(AuthError::Transport { step }),
                Reply::Received(r) => {
                    match expected_status_of(step) {
                        Some(c) => {
                            if r.status != c {
                                return self.stop(
                                    AuthError::Protocol { step, reason: ProtocolReason::UnexpectedStatus },
                                );
                            }
                        },
                        None => {},
                    }
                    self.on_response(step, &r)
                },
            },
            _ => None,
        }
    }
}


// ---------------------------------------------------------------------------
// Laws of the negotiation
// ---------------------------------------------------------------------------

/// The step that follows `step`, if any.
pub open spec fn successor(step: Step) -> Option<Step> {
    match step {
        Step::SignIn => Some(Step::SamlEntry),
        Step::SamlEntry => Some(Step::EmailForm),
        Step::EmailForm => Some(Step::IdpRedirect),
        Step::IdpRedirect => Some(Step::IdpLogin),
        Step::IdpLogin => Some(Step::Credentials),
        Step::Credentials => Some(Step::KeepMeSignedIn),
        Step::KeepMeSignedIn => Some(Step::SamlAssertion),
        Step::SamlAssertion => Some(Step::Finalize),
        Step::Finalize => None,
    }
}

/// Steps are taken strictly in order: a transition that leaves the
/// negotiation awaiting a step came from the step just before it, and it asks
/// for a request exactly when it does so.
pub proof fn steps_follow_in_order(n: NegotiatorView, reply: Reply)
    ensures
        next(n, reply).0.phase matches Phase::Awaiting(s2) ==> (n.phase matches Phase::Awaiting(s1)
            && successor(s1) == Some(s2)),
        next(n, reply).1 is Some <==> next(n, reply).0.phase is Awaiting && n.phase is Awaiting,
{
}

/// A negotiation that has ended, authenticated or failed, ignores every
/// further reply and asks for no request.
pub proof fn ended_negotiation_is_final(n: NegotiatorView, replies: Seq<Reply>)
    requires
        !(n.phase is Awaiting),
    ensures
        run(n, replies) == (n, Seq::<RequestView>::empty()),
    decreases replies.len(),
{
    if replies.len() > 0 {
        ended_negotiation_is_final(n, replies.drop_first());
    }
}

/// A response whose status is not the one its step expects ends the attempt
/// at that step with `UnexpectedStatus`, and no later request is sent,
/// whatever replies follow.
pub proof fn unexpected_status_stops_the_flow(n: NegotiatorView, step: Step, r: Response, rest: Seq<Reply>)
    requires
        n.phase == Phase::Awaiting(step),
        expected_status(step) matches Some(c) && r.status != c,
    ensures
        run(n, seq![Reply::Received(r)] + rest) == (
            at(n, Phase::Failed(AuthError::Protocol { step, reason: ProtocolReason::UnexpectedStatus })),
            Seq::<RequestView>::empty(),
        ),
{
    let replies = seq![Reply::Received(r)] + rest;
    assert(replies[0] == Reply::Received(r));
    assert(replies.drop_first() =~= rest);
    let m = next(n, replies[0]).0;
    ended_negotiation_is_final(m, rest);
}

/// A rejected credential — the credential form not answered with 200, or the
/// "stay signed in" page without the assertion, its relay state or its target
/// — ends the attempt with a protocol error at that step; no later request is
/// sent, so the final page is never reached.
pub proof fn rejected_credential_never_finalizes(n: NegotiatorView, step: Step, r: Response, rest: Seq<Reply>)
    requires
        n.phase == Phase::Awaiting(step),
        step == Step::Credentials && r.status != 200 || step == Step::KeepMeSignedIn && (field_in(
            r.body@,
            Field::SamlResponse,
        ) is None || field_in(r.body@, Field::RelayState) is None || field_in(r.body@, Field::FormAction) is None),
    ensures
        run(n, seq![Reply::Received(r)] + rest).0.phase matches Phase::Failed(
            AuthError::Protocol { step: s, reason: _ },
        ) && s == step,
        run(n, seq![Reply::Received(r)] + rest).1 == Seq::<RequestView>::empty(),
{
    let replies = seq![Reply::Received(r)] + rest;
    assert(replies[0] == Reply::Received(r));
    assert(replies.drop_first() =~= rest);
    let m = next(n, replies[0]).0;
    ended_negotiation_is_final(m, rest);
}

/// The final page's response does not decide anything: whatever it holds,
/// the negotiation is authenticated and asks for nothing more, so fetching
/// it again with the same cookies changes no outcome.
pub proof fn finalize_ignores_its_response(n: NegotiatorView, r1: Response, r2: Response)
    requires
        n.phase == Phase::Awaiting(Step::Finalize),
    ensures
        next(n, Reply::Received(r1)) == next(n, Reply::Received(r2)),
        next(n, Reply::Received(r1)) == (at(n, Phase::Authenticated), None::<RequestView>),
{
}


/// The position of `step` in the flow, from 1 to 9.
pub open spec fn step_number(step: Step) -> int {
    match step {
        Step::SignIn => 1,
        Step::SamlEntry => 2,
        Step::EmailForm => 3,
        Step::IdpRedirect => 4,
        Step::IdpLogin => 5,
        Step::Credentials => 6,
        Step::KeepMeSignedIn => 7,
        Step::SamlAssertion => 8,
        Step::Finalize => 9,
    }
}

/// The step at which `e` ended an attempt.
pub open spec fn error_step(e: AuthError) -> Step {
    match e {
        AuthError::Transport { step } => step,
        AuthError::Protocol { step, .. } => step,
        AuthError::MalformedBlob { step } => step,
    }
}

/// Whether the identity provider, fed `replies` from `n` on, accepts the
/// credential: while the "stay signed in" answer is awaited, a reply comes
/// with status 200 and carries the assertion, its relay state and its target.
/// A provider that rejects the credential (an empty or a wrong one) answers
/// the credential form with another status, or the "stay signed in" form with
/// a page that lacks them.
pub open spec fn provider_accepts(n: NegotiatorView, replies: Seq<Reply>) -> bool
    decreases replies.len(),
{
    if replies.len() == 0 {
        false
    } else {
        ||| n.phase == Phase::Awaiting(Step::KeepMeSignedIn) && (replies[0] matches Reply::Received(r)
            && r.status == 200 && field_in(r.body@, Field::SamlResponse) is Some && field_in(
            r.body@,
            Field::RelayState,
        ) is Some && field_in(r.body@, Field::FormAction) is Some)
        ||| provider_accepts(next(n, replies[0]).0, replies.drop_first())
    }
}

/// Whether no reply in `replies` is a transport failure.
pub open spec fn no_transport_failure(replies: Seq<Reply>) -> bool {
    forall|i: int| 0 <= i < replies.len() ==> !(#[trigger] replies[i] is TransportFailure)
}

/// From a state at or before the "stay signed in" step, a provider that does
/// not accept the credential stops the attempt by that step: the negotiation
/// never authenticates and never awaits a later step, it asks for at most one
/// request per step up to the seventh, and any failure is raised at one of
/// those steps, and is a protocol or configuration error when no transport
/// failure came.
pub proof fn rejection_stops_by_step_seven(n: NegotiatorView, replies: Seq<Reply>)
    requires
        n.phase matches Phase::Awaiting(s) && step_number(s) <= 7,
        !provider_accepts(n, replies),
    ensures
        run(n, replies).0.phase != Phase::Authenticated,
        run(n, replies).0.phase matches Phase::Awaiting(t) ==> step_number(t) <= 7,
        run(n, replies).0.phase matches Phase::Failed(e) ==> step_number(error_step(e)) <= 7,
        no_transport_failure(replies) ==> !(run(n, replies).0.phase matches Phase::Failed(e) && e is Transport),
        n.phase matches Phase::Awaiting(s) && run(n, replies).1.len() <= 7 - step_number(s),
    decreases replies.len(),
{
    if replies.len() > 0 {
        let (m, q) = next(n, replies[0]);
        let rest = replies.drop_first();
        assert(no_transport_failure(replies) ==> no_transport_failure(rest)) by {
            if no_transport_failure(replies) {
                assert forall|i: int| 0 <= i < rest.len() implies !(#[trigger] rest[i] is TransportFailure) by {
                    assert(rest[i] == replies[i + 1]);
                }
                assert(!(replies[0] is TransportFailure));
            }
        }
        if m.phase is Awaiting {
            rejection_stops_by_step_seven(m, rest);
        } else {
            ended_negotiation_is_final(m, rest);
        }
    }
}

/// A sign-in attempt for any credential that the identity provider does not
/// accept — an empty or a wrong one — ends, if it ends, with an error raised
/// at or before the "stay signed in" step, a protocol or configuration error
/// unless a transport failure came; it never authenticates, and the requests
/// sent, counting the first one, are at most those of steps 1 to 7: the
/// assertion is never posted and the final page never fetched.
pub proof fn rejected_credential_never_authenticates(c: Credential, replies: Seq<Reply>)
    requires
        !provider_accepts(initial(c), replies),
    ensures
        run(initial(c), replies).0.phase != Phase::Authenticated,
        run(initial(c), replies).0.phase matches Phase::Awaiting(t) ==> step_number(t) <= 7,
        run(initial(c), replies).0.phase matches Phase::Failed(e) ==> step_number(error_step(e)) <= 7,
        no_transport_failure(replies) ==> !(run(initial(c), replies).0.phase matches Phase::Failed(e) && e is Transport),
        1 + run(initial(c), replies).1.len() <= 7,
{
    rejection_stops_by_step_seven(initial(c), replies);
}

} // verus!
