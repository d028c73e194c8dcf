//! The fixed set of commands: the request each one sends and the value it reads back.

use vstd::prelude::*;
use vstd::string::*;
use crate::config::{
    network_mode_of_tag, network_mode_tag, run_level_of_tag, run_level_tag, ConfigNetworkMode,
    ConfigRunLevel,
};
use crate::json::{
    json_bool_member, json_bool_member_of, json_str_member, json_str_member_of, json_u128_member,
    json_u128_member_of, json_quoted, json_quoted_text, opt_view,
};
use crate::response::{
    call_failure_message, check_status, member_failure, member_failure_message, parse_response,
    outcome, APIResult, ClientError, ClientErrorModel, ResponseModel, API,
};
use crate::wire::{decimal, decimal_string, wire_text, Method, Request, RequestModel};

verus! {

/// A request without headers or body.
pub open spec fn bare_request(method: Method, path: Seq<char>) -> RequestModel {
    RequestModel { method, path, headers: Seq::empty(), body: Seq::empty() }
}

/// What a call to `path` yields when the peer sent `raw`: the checked
/// response, whose body `decode` reads; a body it cannot read becomes a
/// diagnostic that embeds why.
pub open spec fn typed_outcome<V>(path: Seq<char>, raw: Seq<char>, decode: spec_fn(Seq<char>) -> Result<V, Seq<char>>) -> Result<V, ClientErrorModel> {
    match check_status(parse_response(path, raw)) {
        Err(e) => Err(e),
        Ok(a) => match decode(a.body) {
            Ok(v) => Ok(v),
            Err(f) => Err(ClientErrorModel::DeserializationError { path: a.path, message: call_failure_message(a.path, a.body, f) }),
        },
    }
}

pub open spec fn typed<T: View>(r: Result<T, ClientError>) -> Result<T::V, ClientErrorModel> {
    match r {
        Ok(v) => Ok(v@),
        Err(e) => Err(e@),
    }
}

pub open spec fn decoded<T: View>(r: Result<T, String>) -> Result<T::V, Seq<char>> {
    match r {
        Ok(v) => Ok(v@),
        Err(f) => Err(f@),
    }
}

fn str_member(text: &str, key: &str) -> (r: Result<String, String>)
    ensures
        match r {
            Ok(v) => json_str_member_of(text@, key@) == Some(v@),
            Err(f) => json_str_member_of(text@, key@) is None && f@ == member_failure(text@, key@),
        },
{
    match json_str_member(text, key) {
        Some(v) => Ok(v),
        None => Err(member_failure_message(text, key)),
    }
}

fn bool_member(text: &str, key: &str) -> (r: Result<bool, String>)
    ensures
        match r {
            Ok(v) => json_bool_member_of(text@, key@) == Some(v),
            Err(f) => json_bool_member_of(text@, key@) is None && f@ == member_failure(text@, key@),
        },
{
    match json_bool_member(text, key) {
        Some(v) => Ok(v),
        None => Err(member_failure_message(text, key)),
    }
}

fn u128_member(text: &str, key: &str) -> (r: Result<u128, String>)
    ensures
        match r {
            Ok(v) => json_u128_member_of(text@, key@) == Some(v),
            Err(f) => json_u128_member_of(text@, key@) is None && f@ == member_failure(text@, key@),
        },
{
    match json_u128_member(text, key) {
        Some(v) => Ok(v),
        None => Err(member_failure_message(text, key)),
    }
}

/// Resolves a checked response and what its body decoded to.
fn resolve<T>(result: &APIResult, decoded: Result<T, String>) -> (r: Result<T, ClientError>)
    ensures
        match decoded {
            Ok(v) => r == Ok::<T, ClientError>(v),
            Err(f) => r is Err && r->Err_0@ == (ClientErrorModel::DeserializationError {
                path: result@.path,
                message: call_failure_message(result@.path, result@.body, f@),
            }),
        },
{
    match decoded {
        Ok(v) => Ok(v),
        Err(f) => Err(result.body_error(f)),
    }
}

// ---------------------------------------------------------------- ping

pub open spec fn ping_path() -> Seq<char> {
    "/ping"@
}

pub open spec fn decode_ping(text: Seq<char>) -> Result<u128, Seq<char>> {
    match json_u128_member_of(text, "received"@) {
        Some(n) => Ok(n),
        None => Err(member_failure(text, "received"@)),
    }
}

/// The peer's clock when it received the ping, in nanoseconds since the epoch.
#[derive(Debug)]
pub struct PingResponse {
    pub received: u128,
}

impl View for PingResponse {
    type V = u128;

    open spec fn view(&self) -> u128 {
        self.received
    }
}

impl PingResponse {
    pub fn from_body(text: &str) -> (r: Result<PingResponse, String>)
        ensures
            decoded(r) == decode_ping(text@),
    {
        let received = u128_member(text, "received")?;
        Ok(PingResponse { received })
    }
}

pub struct PingRequest {
    request: Request,
}

impl View for PingRequest {
    type V = RequestModel;

    closed spec fn view(&self) -> RequestModel {
        self.request@
    }
}

impl PingRequest {
    pub fn new() -> (r: PingRequest)
        ensures
            r@ == bare_request(Method::GET, ping_path()),
    {
        PingRequest { request: Request::new(String::from_str("/ping")) }
    }

    /// The text to send to the peer.
    pub fn as_string(&self) -> (r: String)
        ensures
            r@ == wire_text(self@),
    {
        self.request.as_string()
    }

    /// The ping's result, from `raw_response`, what the peer sent back.
    pub fn request(&self, api: &mut API, raw_response: &str) -> (r: Result<PingResponse, ClientError>)
        ensures
            *final(api) == *old(api),
            typed(r) == typed_outcome(self@.path, raw_response@, |t: Seq<char>| decode_ping(t)),
    {
        let result = api.request_with_err(&self.request, raw_response)?;
        resolve(&result, PingResponse::from_body(result.body_text()))
    }
}

// ---------------------------------------------------------------- error

pub open spec fn error_path() -> Seq<char> {
    "/error"@
}

/// A self-test of the protocol: the peer answers it with an error status.
pub struct ErrorRequest {
    request: Request,
}

impl View for ErrorRequest {
    type V = RequestModel;

    closed spec fn view(&self) -> RequestModel {
        self.request@
    }
}

impl ErrorRequest {
    pub fn new() -> (r: ErrorRequest)
        ensures
            r@ == bare_request(Method::GET, error_path()),
    {
        ErrorRequest { request: Request::new(String::from_str("/error")) }
    }

    pub fn as_string(&self) -> (r: String)
        ensures
            r@ == wire_text(self@),
    {
        self.request.as_string()
    }

    /// The error the peer reported, from `raw_response`, what it sent back.
    pub fn request(&self, api: &mut API, raw_response: &str) -> (r: Result<(), ClientError>)
        ensures
            *final(api) == *old(api),
            match r {
                Ok(_) => check_status(parse_response(self@.path, raw_response@)) is Ok,
                Err(e) => check_status(parse_response(self@.path, raw_response@)) == Err::<ResponseModel, ClientErrorModel>(e@),
            },
    {
        api.request_with_err(&self.request, raw_response)?;
        Ok(())
    }
}

// ---------------------------------------------------------------- info

pub open spec fn info_path() -> Seq<char> {
    "/info"@
}

pub open spec fn decode_info(text: Seq<char>) -> Result<Seq<char>, Seq<char>> {
    match json_str_member_of(text, "container_id"@) {
        Some(id) => Ok(id),
        None => Err(member_failure(text, "container_id"@)),
    }
}

#[derive(Debug)]
pub struct InfoResponse {
    pub container_id: String,
}

impl View for InfoResponse {
    type V = Seq<char>;

    open spec fn view(&self) -> Seq<char> {
        self.container_id@
    }
}

impl InfoResponse {
    pub fn from_body(text: &str) -> (r: Result<InfoResponse, String>)
        ensures
            decoded(r) == decode_info(text@),
    {
        let container_id = str_member(text, "container_id")?;
        Ok(InfoResponse { container_id })
    }
}

pub struct InfoRequest {
    request: Request,
}

impl View for InfoRequest {
    type V = RequestModel;

    closed spec fn view(&self) -> RequestModel {
        self.request@
    }
}

impl InfoRequest {
    pub fn new() -> (r: InfoRequest)
        ensures
            r@ == bare_request(Method::GET, info_path()),
    {
        InfoRequest { request: Request::new(String::from_str("/info")) }
    }

    pub fn as_string(&self) -> (r: String)
        ensures
            r@ == wire_text(self@),
    {
        self.request.as_string()
    }

    /// The container's description, from `raw_response`, what the peer sent back.
    pub fn request(&self, api: &mut API, raw_response: &str) -> (r: Result<InfoResponse, ClientError>)
        ensures
            *final(api) == *old(api),
            typed(r) == typed_outcome(self@.path, raw_response@, |t: Seq<char>| decode_info(t)),
    {
        let result = api.request_with_err(&self.request, raw_response)?;
        resolve(&result, InfoResponse::from_body(result.body_text()))
    }
}

// ---------------------------------------------------------------- config get

pub open spec fn config_path() -> Seq<char> {
    "/config"@
}

pub struct ConfigModel {
    pub network_mode: ConfigNetworkMode,
    pub configurable: bool,
    pub run_level: ConfigRunLevel,
    pub startup_information: bool,
    pub exit_after: Seq<char>,
    pub keep_on_exit: bool,
}

pub open spec fn network_mode_member(text: Seq<char>) -> Option<ConfigNetworkMode> {
    match json_u128_member_of(text, "network_mode"@) {
        Some(t) => network_mode_of_tag(t as int),
        None => None,
    }
}

pub open spec fn run_level_member(text: Seq<char>) -> Option<ConfigRunLevel> {
    match json_u128_member_of(text, "run_level"@) {
        Some(t) => run_level_of_tag(t as int),
        None => None,
    }
}

/// The settings in `text`, or why the first member that cannot be read fails.
pub open spec fn decode_config(text: Seq<char>) -> Result<ConfigModel, Seq<char>> {
    match (
        network_mode_member(text),
        json_bool_member_of(text, "configurable"@),
        run_level_member(text),
        json_bool_member_of(text, "startup_information"@),
        json_str_member_of(text, "exit_after"@),
        json_bool_member_of(text, "keep_on_exit"@),
    ) {
        (Some(n), Some(c), Some(l), Some(s), Some(e), Some(k)) => Ok(ConfigModel {
            network_mode: n,
            configurable: c,
            run_level: l,
            startup_information: s,
            exit_after: e,
            keep_on_exit: k,
        }),
        (None, _, _, _, _, _) => Err(member_failure(text, "network_mode"@)),
        (_, None, _, _, _, _) => Err(member_failure(text, "configurable"@)),
        (_, _, None, _, _, _) => Err(member_failure(text, "run_level"@)),
        (_, _, _, None, _, _) => Err(member_failure(text, "startup_information"@)),
        (_, _, _, _, None, _) => Err(member_failure(text, "exit_after"@)),
        (_, _, _, _, _, None) => Err(member_failure(text, "keep_on_exit"@)),
    }
}

/// The container's current behaviour.
#[derive(Debug)]
pub struct ConfigGetResponse {
    pub network_mode: ConfigNetworkMode,
    pub configurable: bool,
    pub run_level: ConfigRunLevel,
    pub startup_information: bool,
    pub exit_after: String,
    pub keep_on_exit: bool,
}

impl View for ConfigGetResponse {
    type V = ConfigModel;

    open spec fn view(&self) -> ConfigModel {
        ConfigModel {
            network_mode: self.network_mode,
            configurable: self.configurable,
            run_level: self.run_level,
            startup_information: self.startup_information,
            exit_after: self.exit_after@,
            keep_on_exit: self.keep_on_exit,
        }
    }
}

/// A member's value as a tag, where it is in the range of one.
fn tag_of(n: u128) -> (r: Option<u64>)
    ensures
        match r {
            Some(t) => t as int == n as int,
            None => n as int > u64::MAX as int,
        },
{
    if n <= u64::MAX as u128 { Some(n as u64) } else { None }
}

fn invalid_member(text: &str, key: &str) -> (r: String)
    ensures
        r@ == member_failure(text@, key@),
{
    member_failure_message(text, key)
}

impl ConfigGetResponse {
    pub fn from_body(text: &str) -> (r: Result<ConfigGetResponse, String>)
        ensures
            decoded(r) == decode_config(text@),
    {
        let network_mode = match tag_of(u128_member(text, "network_mode")?) {
            Some(t) => ConfigNetworkMode::from_tag(t),
            None => None,
        };
        let network_mode = match network_mode {
            Some(m) => m,
            None => {
                return Err(invalid_member(text, "network_mode"));
            },
        };
        let configurable = bool_member(text, "configurable")?;
        let run_level = match tag_of(u128_member(text, "run_level")?) {
            Some(t) => ConfigRunLevel::from_tag(t),
            None => None,
        };
        let run_level = match run_level {
            Some(l) => l,
            None => {
                return Err(invalid_member(text, "run_level"));
            },
        };
        let startup_information = bool_member(text, "startup_information")?;
        let exit_after = str_member(text, "exit_after")?;
        let keep_on_exit = bool_member(text, "keep_on_exit")?;
        Ok(ConfigGetResponse { network_mode, configurable, run_level, startup_information, exit_after, keep_on_exit })
    }
}

pub struct ConfigGetRequest {
    request: Request,
}

impl View for ConfigGetRequest {
    type V = RequestModel;

    closed spec fn view(&self) -> RequestModel {
        self.request@
    }
}

impl ConfigGetRequest {
    pub fn new() -> (r: ConfigGetRequest)
        ensures
            r@ == bare_request(Method::GET, config_path()),
    {
        ConfigGetRequest { request: Request::new(String::from_str("/config")) }
    }

    pub fn as_string(&self) -> (r: String)
        ensures
            r@ == wire_text(self@),
    {
        self.request.as_string()
    }

    /// The container's behaviour, from `raw_response`, what the peer sent back.
    pub fn request(&self, api: &mut API, raw_response: &str) -> (r: Result<ConfigGetResponse, ClientError>)
        ensures
            *final(api) == *old(api),
            typed(r) == typed_outcome(self@.path, raw_response@, |t: Seq<char>| decode_config(t)),
    {
        let result = api.request_with_err(&self.request, raw_response)?;
        resolve(&result, ConfigGetResponse::from_body(result.body_text()))
    }
}

// ---------------------------------------------------------------- auth get

pub open spec fn auth_path() -> Seq<char> {
    "/auth"@
}

pub struct AuthModel {
    pub user: Seq<char>,
    pub has_password: bool,
}

pub open spec fn decode_auth(text: Seq<char>) -> Result<AuthModel, Seq<char>> {
    match (json_str_member_of(text, "user"@), json_bool_member_of(text, "has_password"@)) {
        (Some(user), Some(has_password)) => Ok(AuthModel { user, has_password }),
        (None, _) => Err(member_failure(text, "user"@)),
        (_, None) => Err(member_failure(text, "has_password"@)),
    }
}

/// The user name for ssh logins, and whether a password is set.
#[derive(Debug)]
pub struct AuthGetResponse {
    pub user: String,
    pub has_password: bool,
}

impl View for AuthGetResponse {
    type V = AuthModel;

    open spec fn view(&self) -> AuthModel {
        AuthModel { user: self.user@, has_password: self.has_password }
    }
}

impl AuthGetResponse {
    pub fn from_body(text: &str) -> (r: Result<AuthGetResponse, String>)
        ensures
            decoded(r) == decode_auth(text@),
    {
        let user = str_member(text, "user")?;
        let has_password = bool_member(text, "has_password")?;
        Ok(AuthGetResponse { user, has_password })
    }
}

pub struct AuthGetRequest {
    request: Request,
}

impl View for AuthGetRequest {
    type V = RequestModel;

    closed spec fn view(&self) -> RequestModel {
        self.request@
    }
}

impl AuthGetRequest {
    pub fn new() -> (r: AuthGetRequest)
        ensures
            r@ == bare_request(Method::GET, auth_path()),
    {
        AuthGetRequest { request: Request::new(String::from_str("/auth")) }
    }

    pub fn as_string(&self) -> (r: String)
        ensures
            r@ == wire_text(self@),
    {
        self.request.as_string()
    }

    /// The authentication settings, from `raw_response`, what the peer sent back.
    pub fn request(&self, api: &mut API, raw_response: &str) -> (r: Result<AuthGetResponse, ClientError>)
        ensures
            *final(api) == *old(api),
            typed(r) == typed_outcome(self@.path, raw_response@, |t: Seq<char>| decode_auth(t)),
    {
        let result = api.request_with_err(&self.request, raw_response)?;
        resolve(&result, AuthGetResponse::from_body(result.body_text()))
    }
}

// ---------------------------------------------------------------- update bodies

/// `"key":value`
pub open spec fn member(key: Seq<char>, value: Seq<char>) -> Seq<char> {
    "\""@ + key + "\":"@ + value
}

/// One member where a value is given, none where it is not.
pub open spec fn optional_member(key: Seq<char>, value: Option<Seq<char>>) -> Seq<Seq<char>> {
    match value {
        Some(v) => seq![member(key, v)],
        None => Seq::empty(),
    }
}

/// The members, separated by commas.
pub open spec fn join_members(ms: Seq<Seq<char>>) -> Seq<char>
    decreases ms.len(),
{
    if ms.len() == 0 {
        Seq::empty()
    } else if ms.len() == 1 {
        ms[0]
    } else {
        join_members(ms.drop_last()) + ","@ + ms.last()
    }
}

pub open spec fn json_object(ms: Seq<Seq<char>>) -> Seq<char> {
    "{"@ + join_members(ms) + "}"@
}

pub open spec fn bool_text(b: bool) -> Seq<char> {
    if b { "true"@ } else { "false"@ }
}

pub open spec fn opt_bool_text(o: Option<bool>) -> Option<Seq<char>> {
    match o {
        Some(b) => Some(bool_text(b)),
        None => None,
    }
}

pub open spec fn opt_quoted(o: Option<String>) -> Option<Seq<char>> {
    match o {
        Some(s) => Some(json_quoted_text(s@)),
        None => None,
    }
}

pub open spec fn views(ms: Seq<String>) -> Seq<Seq<char>> {
    ms.map_values(|s: String| s@)
}

fn member_text(key: &str, value: &str) -> (r: String)
    ensures
        r@ == member(key@, value@),
{
    let mut m = String::from_str("\"");
    m.append(key);
    m.append("\":");
    m.append(value);
    assert(m@ =~= member(key@, value@));
    m
}

fn bool_str(b: bool) -> (r: &'static str)
    ensures
        r@ == bool_text(b),
{
    if b { "true" } else { "false" }
}

fn push_member(ms: &mut Vec<String>, key: &str, value: Option<String>)
    ensures
        views(final(ms)@) == views(old(ms)@) + optional_member(key@, opt_view(value)),
{
    match value {
        Some(v) => {
            ms.push(member_text(key, v.as_str()));
            assert(views(ms@) =~= views(old(ms)@) + optional_member(key@, opt_view(value)));
        },
        None => {
            assert(views(ms@) =~= views(old(ms)@) + optional_member(key@, opt_view(value)));
        },
    }
}

fn opt_bool_string(o: Option<bool>) -> (r: Option<String>)
    ensures
        opt_view(r) == opt_bool_text(o),
{
    match o {
        Some(b) => Some(String::from_str(bool_str(b))),
        None => None,
    }
}

fn opt_quoted_string(o: &Option<String>) -> (r: Option<String>)
    ensures
        opt_view(r) == opt_quoted(*o),
{
    match o {
        Some(s) => Some(json_quoted(s.as_str())),
        None => None,
    }
}

/// The JSON object with members `ms`, in order.
fn object_text(ms: &Vec<String>) -> (r: String)
    ensures
        r@ == json_object(views(ms@)),
{
    let ghost v = views(ms@);
    let mut out = String::from_str("{");
    let n = ms.len();
    let mut i: usize = 0;
    while i < n
        invariant
            n == ms.len(),
            v == views(ms@),
            i <= n,
            out@ == "{"@ + join_members(v.take(i as int)),
        decreases n - i,
    {
        assert(v.take(i as int + 1).drop_last() =~= v.take(i as int));
        if i > 0 {
            out.append(",");
        }
        out.append(ms[i].as_str());
        assert(out@ =~= "{"@ + join_members(v.take(i as int + 1)));
        i += 1;
    }
    assert(v.take(n as int) =~= v);
    out.append("}");
    out
}

pub open spec fn opt_network_mode_text(o: Option<ConfigNetworkMode>) -> Option<Seq<char>> {
    match o {
        Some(m) => Some(decimal(network_mode_tag(m))),
        None => None,
    }
}

pub open spec fn opt_run_level_text(o: Option<ConfigRunLevel>) -> Option<Seq<char>> {
    match o {
        Some(l) => Some(decimal(run_level_tag(l))),
        None => None,
    }
}

/// A partial update of the settings: only what is given is sent.
#[derive(Debug)]
pub struct ConfigPostBody {
    pub network_mode: Option<ConfigNetworkMode>,
    pub configurable: Option<bool>,
    pub run_level: Option<ConfigRunLevel>,
    pub startup_information: Option<bool>,
    pub exit_after: Option<String>,
    pub keep_on_exit: Option<bool>,
}

/// The members of the update, one for each setting that is given, tags for
/// the enumerations.
pub open spec fn config_members(b: ConfigPostBody) -> Seq<Seq<char>> {
    optional_member("network_mode"@, opt_network_mode_text(b.network_mode))
        + optional_member("configurable"@, opt_bool_text(b.configurable))
        + optional_member("run_level"@, opt_run_level_text(b.run_level))
        + optional_member("startup_information"@, opt_bool_text(b.startup_information))
        + optional_member("exit_after"@, opt_quoted(b.exit_after))
        + optional_member("keep_on_exit"@, opt_bool_text(b.keep_on_exit))
}

pub open spec fn config_body_text(b: ConfigPostBody) -> Seq<char> {
    json_object(config_members(b))
}

impl ConfigPostBody {
    /// The update as a JSON object.
    pub fn to_json(&self) -> (r: String)
        ensures
            r@ == config_body_text(*self),
    {
        let mut ms: Vec<String> = Vec::new();
        assert(views(ms@) =~= Seq::empty());
        let network_mode = match self.network_mode {
            Some(m) => Some(decimal_string(m.tag() as usize)),
            None => None,
        };
        push_member(&mut ms, "network_mode", network_mode);
        push_member(&mut ms, "configurable", opt_bool_string(self.configurable));
        let run_level = match self.run_level {
            Some(l) => Some(decimal_string(l.tag() as usize)),
            None => None,
        };
        push_member(&mut ms, "run_level", run_level);
        push_member(&mut ms, "startup_information", opt_bool_string(self.startup_information));
        push_member(&mut ms, "exit_after", opt_quoted_string(&self.exit_after));
        push_member(&mut ms, "keep_on_exit", opt_bool_string(self.keep_on_exit));
        assert(views(ms@) =~= config_members(*self));
        object_text(&ms)
    }
}

/// Changes the container's behaviour.
pub struct ConfigPostRequest {
    pub request: Request,
    pub body: ConfigPostBody,
}

impl View for ConfigPostRequest {
    type V = RequestModel;

    open spec fn view(&self) -> RequestModel {
        self.request@
    }
}

impl ConfigPostRequest {
    /// A `POST` to the settings that changes nothing yet.
    pub fn new() -> (r: ConfigPostRequest)
        ensures
            r@ == bare_request(Method::POST, config_path()),
            r.body.network_mode is None,
            r.body.configurable is None,
            r.body.run_level is None,
            r.body.startup_information is None,
            r.body.exit_after is None,
            r.body.keep_on_exit is None,
    {
        let mut request = Request::new(String::from_str("/config"));
        request.set_method(Method::POST);
        ConfigPostRequest {
            request,
            body: ConfigPostBody {
                network_mode: None,
                configurable: None,
                run_level: None,
                startup_information: None,
                exit_after: None,
                keep_on_exit: None,
            },
        }
    }

    /// Puts the update into the request and returns the text to send.
    pub fn as_string(&mut self) -> (r: String)
        requires
            old(self)@.wf(),
        ensures
            final(self).body == old(self).body,
            final(self)@ == old(self)@.with_body(config_body_text(old(self).body)),
            final(self)@.wf(),
            r@ == wire_text(final(self)@),
    {
        let text = self.body.to_json();
        self.request.set_body(text);
        self.request.as_string()
    }

    /// The peer's answer to the update, from `raw_response`, what it sent back.
    pub fn request(&self, api: &mut API, raw_response: &str) -> (r: Result<(), ClientError>)
        ensures
            *final(api) == *old(api),
            match r {
                Ok(_) => check_status(parse_response(self@.path, raw_response@)) is Ok,
                Err(e) => check_status(parse_response(self@.path, raw_response@)) == Err::<ResponseModel, ClientErrorModel>(e@),
            },
    {
        api.request_with_err(&self.request, raw_response)?;
        Ok(())
    }

    /// Whether to show how to reconnect: only where this update asks to
    /// keep the container after exit.
    pub fn reconnect_hint_wanted(&self) -> (r: bool)
        ensures
            r == (self.body.keep_on_exit == Some(true)),
    {
        match self.body.keep_on_exit {
            Some(k) => k,
            None => false,
        }
    }
}

/// An update that gives only `keep_on_exit` sends that one member, and
/// leaves every other setting out of the body.
pub proof fn only_keep_on_exit_is_sent(b: ConfigPostBody)
    requires
        b.network_mode is None,
        b.configurable is None,
        b.run_level is None,
        b.startup_information is None,
        b.exit_after is None,
        b.keep_on_exit is Some,
    ensures
        config_body_text(b) == "{"@ + "\""@ + "keep_on_exit"@ + "\":"@ + bool_text(b.keep_on_exit->0) + "}"@,
{
    let m = member("keep_on_exit"@, bool_text(b.keep_on_exit->0));
    assert(config_members(b) =~= seq![m]);
    assert(join_members(seq![m]) == m);
    assert(config_body_text(b) =~= "{"@ + "\""@ + "keep_on_exit"@ + "\":"@ + bool_text(b.keep_on_exit->0) + "}"@);
}

/// A change of the ssh login: a user name, a password, or both.
#[derive(Debug)]
pub struct AuthPostBody {
    pub user: Option<String>,
    pub password: Option<String>,
}

pub open spec fn auth_body_text(b: AuthPostBody) -> Seq<char> {
    json_object(optional_member("user"@, opt_quoted(b.user)) + optional_member("password"@, opt_quoted(b.password)))
}

impl AuthPostBody {
    /// The change as a JSON object.
    pub fn to_json(&self) -> (r: String)
        ensures
            r@ == auth_body_text(*self),
    {
        let mut ms: Vec<String> = Vec::new();
        assert(views(ms@) =~= Seq::empty());
        push_member(&mut ms, "user", opt_quoted_string(&self.user));
        push_member(&mut ms, "password", opt_quoted_string(&self.password));
        object_text(&ms)
    }
}

/// Changes the container's authentication.
pub struct AuthPostRequest {
    pub request: Request,
    pub body: AuthPostBody,
}

impl View for AuthPostRequest {
    type V = RequestModel;

    open spec fn view(&self) -> RequestModel {
        self.request@
    }
}

impl AuthPostRequest {
    /// A `POST` to the authentication that changes nothing yet.
    pub fn new() -> (r: AuthPostRequest)
        ensures
            r@ == bare_request(Method::POST, auth_path()),
            r.body.user is None,
            r.body.password is None,
    {
        let mut request = Request::new(String::from_str("/auth"));
        request.set_method(Method::POST);
        AuthPostRequest { request, body: AuthPostBody { user: None, password: None } }
    }

    /// Puts the change into the request and returns the text to send.
    pub fn as_string(&mut self) -> (r: String)
        requires
            old(self)@.wf(),
        ensures
            final(self).body == old(self).body,
            final(self)@ == old(self)@.with_body(auth_body_text(old(self).body)),
            final(self)@.wf(),
            r@ == wire_text(final(self)@),
    {
        let text = self.body.to_json();
        self.request.set_body(text);
        self.request.as_string()
    }

    /// The peer's answer to the change, from `raw_response`, what it sent back.
    pub fn request(&self, api: &mut API, raw_response: &str) -> (r: Result<(), ClientError>)
        ensures
            *final(api) == *old(api),
            match r {
                Ok(_) => check_status(parse_response(self@.path, raw_response@)) is Ok,
                Err(e) => check_status(parse_response(self@.path, raw_response@)) == Err::<ResponseModel, ClientErrorModel>(e@),
            },
    {
        api.request_with_err(&self.request, raw_response)?;
        Ok(())
    }

    /// Whether this change removes the authentication: the peer reads an
    /// empty password so.
    pub fn removes_authentication(&self) -> (r: bool)
        ensures
            r == (self.body.password is Some && self.body.password->0@.len() == 0),
    {
        match &self.body.password {
            Some(p) => p.as_str().unicode_len() == 0,
            None => false,
        }
    }
}

} // verus!
