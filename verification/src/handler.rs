//! Handlers: what turns a social id into a display name.
//!
//! A static handler shows the id itself. The others ask a social API. The
//! library says which request to send and reads the name out of the reply;
//! sending it is left to the caller.

use crate::config::{Config, EvmRecordVerifier, Variables};
use crate::felt::{decimal_digits, Felt};
use crate::http::{HttpReply, HttpRequest, HttpRequestView, Param, ParamView, TransportError};
use crate::json::{
    json_document, json_from_str, json_strings, path_of, string_at, string_under, JsonPath,
};
use vstd::prelude::*;
use vstd::string::*;

verus! {

/// The kinds of handler.
#[derive(Clone, Copy, Debug, PartialEq, Eq, Structural)]
pub enum HandlerType {
    /// The id in decimal is the name.
    Static,
    /// The name is the `username` of the Discord user with that id.
    GetDiscordName,
    /// The name is the `login` of the GitHub user with that id.
    GetGithubName,
    /// The name is the screen name of the Twitter user with that id.
    GetTwitterName,
}

/// Why a handler gave no name.
#[derive(Clone, Copy, Debug, PartialEq, Eq, Structural)]
pub enum HandlerError {
    /// The request was not answered.
    Transport,
    /// The reply's status is not one that the handler accepts.
    Status(u16),
    /// The reply's body is no JSON document.
    MalformedBody,
    /// The document has no string where the name is expected.
    MissingField,
    /// The handler asks nobody, so no reply holds its name.
    NoLookup,
}

/// What a handler does with a social id.
#[derive(Clone, Debug)]
pub enum HandlerStep {
    /// The name is known without asking anyone.
    Name(String),
    /// The name is in the reply to this request.
    Lookup(HttpRequest),
}

/// The request by which the Discord handler asks for a user.
pub open spec fn spec_discord_request(api_url: Seq<char>, token: Seq<char>, id: nat)
    -> HttpRequestView {
    HttpRequestView {
        url: api_url + "/users/"@ + decimal_digits(id),
        headers: seq![
            ParamView { name: "Content-Type"@, value: "application/json"@ },
            ParamView { name: "Authorization"@, value: "Bot "@ + token },
        ],
        query: Seq::empty(),
    }
}

/// The request by which the GitHub handler asks for a user.
pub open spec fn spec_github_request(api_url: Seq<char>, id: nat) -> HttpRequestView {
    HttpRequestView {
        url: api_url + "/user/"@ + decimal_digits(id),
        headers: seq![ParamView { name: "User-Agent"@, value: "request"@ }],
        query: Seq::empty(),
    }
}

/// The request by which the Twitter handler asks for a user.
pub open spec fn spec_twitter_request(api_url: Seq<char>, api_key: Seq<char>, id: nat)
    -> HttpRequestView {
    HttpRequestView {
        url: api_url + "/get-user-by-id"@,
        headers: seq![
            ParamView { name: "X-RapidAPI-Key"@, value: api_key },
            ParamView { name: "X-RapidAPI-Host"@, value: "twttrapi.p.rapidapi.com"@ },
        ],
        query: seq![ParamView { name: "user_id"@, value: decimal_digits(id) }],
    }
}

/// What a handler does with the social id `id`.
pub open spec fn spec_handler_step(handler: HandlerType, variables: Variables, id: nat)
    -> Result<Seq<char>, HttpRequestView> {
    match handler {
        HandlerType::Static => Ok(decimal_digits(id)),
        HandlerType::GetDiscordName => Err(
            spec_discord_request(variables.discord_api_url@, variables.discord_token@, id),
        ),
        HandlerType::GetGithubName => Err(spec_github_request(variables.github_api_url@, id)),
        HandlerType::GetTwitterName => Err(
            spec_twitter_request(variables.twitter_api_url@, variables.twitter_api_key@, id),
        ),
    }
}

/// Whether a handler reads the body of a reply with this status. The GitHub
/// and the Twitter handler insist on 200; the Discord handler takes any
/// status of success.
pub open spec fn status_accepted(handler: HandlerType, status: u16) -> bool {
    match handler {
        HandlerType::Static => false,
        HandlerType::GetDiscordName => 200 <= status < 300,
        HandlerType::GetGithubName => status == 200,
        HandlerType::GetTwitterName => status == 200,
    }
}

/// Where in the reply's document a handler expects the name.
pub open spec fn name_path(handler: HandlerType) -> JsonPath {
    match handler {
        HandlerType::Static => Seq::empty(),
        HandlerType::GetDiscordName => seq!["username"@],
        HandlerType::GetGithubName => seq!["login"@],
        HandlerType::GetTwitterName => seq![
            "data"@,
            "user_result"@,
            "result"@,
            "legacy"@,
            "screen_name"@,
        ],
    }
}

/// The name in a document, given the strings that the document holds.
pub open spec fn spec_document_name(handler: HandlerType, strings: Map<JsonPath, Seq<char>>)
    -> Result<Seq<char>, HandlerError> {
    if handler == HandlerType::Static {
        Err(HandlerError::NoLookup)
    } else {
        match string_under(strings, name_path(handler)) {
            Some(name) => Ok(name),
            None => Err(HandlerError::MissingField),
        }
    }
}

/// The name in a reply of the given status, given the strings that its body
/// holds if it is a JSON document.
pub open spec fn spec_reply_name(
    handler: HandlerType,
    status: u16,
    document: Option<Map<JsonPath, Seq<char>>>,
) -> Result<Seq<char>, HandlerError> {
    if handler == HandlerType::Static {
        Err(HandlerError::NoLookup)
    } else if !status_accepted(handler, status) {
        Err(HandlerError::Status(status))
    } else {
        match document {
            None => Err(HandlerError::MalformedBody),
            Some(strings) => spec_document_name(handler, strings),
        }
    }
}

/// Whether an outcome is the name `expected`, or the error `expected`.
pub open spec fn name_result_is(
    r: Result<String, HandlerError>,
    expected: Result<Seq<char>, HandlerError>,
) -> bool {
    match expected {
        Ok(name) => r matches Ok(s) && s@ == name,
        Err(e) => r == Err::<String, HandlerError>(e),
    }
}

/// `base` followed by `tail`.
fn joined(base: &str, tail: &str) -> (r: String)
    ensures
        r@ == base@ + tail@,
{
    let mut text = base.to_owned();
    text.append(tail);
    text
}

fn discord_request(variables: &Variables, id: &Felt) -> (r: HttpRequest)
    ensures
        r@ == spec_discord_request(variables.discord_api_url@, variables.discord_token@, id@),
{
    let mut url = joined(variables.discord_api_url.as_str(), "/users/");
    url.append(id.to_string().as_str());
    let mut headers: Vec<Param> = Vec::new();
    headers.push(Param::new("Content-Type", "application/json".to_owned()));
    headers.push(Param::new("Authorization", joined("Bot ", variables.discord_token.as_str())));
    let request = HttpRequest { url, headers, query: Vec::new() };
    proof {
        let spec = spec_discord_request(
            variables.discord_api_url@,
            variables.discord_token@,
            id@,
        );
        assert(request@.headers =~= spec.headers);
        assert(request@.query =~= spec.query);
    }
    request
}

fn github_request(variables: &Variables, id: &Felt) -> (r: HttpRequest)
    ensures
        r@ == spec_github_request(variables.github_api_url@, id@),
{
    let mut url = joined(variables.github_api_url.as_str(), "/user/");
    url.append(id.to_string().as_str());
    let mut headers: Vec<Param> = Vec::new();
    headers.push(Param::new("User-Agent", "request".to_owned()));
    let request = HttpRequest { url, headers, query: Vec::new() };
    proof {
        let spec = spec_github_request(variables.github_api_url@, id@);
        assert(request@.headers =~= spec.headers);
        assert(request@.query =~= spec.query);
    }
    request
}

fn twitter_request(variables: &Variables, id: &Felt) -> (r: HttpRequest)
    ensures
        r@ == spec_twitter_request(variables.twitter_api_url@, variables.twitter_api_key@, id@),
{
    let url = joined(variables.twitter_api_url.as_str(), "/get-user-by-id");
    let mut headers: Vec<Param> = Vec::new();
    headers.push(Param::new("X-RapidAPI-Key", variables.twitter_api_key.clone()));
    headers.push(Param::new("X-RapidAPI-Host", "twttrapi.p.rapidapi.com".to_owned()));
    let mut query: Vec<Param> = Vec::new();
    query.push(Param::new("user_id", id.to_string()));
    let request = HttpRequest { url, headers, query };
    proof {
        let spec = spec_twitter_request(
            variables.twitter_api_url@,
            variables.twitter_api_key@,
            id@,
        );
        assert(request@.headers =~= spec.headers);
        assert(request@.query =~= spec.query);
    }
    request
}

/// Whether a step is what `expected` says: the name under `Ok`, or the
/// request under `Err`.
pub open spec fn handler_step_is(r: HandlerStep, expected: Result<Seq<char>, HttpRequestView>)
    -> bool {
    match expected {
        Ok(name) => r matches HandlerStep::Name(s) && s@ == name,
        Err(request) => r matches HandlerStep::Lookup(q) && q@ == request,
    }
}

impl HandlerType {
    /// Whether the handler reads the body of a reply with this status.
    pub fn accepts_status(&self, status: u16) -> (r: bool)
        ensures
            r == status_accepted(*self, status),
    {
        match self {
            HandlerType::Static => false,
            HandlerType::GetDiscordName => 200 <= status && status < 300,
            HandlerType::GetGithubName => status == 200,
            HandlerType::GetTwitterName => status == 200,
        }
    }

    /// Reads the name out of the document of a reply.
    ///
    /// The name is the string that the document holds where the handler
    /// expects it. A document without a string there gives `MissingField`.
    /// A static handler reads no document and gives `NoLookup`.
    pub fn name_in_document(&self, document: &serde_json::Value) -> (r: Result<
        String,
        HandlerError,
    >)
        ensures
            name_result_is(r, spec_document_name(*self, json_strings(*document))),
    {
        let found = match self {
            HandlerType::Static => {
                return Err(HandlerError::NoLookup);
            },
            HandlerType::GetDiscordName => {
                let keys: [&str; 1] = ["username"];
                proof {
                    assert(path_of(keys@) =~= name_path(*self));
                }
                string_at(document, keys.as_slice())
            },
            HandlerType::GetGithubName => {
                let keys: [&str; 1] = ["login"];
                proof {
                    assert(path_of(keys@) =~= name_path(*self));
                }
                string_at(document, keys.as_slice())
            },
            HandlerType::GetTwitterName => {
                let keys: [&str; 5] = ["data", "user_result", "result", "legacy", "screen_name"];
                proof {
                    assert(path_of(keys@) =~= name_path(*self));
                }
                string_at(document, keys.as_slice())
            },
        };
        match found {
            Some(name) => Ok(name),
            None => Err(HandlerError::MissingField),
        }
    }

    /// Reads the name out of a reply.
    ///
    /// A reply whose status the handler does not accept gives `Status`, one
    /// whose body is no JSON document gives `MalformedBody`, and one whose
    /// document has no string where the name is expected gives
    /// `MissingField`. A static handler gives `NoLookup`.
    pub fn name_from_reply(&self, reply: &HttpReply) -> (r: Result<String, HandlerError>)
        ensures
            name_result_is(
                r,
                spec_reply_name(*self, reply.status, json_document(reply.body@)),
            ),
    {
        if let HandlerType::Static = self {
            return Err(HandlerError::NoLookup);
        }
        if !self.accepts_status(reply.status) {
            return Err(HandlerError::Status(reply.status));
        }
        match json_from_str(reply.body.as_str()) {
            Ok(document) => self.name_in_document(&document),
            Err(_) => Err(HandlerError::MalformedBody),
        }
    }

    /// What came of a lookup: the name in the reply, or why there is none.
    /// A request that was not answered gives `Transport`.
    pub fn name_from_outcome(&self, outcome: &Result<HttpReply, TransportError>) -> (r: Result<
        String,
        HandlerError,
    >)
        ensures
            name_result_is(r, spec_outcome_name(*self, *outcome)),
    {
        if let HandlerType::Static = self {
            return Err(HandlerError::NoLookup);
        }
        match outcome {
            Ok(reply) => self.name_from_reply(reply),
            Err(_) => Err(HandlerError::Transport),
        }
    }
}

/// The name that comes of a lookup's outcome.
pub open spec fn spec_outcome_name(handler: HandlerType, outcome: Result<HttpReply, TransportError>)
    -> Result<Seq<char>, HandlerError> {
    if handler == HandlerType::Static {
        Err(HandlerError::NoLookup)
    } else {
        match outcome {
            Ok(reply) => spec_reply_name(handler, reply.status, json_document(reply.body@)),
            Err(_) => Err(HandlerError::Transport),
        }
    }
}

impl EvmRecordVerifier {
    /// Runs the field's handler on a social id.
    ///
    /// A static handler gives the id in decimal and asks nobody. Any other
    /// handler gives the request to send; `HandlerType::name_from_outcome`
    /// reads the name out of what comes back.
    pub fn execute_handler(&self, config: &Config, id: Felt) -> (r: HandlerStep)
        ensures
            handler_step_is(r, spec_handler_step(self.handler, config.variables, id@)),
    {
        match self.handler {
            HandlerType::Static => HandlerStep::Name(id.to_string()),
            HandlerType::GetDiscordName => HandlerStep::Lookup(
                discord_request(&config.variables, &id),
            ),
            HandlerType::GetGithubName => HandlerStep::Lookup(
                github_request(&config.variables, &id),
            ),
            HandlerType::GetTwitterName => HandlerStep::Lookup(
                twitter_request(&config.variables, &id),
            ),
        }
    }
}

/// A static handler names every id by its decimal digits and asks for no
/// lookup, whatever is configured.
pub proof fn lemma_static_names_the_id(variables: Variables, id: nat)
    ensures
        spec_handler_step(HandlerType::Static, variables, id) == Ok::<
            Seq<char>,
            HttpRequestView,
        >(decimal_digits(id)),
{
}

/// A reply with a status that the handler accepts and a document that holds
/// a string where the handler expects the name gives exactly that string.
pub proof fn lemma_good_reply_names(
    handler: HandlerType,
    status: u16,
    strings: Map<JsonPath, Seq<char>>,
)
    requires
        handler != HandlerType::Static,
        status_accepted(handler, status),
        strings.contains_key(name_path(handler)),
    ensures
        spec_reply_name(handler, status, Some(strings)) == Ok::<Seq<char>, HandlerError>(
            strings[name_path(handler)],
        ),
{
}

/// A reply with a status that the handler does not accept, a body that is
/// no JSON document, or a document without a string where the name is
/// expected gives no name.
pub proof fn lemma_bad_reply_fails(
    handler: HandlerType,
    status: u16,
    document: Option<Map<JsonPath, Seq<char>>>,
)
    requires
        !status_accepted(handler, status) || document is None || !document.unwrap().contains_key(
            name_path(handler),
        ),
    ensures
        spec_reply_name(handler, status, document) is Err,
{
}

} // verus!
