//! The dispatch client: its configuration, and the description of the HTTP
//! request that carries a payload to the target.

use crate::command::{captures_of, command_of, opt_strings_view, opt_view, pattern_compiles, BadCommandPattern, CommandPattern};
use vstd::prelude::*;

verus! {

/// The text of each string, in order.
pub open spec fn strings_view(v: Seq<String>) -> Seq<Seq<char>> {
    v.map_values(|s: String| s@)
}

/// Header names with their values, as text.
pub open spec fn headers_view(h: Seq<(String, Vec<String>)>) -> Seq<(Seq<char>, Seq<Seq<char>>)> {
    h.map_values(|p: (String, Vec<String>)| (p.0@, strings_view(p.1@)))
}

/// A payload that can be sent to the target: it names the path it goes to and
/// the headers it needs.
pub trait Sendable: Sized {
    /// The path, relative to the target's base address.
    spec fn spec_url(&self) -> Seq<char>;

    /// The headers that the payload declares.
    spec fn spec_headers(&self) -> Seq<(Seq<char>, Seq<Seq<char>>)>;

    fn url(&self) -> (r: String)
        ensures
            r@ == self.spec_url();

    fn headers(&self) -> (r: Vec<(String, Vec<String>)>)
        ensures
            headers_view(r@) == self.spec_headers();
}

/// The target's configuration: the base address that request paths are
/// appended to, and the optional command pattern.
pub struct Client {
    base: String,
    command_regex: Option<CommandPattern>,
}

/// A request to the target: a POST of `payload` as JSON to `url`, with `headers`.
pub struct Delivery<S> {
    pub url: String,
    pub headers: Vec<(String, Vec<String>)>,
    pub payload: S,
}

impl Client {
    /// The base address of the target.
    pub closed spec fn spec_base(&self) -> Seq<char> {
        self.base@
    }

    /// The text of the command pattern, when one is configured.
    pub closed spec fn spec_pattern(&self) -> Option<Seq<char>> {
        match self.command_regex {
            Some(p) => Some(p.spec_source()),
            None => None,
        }
    }

    /// The command recognized in `content`: none without a pattern, else what
    /// the pattern's matches make of it.
    pub open spec fn spec_command(&self, content: Seq<char>) -> Option<Seq<Seq<char>>> {
        match self.spec_pattern() {
            Some(p) => command_of(captures_of(p, content)),
            None => None,
        }
    }

    /// A client for the target at `base`, recognizing commands with the
    /// pattern `command_regex` when there is one; fails exactly when that
    /// pattern does not compile.
    pub fn new(base: String, command_regex: Option<String>) -> (r: Result<Client, BadCommandPattern>)
        ensures
            r is Ok <==> (command_regex matches Some(p) ==> pattern_compiles(p@)),
            r matches Ok(c) ==> c.spec_base() == base@ && c.spec_pattern() == opt_view(command_regex),
            r matches Err(e) ==> command_regex matches Some(p) && e.pattern@ == p@,
    {
        match command_regex {
            None => Ok(Client { base, command_regex: None }),
            Some(source) => match CommandPattern::new(source) {
                Ok(pattern) => Ok(Client { base, command_regex: Some(pattern) }),
                Err(e) => Err(e),
            },
        }
    }

    /// The base address of the target.
    pub fn base(&self) -> (r: &str)
        ensures
            r@ == self.spec_base(),
    {
        self.base.as_str()
    }

    /// The command in `content`: `None` without a pattern or without a match,
    /// else the tokens that the matches capture.
    pub fn parse_command(&self, content: &str) -> (r: Option<Vec<String>>)
        ensures
            opt_strings_view(r) == self.spec_command(content@),
    {
        match &self.command_regex {
            Some(pattern) => pattern.tokens(content),
            None => None,
        }
    }

    /// The request that sends `payload`: to the base address followed by the
    /// payload's path, with the headers the payload declares.
    pub fn post<S: Sendable>(&self, payload: S) -> (r: Delivery<S>)
        ensures
            r.url@ == self.spec_base() + payload.spec_url(),
            headers_view(r.headers@) == payload.spec_headers(),
            r.payload == payload,
    {
        let path = payload.url();
        let headers = payload.headers();
        let mut url = self.base.clone();
        url.append(path.as_str());
        Delivery { url, headers, payload }
    }
}

} // verus!
