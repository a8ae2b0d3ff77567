//! The command surface: the three subcommands, the REST request arguments
//! with their path handling, and the subscription arguments with the
//! verified emit/format decision.
#![allow(unused_imports)]

use vstd::prelude::*;
use vstd::string::*;

use crate::error::Error;
use crate::json::{parse_json, parses_as_json};
use crate::locator::dslash;
use crate::text::{has_match, lemma_split_len, normalize_path, normalized, spec_split, split_str,
    str_contains, str_eq};
use crate::ws::EventKind;

verus! {

/// The parsed command line: exactly one command per invocation.
pub struct Cli {
    pub command: Commands,
}

/// The three things an invocation can do.
pub enum Commands {
    /// Send a REST request to the service.
    Request(RequestArgs),
    /// Subscribe to one WebSocket event category and listen.
    Subscribe(SubscribeArgs),
    /// Display the connection identity: host and authorization.
    Info,
}

/// The REST verbs the service accepts.
#[derive(Debug, Clone, Copy, PartialEq, Eq, Structural)]
pub enum RequestMethod {
    Get,
    Post,
    Put,
    Delete,
    Patch,
    Head,
}

impl RequestMethod {
    /// Only POST, PUT and PATCH carry a request body when dispatched;
    /// the other verbs ignore a supplied body (method semantics — the
    /// builder deliberately does not reject one).
    pub fn accepts_body(&self) -> (b: bool)
        ensures
            b == (*self == RequestMethod::Post || *self == RequestMethod::Put || *self
                == RequestMethod::Patch),
    {
        match self {
            RequestMethod::Post => true,
            RequestMethod::Put => true,
            RequestMethod::Patch => true,
            _ => false,
        }
    }
}

/// Arguments of the request command: a resource locator, a verb, and an
/// optional raw JSON body.
pub struct RequestArgs {
    pub path: String,
    pub request: RequestMethod,
    pub json: Option<String>,
}

impl RequestArgs {
    /// The locator divided at each `//`.
    pub fn path_parts(&self) -> (r: Vec<String>)
        ensures
            r@.len() == spec_split(self.path@, dslash()).len(),
            forall|i: int| 0 <= i < r@.len() ==> r@[i]@ == spec_split(self.path@, dslash())[i],
    {
        proof {
            reveal_strlit("//");
            assert("//"@ =~= dslash());
        }
        split_str(self.path.as_str(), "//")
    }

    /// The effective path: the last `//`-separated segment of the locator
    /// (the whole locator when `//` never occurs, so the separator may be
    /// omitted entirely for REST paths).
    pub fn parsed_path(&self) -> (r: Result<String, Error>)
        ensures
            r matches Ok(p) && p@ == spec_split(self.path@, dslash()).last(),
    {
        let parts = self.path_parts();
        proof {
            lemma_split_len(self.path@, dslash());
        }
        Ok(parts[parts.len() - 1].clone())
    }

    /// The effective path normalized to start with `/`, or `EmptyPath`
    /// when the effective path has no characters.
    pub fn rest_path(&self) -> (r: Result<String, Error>)
        ensures
            ({
                let last = spec_split(self.path@, dslash()).last();
                &&& last.len() == 0 ==> (r matches Err(e) && e matches Error::EmptyPath)
                &&& last.len() > 0 ==> (r matches Ok(p) && p@ == normalized(last))
            }),
    {
        match self.parsed_path() {
            Ok(p) => {
                if p.as_str().unicode_len() == 0 {
                    Err(Error::EmptyPath)
                } else {
                    Ok(normalize_path(p.as_str()))
                }
            },
            Err(e) => Err(e),
        }
    }

    /// The decoded request body: `None` when no JSON text was supplied,
    /// the parsed value when the text is valid JSON, and `InvalidJson`
    /// carrying the offending text otherwise.
    pub fn request_body(&self) -> (r: Result<Option<serde_json::Value>, Error>)
        ensures
            self.json is None ==> (r matches Ok(b) && b is None),
            self.json matches Some(s) ==> ((parses_as_json(s@) ==> (r matches Ok(b) && b is Some))
                && (!parses_as_json(s@) ==> (r matches Err(e) && (e matches Error::InvalidJson {
                text,
            } && text@ == s@)))),
    {
        match &self.json {
            Some(s) => match parse_json(s.as_str()) {
                Some(v) => Ok(Some(v)),
                None => Err(Error::InvalidJson { text: s.clone() }),
            },
            None => Ok(None),
        }
    }

    /// Build the validated request descriptor: the verb, the normalized
    /// effective path, and the decoded optional body. The body is decoded
    /// first, as dispatch does; a body on a verb that ignores one is
    /// deliberately not rejected.
    pub fn build(&self) -> (r: Result<RequestDescriptor, Error>)
        ensures
            ({
                let last = spec_split(self.path@, dslash()).last();
                &&& r is Ok <==> (last.len() > 0 && (self.json matches Some(s)
                    ==> parses_as_json(s@)))
                &&& r matches Ok(d) ==> d.method == self.request && d.path@ == normalized(last) && (
                self.json is None <==> d.body is None)
                &&& r matches Err(e) ==> ((e matches Error::InvalidJson { text }
                    && self.json matches Some(s) && text@ == s@ && !parses_as_json(s@)) || (
                e matches Error::EmptyPath && last.len() == 0 && (self.json matches Some(s)
                    ==> parses_as_json(s@))))
            }),
    {
        let body = match self.request_body() {
            Ok(b) => b,
            Err(e) => {
                return Err(e);
            },
        };
        let path = match self.rest_path() {
            Ok(p) => p,
            Err(e) => {
                return Err(e);
            },
        };
        Ok(RequestDescriptor { method: self.request, path, body })
    }
}

/// A validated REST request, built once per invocation and immutable:
/// the verb, a path guaranteed to start with `/`, and an optional body.
#[derive(Debug)]
pub struct RequestDescriptor {
    pub method: RequestMethod,
    pub path: String,
    pub body: Option<serde_json::Value>,
}

/// Arguments of the subscribe command: an event category, an optional
/// case-sensitive URI-substring filter, and a verbosity flag.
pub struct SubscribeArgs {
    pub event: String,
    pub filter: Option<String>,
    pub verbose: bool,
}

/// How an emitted event is rendered: one minimal line, or the full
/// structured dump.
#[derive(Debug, Clone, Copy, PartialEq, Eq, Structural)]
pub enum RenderMode {
    Minimal,
    Verbose,
}

/// An envelope is emitted when no filter is configured, or when its URI
/// contains the filter substring (case-sensitive, plain substring).
pub open spec fn spec_should_emit(args: SubscribeArgs, uri: Seq<char>) -> bool {
    match args.filter {
        Some(f) => has_match(uri, f@),
        None => true,
    }
}

impl SubscribeArgs {
    /// The event category, drawn from the closed set the service offers;
    /// any other name is `UnknownEventType`, raised before any connection
    /// attempt.
    pub fn event_kind(&self) -> (r: Result<EventKind, Error>)
        ensures
            r matches Ok(k) ==> ((self.event@ == "OnJsonApiEvent"@ && k
                == EventKind::OnJsonApiEvent) || (self.event@ == "OnLcdEvent"@ && k
                == EventKind::OnLcdEvent)),
            r matches Err(e) ==> self.event@ != "OnJsonApiEvent"@ && self.event@ != "OnLcdEvent"@
                && (e matches Error::UnknownEventType { name } && name@ == self.event@),
    {
        if str_eq(self.event.as_str(), "OnJsonApiEvent") {
            Ok(EventKind::OnJsonApiEvent)
        } else if str_eq(self.event.as_str(), "OnLcdEvent") {
            Ok(EventKind::OnLcdEvent)
        } else {
            Err(Error::UnknownEventType { name: self.event.clone() })
        }
    }

    /// Whether an envelope with this URI is emitted.
    pub fn should_emit(&self, uri: &str) -> (b: bool)
        ensures
            b == spec_should_emit(*self, uri@),
    {
        match &self.filter {
            Some(f) => str_contains(uri, f.as_str()),
            None => true,
        }
    }

    /// The emit/format decision for one envelope: `None` suppresses it,
    /// `Some` names the rendering. The two axes are independent: the
    /// filter decides emission, the verbosity flag alone decides the mode.
    pub fn decide(&self, uri: &str) -> (r: Option<RenderMode>)
        ensures
            r is Some <==> spec_should_emit(*self, uri@),
            r is Some ==> ((r->0 == RenderMode::Verbose) <==> self.verbose),
    {
        if self.should_emit(uri) {
            if self.verbose {
                Some(RenderMode::Verbose)
            } else {
                Some(RenderMode::Minimal)
            }
        } else {
            None
        }
    }
}

} // verus!
