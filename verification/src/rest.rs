//! The REST side: the connection identity shown by info mode, with its
//! credential decoding, and the rendering of a dispatched response.
#![allow(unused_imports)]

use vstd::prelude::*;
use vstd::string::*;
use vstd::utf8::{decode_utf8, encode_utf8, valid_utf8};

use crate::error::Error;
use crate::json::{json_text_value, spec_value_str};
use crate::paint::{bright_purple_text, bright_yellow_text, colored_json_text, paint_bright_purple,
    paint_bright_yellow};
use crate::text::{lemma_split_len, spec_split, split_str};

verus! {

/// The marker that precedes the base64 credential in the authorization
/// header.
pub open spec fn basic_marker() -> Seq<char> {
    "Basic "@
}

/// What standard base64 with padding decodes this input to, `None` when
/// the input is rejected; a function of the input bytes alone.
pub uninterp spec fn b64_decoded(s: Seq<u8>) -> Option<Seq<u8>>;

/// Relies on data_encoding::BASE64.decode: standard base64 with padding,
/// which accepts or rejects a given input the same way on every call.
#[verifier::external_body]
fn base64_decode(s: &[u8]) -> (r: Option<Vec<u8>>)
    ensures
        r is Some <==> b64_decoded(s@) is Some,
        r matches Some(v) ==> (b64_decoded(s@) matches Some(d) && v@ == d),
{
    data_encoding::BASE64.decode(s).ok()
}

/// Relies on String::from_utf8: succeeds exactly on valid UTF-8 input and
/// yields the characters that input encodes.
#[verifier::external_body]
fn string_from_utf8(b: Vec<u8>) -> (r: Option<String>)
    ensures
        r is Some <==> valid_utf8(b@),
        r matches Some(s) ==> s@ == decode_utf8(b@),
{
    String::from_utf8(b).ok()
}

/// What decoding the credential yields: the text after the last
/// `Basic ` marker, base64-decoded, read back as UTF-8 text.
pub open spec fn spec_decoded_auth(auth: Seq<char>) -> Option<Seq<char>> {
    let token = spec_split(auth, basic_marker()).last();
    match b64_decoded(encode_utf8(token)) {
        Some(bytes) => if valid_utf8(bytes) {
            Some(decode_utf8(bytes))
        } else {
            None
        },
        None => None,
    }
}

/// The three-line identity report: host, raw authorization header, and
/// the decoded credential, each label bright purple and the credential
/// bright yellow.
pub open spec fn spec_info_text(host: Seq<char>, auth: Seq<char>, decoded: Seq<char>) -> Seq<
    char,
> {
    bright_purple_text("host"@) + ": "@ + host + "\n"@ + bright_purple_text("authorization"@)
        + ": "@ + auth + "\n"@ + bright_purple_text("authorization (decoded)"@) + ": Basic "@
        + bright_yellow_text(decoded) + "\n"@
}

/// The connection identity shown by info mode: the service host and the
/// raw authorization header, as the connector reports them.
#[derive(Debug, Clone)]
pub struct ClientInfo {
    pub host: String,
    pub auth: String,
}

impl ClientInfo {
    /// Package the connector's host and authorization header.
    pub fn new(host: String, auth: String) -> (r: Self)
        ensures
            r.host == host,
            r.auth == auth,
    {
        ClientInfo { host, auth }
    }

    /// The credential decoded from the authorization header: the text
    /// after the `Basic ` marker, read as base64. Surfacing it is a
    /// deliberate local debugging aid, not a security boundary.
    pub fn decoded_auth(&self) -> (r: Result<String, Error>)
        ensures
            r matches Ok(s) ==> (spec_decoded_auth(self.auth@) matches Some(c) && s@ == c),
            r matches Err(e) ==> spec_decoded_auth(self.auth@) is None && e matches Error::Render {
                ..
            },
    {
        proof {
            reveal_strlit("Basic ");
        }
        let parts = split_str(self.auth.as_str(), "Basic ");
        proof {
            lemma_split_len(self.auth@, basic_marker());
        }
        let token = parts[parts.len() - 1].as_str();
        let bytes = match base64_decode(token.as_bytes()) {
            Some(b) => b,
            None => {
                return Err(
                    Error::Render { message: String::from_str("invalid base64 credential") },
                );
            },
        };
        match string_from_utf8(bytes) {
            Some(s) => Ok(s),
            None => Err(Error::Render { message: String::from_str("credential is not UTF-8") }),
        }
    }

    /// The identity rendered for the terminal, three labeled lines; an
    /// authorization header whose credential cannot be decoded is a
    /// rendering failure.
    pub fn render(&self) -> (r: Result<String, Error>)
        ensures
            r matches Ok(s) ==> (spec_decoded_auth(self.auth@) matches Some(c) && s@
                == spec_info_text(self.host@, self.auth@, c)),
            r matches Err(e) ==> spec_decoded_auth(self.auth@) is None && e matches Error::Render {
                ..
            },
    {
        let decoded = match self.decoded_auth() {
            Ok(d) => d,
            Err(e) => {
                return Err(e);
            },
        };
        let mut s = paint_bright_purple("host");
        s.append(": ");
        s.append(self.host.as_str());
        s.append("\n");
        let label_auth = paint_bright_purple("authorization");
        s.append(label_auth.as_str());
        s.append(": ");
        s.append(self.auth.as_str());
        s.append("\n");
        let label_dec = paint_bright_purple("authorization (decoded)");
        s.append(label_dec.as_str());
        s.append(": Basic ");
        let painted = paint_bright_yellow(decoded.as_str());
        s.append(painted.as_str());
        s.append("\n");
        proof {
            assert(s@ =~= spec_info_text(self.host@, self.auth@, decoded@));
        }
        Ok(s)
    }
}

/// The value a REST dispatch presents: the connector's decoded response
/// itself, unchanged, or — when no content came back — the JSON string
/// `"undefined"`, the sentinel that stays distinguishable from a genuine
/// JSON `null` returned by the service.
pub fn response_value(res: Option<&serde_json::Value>) -> (r: serde_json::Value)
    ensures
        res matches Some(v) ==> r == *v,
        res is None ==> spec_value_str(r) == Some("undefined"@),
{
    match res {
        Some(v) => v.clone(),
        None => json_text_value("undefined"),
    }
}

/// Render a REST response for the terminal: `response_value` — the value
/// verbatim, or the `"undefined"` sentinel — handed to the colorizing
/// formatter, whose text depends on the terminal.
pub fn render_rest_response(res: Option<&serde_json::Value>) -> (r: Result<String, Error>)
    ensures
        r matches Err(e) ==> e matches Error::Render { .. },
{
    let value = response_value(res);
    match colored_json_text(&value) {
        Ok(s) => Ok(s),
        Err(m) => Err(Error::Render { message: m }),
    }
}

} // verus!
