//! The target classifier: decides whether a user-supplied resource locator
//! names a REST call or a WebSocket event subscription, and extracts the
//! effective path or event name.
#![allow(unused_imports)]

use vstd::prelude::*;
use vstd::string::*;

use crate::error::Error;
use crate::text::{has_match, lemma_split_concat, lemma_split_last, lemma_split_len,
    lemma_split_no_match, match_at, spec_split, split_str, str_eq};

verus! {

/// What a resource locator names: a REST path or an event subscription.
#[derive(Debug, Clone)]
pub enum Protocol {
    RestCall { path: String },
    EventSubscription { event_name: String },
}

/// The `//` separator that divides a locator's protocol marker from the
/// rest, and nested path segments from one another.
pub open spec fn dslash() -> Seq<char> {
    seq!['/', '/']
}

/// The protocol marker that selects an event subscription.
pub open spec fn wss_marker() -> Seq<char> {
    "wss:"@
}

/// Classify a locator: split it on `//`; a first segment equal to `wss:`
/// means an event subscription named by the last segment, anything else a
/// REST call whose path is the last segment (the whole locator when no
/// `//` occurs). An empty locator is malformed.
pub fn classify(locator: &str) -> (r: Result<Protocol, Error>)
    ensures
        ({
            let parts = spec_split(locator@, dslash());
            &&& locator@.len() == 0 ==> (r matches Err(e) && e matches Error::MalformedLocator {
                locator: l,
            } && l@ == locator@)
            &&& locator@.len() > 0 && parts[0] == wss_marker() ==> (r matches Ok(p)
                && p matches Protocol::EventSubscription { event_name } && event_name@
                == parts.last())
            &&& locator@.len() > 0 && parts[0] != wss_marker() ==> (r matches Ok(p)
                && p matches Protocol::RestCall { path } && path@ == parts.last())
        }),
{
    let n = locator.unicode_len();
    if n == 0 {
        return Err(Error::MalformedLocator { locator: locator.to_owned() });
    }
    proof {
        reveal_strlit("//");
        assert("//"@ =~= dslash());
        lemma_split_len(locator@, dslash());
    }
    let parts = split_str(locator, "//");
    let last = parts[parts.len() - 1].clone();
    if str_eq(parts[0].as_str(), "wss:") {
        Ok(Protocol::EventSubscription { event_name: last })
    } else {
        Ok(Protocol::RestCall { path: last })
    }
}

/// A locator whose first segment is not `wss:` classifies as a REST call,
/// and its path — the last segment of the split — is the part of the
/// locator after the last occurrence of `//`, or the whole locator when
/// `//` never occurs in it.
pub proof fn lemma_rest_locator_path(l: Seq<char>)
    requires
        l.len() > 0,
        spec_split(l, dslash())[0] != wss_marker(),
    ensures
        !has_match(l, dslash()) ==> spec_split(l, dslash()).last() == l,
        has_match(l, dslash()) ==> exists|i: int|
            match_at(l, dslash(), i) && spec_split(l, dslash()).last() == l.subrange(
                i + 2,
                l.len() as int,
            ) && !has_match(l.subrange(i + 2, l.len() as int), dslash()),
{
    lemma_split_last(l, dslash());
}

/// A locator of the form `wss://X`, where `X` itself holds no `//`, splits
/// into exactly the marker `wss:` and `X`, so it classifies as an event
/// subscription whose event name is exactly `X`.
pub proof fn lemma_wss_locator_event(x: Seq<char>)
    requires
        !has_match(x, dslash()),
    ensures
        ({
            let l = wss_marker() + dslash() + x;
            &&& spec_split(l, dslash()) == seq![wss_marker(), x]
            &&& spec_split(l, dslash())[0] == wss_marker()
            &&& spec_split(l, dslash()).last() == x
        }),
{
    let l = wss_marker() + dslash() + x;
    reveal_strlit("wss:");
    assert(wss_marker().len() == 4);
    assert forall|i: int| 0 <= i < wss_marker().len() implies !match_at(l, dslash(), i) by {
        if match_at(l, dslash(), i) {
            assert(l.subrange(i, i + 2)[0] == l[i]);
            assert(l[i] == '/');
        }
    }
    lemma_split_concat(wss_marker(), x, dslash());
    lemma_split_no_match(x, dslash());
    assert(seq![wss_marker()] + seq![x] =~~= seq![wss_marker(), x]);
}

} // verus!
