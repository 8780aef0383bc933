//! The computing half of the video source resolver: turning a queue entry's
//! stored identifier into a playable source. Fetching video details for a
//! remote id is network work and stays with the shell; interpreting a local
//! entry's path, and picking the stream out of fetched details, is done and
//! verified here.

use vstd::prelude::*;
use crate::error::PomeloError;
use crate::player::QueueEntry;

verus! {

/// What the WHATWG URL parser makes of a string: the parsed URL written back
/// out, or nothing when the string is not a URL. A function of the string
/// alone.
pub uninterp spec fn parse_url_spec(s: Seq<char>) -> Option<Seq<char>>;

/// Relies on url::Url::parse, the WHATWG URL parser, called without a base:
/// whether a string parses, the parsed URL's serialization, and the error's
/// message all depend on the string alone.
#[verifier::external_body]
fn parse_url(s: &str) -> (r: Result<String, String>)
    ensures
        r matches Ok(u) ==> parse_url_spec(s@) == Some(u@),
        r is Err <==> parse_url_spec(s@) is None,
{
    match url::Url::parse(s) {
        Ok(u) => Ok(String::from(u.as_str())),
        Err(e) => Err(e.to_string()),
    }
}

/// Resolves a local queue entry: the stored file path is interpreted as a
/// URL, and a local file is never a live stream. Fails exactly when the path
/// is not URL syntax.
pub fn resolve_local(entry: &QueueEntry) -> (r: Result<(String, bool), PomeloError>)
    requires
        entry.is_local,
    ensures
        match r {
            Ok(source) => parse_url_spec(entry.id@) == Some(source.0@) && source.1 == false,
            Err(_) => parse_url_spec(entry.id@) is None,
        },
{
    match parse_url(entry.id.as_str()) {
        Ok(u) => Ok((u, false)),
        Err(e) => Err(PomeloError::new(e)),
    }
}

/// Turns fetched details of a remote video into a playable source: the first
/// format stream's URL, paired with the details' liveness flag. Fails
/// exactly when that URL does not parse.
pub fn resolve_remote(stream_urls: &Vec<String>, live: bool) -> (r: Result<
    (String, bool),
    PomeloError,
>)
    requires
        stream_urls@.len() >= 1,
    ensures
        match r {
            Ok(source) => parse_url_spec(stream_urls@[0]@) == Some(source.0@)
                && source.1 == live,
            Err(_) => parse_url_spec(stream_urls@[0]@) is None,
        },
{
    match parse_url(stream_urls[0].as_str()) {
        Ok(u) => Ok((u, live)),
        Err(e) => Err(PomeloError::new(e)),
    }
}

} // verus!
