//! Building the request URLs of the upstream API, and classifying the
//! outcome of a single detail request.
//!
//! The transport itself lives outside the crate: a caller performs each GET
//! and hands the body text (or its transport error) back to the functions
//! here.

use vstd::prelude::*;

use crate::decimal::dec_of;
use crate::errors::FetchError;
use crate::json::json_ok;
use crate::models::{Pokemon, PokemonId};
use crate::paginator::ListWindow;

verus! {

/// The URL of the list endpoint for one window:
/// `{base}/pokemon?limit={limit}&offset={offset}`.
pub open spec fn list_url_spec(base: Seq<char>, limit: int, offset: int) -> Seq<char> {
    base + "/pokemon?limit="@ + dec_of(limit) + "&offset="@ + dec_of(offset)
}

/// The URL of the detail endpoint for one identifier:
/// `{base}/pokemon/{id}`.
pub open spec fn detail_url_spec(base: Seq<char>, id: Seq<char>) -> Seq<char> {
    base + "/pokemon/"@ + id
}

/// The client's configuration: the base URL every request URL is built
/// from.  The transport (an HTTP client) stays with the caller.
#[derive(Debug)]
pub struct PokeFetcher {
    base_url: String,
}

impl View for PokeFetcher {
    type V = Seq<char>;

    closed spec fn view(&self) -> Seq<char> {
        self.base_url@
    }
}

impl PokeFetcher {
    /// A fetcher against the public API's base URL.
    pub fn new() -> (r: PokeFetcher)
        ensures
            r@ == "http://pokeapi.co/api/v2"@,
    {
        PokeFetcher { base_url: String::from_str("http://pokeapi.co/api/v2") }
    }

    /// A fetcher against an explicit base URL.
    pub fn with_base_url(base_url: String) -> (r: PokeFetcher)
        ensures
            r@ == base_url@,
    {
        PokeFetcher { base_url }
    }

    /// The configured base URL.
    pub fn base_url(&self) -> (r: &String)
        ensures
            r@ == self@,
    {
        &self.base_url
    }

    /// The list URL for one pagination window.
    pub fn list_url(&self, w: &ListWindow) -> (r: String)
        requires
            w.wf(),
        ensures
            r@ == list_url_spec(self@, w.limit as int, w.offset as int),
    {
        let mut url = self.base_url.clone();
        url.append("/pokemon?limit=");
        let limit_digits = crate::decimal::fmt_u64(w.limit as u64);
        url.append(limit_digits.as_str());
        url.append("&offset=");
        let offset_digits = crate::decimal::fmt_u64(w.offset as u64);
        url.append(offset_digits.as_str());
        url
    }

    /// The detail URL for a textual resource identifier.
    pub fn detail_url_for_id(&self, id: &str) -> (r: String)
        ensures
            r@ == detail_url_spec(self@, id@),
    {
        let mut url = self.base_url.clone();
        url.append("/pokemon/");
        url.append(id);
        url
    }

    /// The detail URL for a numeric resource identifier.
    pub fn detail_url_for(&self, id: &PokemonId) -> (r: String)
        requires
            id@ >= 0,
        ensures
            r@ == detail_url_spec(self@, dec_of(id@)),
    {
        let mut url = self.base_url.clone();
        url.append("/pokemon/");
        let segment = id.segment();
        url.append(segment.as_str());
        url
    }
}

/// Classify the outcome of one detail request.  A transport failure passes
/// through; a body that is not valid JSON is a parse failure; a valid body
/// becomes a record carrying exactly that text.  The call succeeds if and
/// only if the transport succeeded and the body is valid JSON.
pub fn accept_detail(r: Result<String, FetchError>) -> (out: Result<Pokemon, FetchError>)
    ensures
        match r {
            Ok(body) => {
                &&& out is Ok <==> json_ok(body@)
                &&& (out matches Ok(p) ==> p@ == body@)
                &&& (out is Err ==> out == Err::<Pokemon, FetchError>(FetchError::Parse))
            },
            Err(e) => out == Err::<Pokemon, FetchError>(e),
        },
{
    match r {
        Ok(body) => Pokemon::from_body(body),
        Err(e) => Err(e),
    }
}

} // verus!
