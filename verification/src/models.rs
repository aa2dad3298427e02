//! The data model of the client.
//!
//! A detail record is carried as its JSON text and never interpreted: the
//! pipeline only needs to know that the text is valid JSON, and the wire
//! schema of the payload is deliberately opaque.  The list response, by
//! contrast, is plain structured data the pipeline does read.

use vstd::prelude::*;

use crate::errors::FetchError;
use crate::json::{is_json_text, json_ok, pretty_of, to_pretty_json};

verus! {

/// The numeric identifier of a resource.
#[derive(Debug, Clone, Copy)]
pub struct PokemonId(i32);

impl View for PokemonId {
    type V = int;

    closed spec fn view(&self) -> int {
        self.0 as int
    }
}

impl PokemonId {
    pub fn new(id: i32) -> (r: PokemonId)
        ensures
            r@ == id as int,
    {
        PokemonId(id)
    }

    /// The identifier as the path segment of a detail URL.
    pub fn segment(&self) -> (r: String)
        requires
            self@ >= 0,
        ensures
            r@ == crate::decimal::dec_of(self@),
    {
        fmt_nonneg(self.0)
    }
}

/// The decimal rendering of a nonnegative `i32`.
fn fmt_nonneg(n: i32) -> (r: String)
    requires
        n >= 0,
    ensures
        r@ == crate::decimal::dec_of(n as int),
{
    crate::decimal::fmt_u64(n as u64)
}

/// One entry of a paginated list response: a resource's name and the URL of
/// its detail record.
#[derive(Debug)]
pub struct PokemonListItem {
    pub name: String,
    pub url: String,
}

/// A paginated list response: the total number of items the collection
/// offers, the neighbouring pages, and this page's items in order.
#[derive(Debug)]
pub struct PokeApiResponse {
    pub count: i32,
    pub next: Option<String>,
    pub previous: Option<String>,
    pub results: Vec<PokemonListItem>,
}

/// One detail record, held as its JSON text.  The payload's schema is
/// opaque to the pipeline; the type's invariant is that the text is valid
/// JSON, established when a response body is accepted.
#[derive(Debug)]
pub struct Pokemon {
    body: String,
}

impl View for Pokemon {
    type V = Seq<char>;

    closed spec fn view(&self) -> Seq<char> {
        self.body@
    }
}

impl Pokemon {
    #[verifier::type_invariant]
    spec fn inv(self) -> bool {
        json_ok(self.body@)
    }

    /// Accept a response body as a detail record: succeeds exactly when the
    /// body is valid JSON, and otherwise reports a parse failure.
    pub fn from_body(body: String) -> (r: Result<Pokemon, FetchError>)
        ensures
            r is Ok <==> json_ok(body@),
            r matches Ok(p) ==> p@ == body@,
            r is Err ==> r == Err::<Pokemon, FetchError>(FetchError::Parse),
    {
        if is_json_text(body.as_str()) {
            Ok(Pokemon { body })
        } else {
            Err(FetchError::Parse)
        }
    }

    /// The record's JSON text.
    pub fn body(&self) -> (r: &String)
        ensures
            r@ == self@,
    {
        &self.body
    }

    /// The record pretty-printed for display.  The rendering is a function
    /// of the record's text alone, so equal records render identically.
    pub fn to_pretty(&self) -> (r: String)
        ensures
            r@ == pretty_of(self@),
    {
        proof {
            use_type_invariant(self);
        }
        match to_pretty_json(self.body.as_str()) {
            Some(p) => p,
            None => vstd::pervasive::unreached(),
        }
    }
}

/// The views of a sequence of records: each record's JSON text.
pub open spec fn bodies_of(rs: Seq<Pokemon>) -> Seq<Seq<char>> {
    rs.map_values(|p: Pokemon| p@)
}

/// The aggregated result of an ingest run: the retrieved records in arrival
/// order.  During a run the orchestrator alone appends to it; on completion
/// it is handed to the caller as an immutable value.
#[derive(Debug)]
pub struct PokemonData {
    pub results: Vec<Pokemon>,
}

impl PokemonData {
    pub fn new(results: Vec<Pokemon>) -> (r: PokemonData)
        ensures
            r.results == results,
    {
        PokemonData { results }
    }

    /// The number of records held.
    pub fn len(&self) -> (r: usize)
        ensures
            r == self.results@.len(),
    {
        self.results.len()
    }

    /// Append one retrieved record.
    pub fn push(&mut self, p: Pokemon)
        ensures
            final(self).results@ == old(self).results@.push(p),
    {
        self.results.push(p);
    }

    /// Merge a completed batch of records, keeping their order after the
    /// records already held.
    pub fn merge(&mut self, batch: Vec<Pokemon>)
        ensures
            final(self).results@ == old(self).results@ + batch@,
    {
        let mut batch = batch;
        self.results.append(&mut batch);
    }

    /// The aggregate framed as a single JSON document,
    /// `{"results":[ ... ]}`, with the records' texts in order.
    pub fn to_json(&self) -> (r: String)
        ensures
            r@ == results_doc(bodies_of(self.results@)),
    {
        let ghost bodies = bodies_of(self.results@);
        let mut out = String::from_str("{\"results\":[");
        let mut i: usize = 0;
        while i < self.results.len()
            invariant
                0 <= i <= self.results@.len(),
                bodies == bodies_of(self.results@),
                out@ == "{\"results\":["@ + joined(bodies.take(i as int)),
            decreases self.results@.len() - i,
        {
            if i > 0 {
                out.append(",");
            }
            out.append(self.results[i].body().as_str());
            proof {
                assert(bodies.take(i + 1).drop_last() =~= bodies.take(i as int));
                assert(bodies.take(i + 1).last() == bodies[i as int]);
                if i == 0 {
                    assert(joined(bodies.take(1)) == bodies[0]);
                    assert(out@ =~= "{\"results\":["@ + joined(bodies.take(i + 1)));
                } else {
                    assert(out@ =~= "{\"results\":["@ + joined(bodies.take(i + 1)));
                }
            }
            i = i + 1;
        }
        out.append("]}");
        proof {
            assert(bodies.take(self.results@.len() as int) =~= bodies);
            assert(out@ =~= results_doc(bodies));
        }
        out
    }
}

/// The records' texts joined with commas, in order.
pub open spec fn joined(bodies: Seq<Seq<char>>) -> Seq<char>
    decreases bodies.len(),
{
    if bodies.len() == 0 {
        Seq::empty()
    } else if bodies.len() == 1 {
        bodies[0]
    } else {
        joined(bodies.drop_last()) + ","@ + bodies.last()
    }
}

/// The JSON document framing a sequence of record texts.
pub open spec fn results_doc(bodies: Seq<Seq<char>>) -> Seq<char> {
    "{\"results\":["@ + joined(bodies) + "]}"@
}

} // verus!
