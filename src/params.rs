use vstd::prelude::*;
use crate::decimal::{i32_literal, parse_i32};
use crate::error::LocalError;

verus! {

/// What `urlencoding::decode` makes of a text: `None` when the bytes that
/// the percent escapes give are not UTF-8.
pub uninterp spec fn percent_decoded(s: Seq<char>) -> Option<Seq<char>>;

/// The name/value pairs that `form_urlencoded::parse` reads from a text, in
/// order.
pub uninterp spec fn form_pairs(s: Seq<char>) -> Seq<(Seq<char>, Seq<char>)>;

/// Relies on `urlencoding::decode`: the percent-decoding of `s`, or its
/// UTF-8 error.
#[verifier::external_body]
fn url_decode(s: &str) -> (r: Option<String>)
    ensures
        match r {
            Some(d) => percent_decoded(s@) == Some(d@),
            None => percent_decoded(s@) is None,
        },
{
    urlencoding::decode(s).ok().map(|d| d.into_owned())
}

/// Relies on `url::form_urlencoded::parse`: the pairs of an
/// `application/x-www-form-urlencoded` text, each name and value decoded.
#[verifier::external_body]
fn form_decode(s: &str) -> (r: Vec<(String, String)>)
    ensures
        pairs_view(r@) == form_pairs(s@),
{
    url::form_urlencoded::parse(s.as_bytes()).into_owned().collect()
}

pub open spec fn pairs_view(v: Seq<(String, String)>) -> Seq<(Seq<char>, Seq<char>)> {
    v.map_values(|p: (String, String)| (p.0@, p.1@))
}

/// The value of the last pair named `k`: later pairs override earlier ones.
pub open spec fn lookup(ps: Seq<(Seq<char>, Seq<char>)>, k: Seq<char>) -> Option<Seq<char>>
    decreases ps.len(),
{
    if ps.len() == 0 {
        None
    } else if ps.last().0 == k {
        Some(ps.last().1)
    } else {
        lookup(ps.drop_last(), k)
    }
}

/// The text that the form decoder reads: the percent-decoded query, or the
/// query itself where that decoding fails.
pub open spec fn query_text(q: Seq<char>) -> Seq<char> {
    match percent_decoded(q) {
        Some(d) => d,
        None => q,
    }
}

/// The parameters of a request's query string.
pub struct QueryParams {
    pub pairs: Vec<(String, String)>,
}

impl View for QueryParams {
    type V = Seq<(Seq<char>, Seq<char>)>;

    open spec fn view(&self) -> Seq<(Seq<char>, Seq<char>)> {
        pairs_view(self.pairs@)
    }
}

/// Reads the parameters of a query string (the text after `?`).
pub fn get_params(query: &str) -> (r: QueryParams)
    ensures
        r@ == form_pairs(query_text(query@)),
{
    let text = match url_decode(query) {
        Some(d) => d,
        None => String::from_str(query),
    };
    QueryParams { pairs: form_decode(text.as_str()) }
}

impl QueryParams {
    /// The value given for `name`; the last one where several are given.
    pub fn get(&self, name: &str) -> (r: Option<String>)
        ensures
            match r {
                Some(v) => lookup(self@, name@) == Some(v@),
                None => lookup(self@, name@) is None,
            },
    {
        let key = String::from_str(name);
        let mut i: usize = self.pairs.len();
        assert(self@.take(i as int) =~= self@);
        while i > 0
            invariant
                i <= self.pairs@.len(),
                key@ == name@,
                lookup(self@, name@) == lookup(self@.take(i as int), name@),
            decreases i,
        {
            assert(self@.take(i as int).drop_last() =~= self@.take(i - 1));
            if self.pairs[i - 1].0 == key {
                return Some(self.pairs[i - 1].1.clone());
            }
            i = i - 1;
        }
        None
    }
}

pub open spec fn id_param(ps: Seq<(Seq<char>, Seq<char>)>, name: Seq<char>) -> Result<i32, LocalError> {
    match lookup(ps, name) {
        None => Err(LocalError::IdNotSent),
        Some(v) => match i32_literal(v) {
            Some(id) => Ok(id),
            None => Err(LocalError::IdNotFound),
        },
    }
}

/// Reads an identifier parameter: `IdNotSent` when it is absent,
/// `IdNotFound` when it is not an integer.
pub fn get_id_from_params(params: &QueryParams, name: &str) -> (r: Result<i32, LocalError>)
    ensures
        r == id_param(params@, name@),
{
    match params.get(name) {
        None => Err(LocalError::IdNotSent),
        Some(v) => match parse_i32(v.as_str()) {
            Some(id) => Ok(id),
            None => Err(LocalError::IdNotFound),
        },
    }
}

/// Reads the identifier parameter `name` from a query string.
pub fn get_id_from_uri(query: &str, name: &str) -> (r: Result<i32, LocalError>)
    ensures
        r == id_param(form_pairs(query_text(query@)), name@),
{
    let params = get_params(query);
    get_id_from_params(&params, name)
}

} // verus!
