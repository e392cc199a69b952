use vstd::prelude::*;
use crate::gender::{Gender, gender_code};

verus! {

/// The service's endpoint addresses.
pub const LOOKUP_JSON_URL: &'static str = "https://www.behindthename.com/api/lookup.json";

pub const RANDOM_JSON_URL: &'static str = "https://www.behindthename.com/api/random.json";

pub const RELATED_JSON_URL: &'static str = "https://www.behindthename.com/api/related.json";

/// The three read-only endpoints of the service.
#[derive(Clone, Copy, Debug, PartialEq, Eq, Structural)]
pub enum Endpoint {
    Lookup,
    Random,
    Related,
}

pub open spec fn endpoint_url(e: Endpoint) -> Seq<char> {
    match e {
        Endpoint::Lookup => LOOKUP_JSON_URL@,
        Endpoint::Random => RANDOM_JSON_URL@,
        Endpoint::Related => RELATED_JSON_URL@,
    }
}

impl Endpoint {
    pub fn url(&self) -> (r: &'static str)
        ensures
            r@ == endpoint_url(*self),
    {
        match self {
            Endpoint::Lookup => LOOKUP_JSON_URL,
            Endpoint::Random => RANDOM_JSON_URL,
            Endpoint::Related => RELATED_JSON_URL,
        }
    }
}

/// A query parameter, as characters.
pub type Param = (Seq<char>, Seq<char>);

pub open spec fn param_view(p: (String, String)) -> Param {
    (p.0@, p.1@)
}

/// The text of `base` with the query pairs `params` appended in order, as the
/// url crate parses and serialises it.
pub uninterp spec fn url_with_query(base: Seq<char>, params: Seq<Param>) -> Seq<char>;

/// Relies on url::Url::parse_with_params and Url's `to_string`: the URL text
/// for `base` with the query pairs appended. `base` is an endpoint's address,
/// which parses, so the parse does not fail.
#[verifier::external_body]
fn url_text(base: &str, params: &Vec<(String, String)>) -> (r: String)
    requires
        exists|e: Endpoint| base@ == endpoint_url(e),
    ensures
        r@ == url_with_query(base@, params@.map_values(|p: (String, String)| param_view(p))),
{
    url::Url::parse_with_params(base, params).unwrap().to_string()
}

/// The digit `d` as text.
fn digit_text(d: u8) -> (r: &'static str)
    requires
        d < 10,
    ensures
        r@ == seq![digit_char(d as nat)],
{
    proof {
        reveal_strlit("0");
        reveal_strlit("1");
        reveal_strlit("2");
        reveal_strlit("3");
        reveal_strlit("4");
        reveal_strlit("5");
        reveal_strlit("6");
        reveal_strlit("7");
        reveal_strlit("8");
        reveal_strlit("9");
    }
    match d {
        0 => "0",
        1 => "1",
        2 => "2",
        3 => "3",
        4 => "4",
        5 => "5",
        6 => "6",
        7 => "7",
        8 => "8",
        _ => "9",
    }
}

/// The decimal digits of `n`.
fn decimal_text(n: u8) -> (r: String)
    ensures
        r@ == decimal(n as nat),
{
    let mut r = digit_text(n % 10).to_owned();
    if n >= 10 {
        let tens = n / 10;
        let mut head = digit_text(tens % 10).to_owned();
        if tens >= 10 {
            let hundreds = digit_text(tens / 10).to_owned();
            assert(decimal(tens as nat) == decimal((tens / 10) as nat).push(digit_char((tens % 10) as nat)));
            assert(hundreds@ + head@ =~= decimal(tens as nat));
            head = hundreds.concat(head.as_str());
        } else {
            assert(head@ =~= decimal(tens as nat));
        }
        assert(decimal(n as nat) == decimal(tens as nat).push(digit_char((n % 10) as nat)));
        assert(head@ + r@ =~= decimal(n as nat));
        r = head.concat(r.as_str());
    }
    r
}

/// The decimal digits of `n`, most significant first, with no leading zero.
pub open spec fn decimal(n: nat) -> Seq<char>
    decreases n,
{
    if n < 10 {
        seq![digit_char(n)]
    } else {
        decimal(n / 10).push(digit_char(n % 10))
    }
}

pub open spec fn digit_char(d: nat) -> char {
    if d == 0 {
        '0'
    } else if d == 1 {
        '1'
    } else if d == 2 {
        '2'
    } else if d == 3 {
        '3'
    } else if d == 4 {
        '4'
    } else if d == 5 {
        '5'
    } else if d == 6 {
        '6'
    } else if d == 7 {
        '7'
    } else if d == 8 {
        '8'
    } else {
        '9'
    }
}

/// A request template: an endpoint and its query pairs, to which the session
/// adds its key.
#[derive(Clone, Debug)]
pub struct Request {
    pub endpoint: Endpoint,
    pub params: Vec<(String, String)>,
}

impl Request {
    /// The request's query pairs, as characters.
    pub open spec fn query(&self) -> Seq<Param> {
        self.params@.map_values(|p: (String, String)| param_view(p))
    }

    /// The URL that this request asks for under the key `key`.
    pub open spec fn url_for(&self, key: Seq<char>) -> Seq<char> {
        url_with_query(endpoint_url(self.endpoint), seq![("key"@, key)] + self.query())
    }

    /// The URL for this request with `key` as the first query pair.
    pub fn url(&self, key: &str) -> (r: String)
        ensures
            r@ == self.url_for(key@),
    {
        let mut all: Vec<(String, String)> = Vec::new();
        push_param(&mut all, "key", key);
        let mut i: usize = 0;
        while i < self.params.len()
            invariant
                i <= self.params@.len(),
                views(all@) == seq![("key"@, key@)] + self.query().take(i as int),
            decreases self.params@.len() - i,
        {
            push_param(&mut all, self.params[i].0.as_str(), self.params[i].1.as_str());
            assert(self.query().take(i + 1) =~= self.query().take(i as int).push(param_view(self.params@[i as int])));
            i = i + 1;
        }
        assert(self.query().take(i as int) =~= self.query());
        url_text(self.endpoint.url(), &all)
    }
}

pub open spec fn views(v: Seq<(String, String)>) -> Seq<Param> {
    v.map_values(|p: (String, String)| param_view(p))
}

/// Appends the pair `(key, value)`.
fn push_param(params: &mut Vec<(String, String)>, key: &str, value: &str)
    ensures
        views(final(params)@) == views(old(params)@).push((key@, value@)),
{
    params.push((key.to_owned(), value.to_owned()));
    assert(views(params@) =~= views(old(params)@).push((key@, value@)));
}

/// The pair `(key, v)` when there is a value, else nothing.
pub open spec fn optional_param(key: Seq<char>, v: Option<Seq<char>>) -> Seq<Param> {
    match v {
        Some(x) => seq![(key, x)],
        None => seq![],
    }
}

pub open spec fn text_view(v: Option<&str>) -> Option<Seq<char>> {
    match v {
        Some(x) => Some(x@),
        None => None,
    }
}

/// The gender code that the related endpoint takes: it knows only `mf` for
/// both the neutral and the ambiguous gender.
pub open spec fn related_gender(g: Gender) -> Option<Seq<char>> {
    match g {
        Gender::Any => None,
        Gender::Neutral | Gender::Ambiguous => Some("mf"@),
        _ => Some(gender_code(g)),
    }
}

/// The gender code that the random endpoint takes: it knows only `u` for both
/// the neutral and the ambiguous gender.
pub open spec fn random_gender(g: Gender) -> Option<Seq<char>> {
    match g {
        Gender::Any => None,
        Gender::Neutral | Gender::Ambiguous => Some("u"@),
        _ => Some(gender_code(g)),
    }
}

pub open spec fn lookup_query(name: Seq<char>, exact: bool) -> Seq<Param> {
    seq![("name"@, name)] + if exact { seq![("exact"@, "yes"@)] } else { seq![] }
}

pub open spec fn related_query(name: Seq<char>, usage: Option<Seq<char>>, gender: Gender) -> Seq<Param> {
    seq![("name"@, name)] + optional_param("usage"@, usage) + optional_param("gender"@, related_gender(gender))
}

pub open spec fn random_query(gender: Gender, usage: Option<Seq<char>>, number: Option<u8>, random_surname: bool) -> Seq<Param> {
    optional_param("usage"@, usage) + optional_param("gender"@, random_gender(gender)) + optional_param(
        "number"@,
        match number {
            Some(n) => Some(decimal(n as nat)),
            None => None,
        },
    ) + if random_surname { seq![("randomsurname"@, "yes"@)] } else { seq![] }
}

fn lookup_request(name: &str, exact: bool) -> (r: Request)
    ensures
        r.endpoint == Endpoint::Lookup,
        r.query() == lookup_query(name@, exact),
{
    let mut params: Vec<(String, String)> = Vec::new();
    push_param(&mut params, "name", name);
    if exact {
        push_param(&mut params, "exact", "yes");
    }
    assert(views(params@) =~= lookup_query(name@, exact));
    Request { endpoint: Endpoint::Lookup, params }
}

/// The lookup of `name`, matching names that contain it.
pub fn lookup(name: &str) -> (r: Request)
    ensures
        r.endpoint == Endpoint::Lookup,
        r.query() == lookup_query(name@, false),
{
    lookup_request(name, false)
}

/// The lookup of exactly `name`.
pub fn lookup_exact(name: &str) -> (r: Request)
    ensures
        r.endpoint == Endpoint::Lookup,
        r.query() == lookup_query(name@, true),
{
    lookup_request(name, true)
}

/// The names related to `name`, optionally restricted to a usage and a gender.
pub fn related_with_params(name: &str, usage: Option<&str>, gender: Gender) -> (r: Request)
    ensures
        r.endpoint == Endpoint::Related,
        r.query() == related_query(name@, text_view(usage), gender),
{
    let mut params: Vec<(String, String)> = Vec::new();
    push_param(&mut params, "name", name);
    if let Some(u) = usage {
        push_param(&mut params, "usage", u);
    }
    match gender {
        Gender::Any => {},
        Gender::Neutral | Gender::Ambiguous => {
            push_param(&mut params, "gender", "mf");
        },
        _ => {
            push_param(&mut params, "gender", gender.as_str());
        },
    }
    assert(views(params@) =~= related_query(name@, text_view(usage), gender));
    Request { endpoint: Endpoint::Related, params }
}

pub fn related(name: &str) -> (r: Request)
    ensures
        r.endpoint == Endpoint::Related,
        r.query() == related_query(name@, None, Gender::Any),
{
    related_with_params(name, None, Gender::Any)
}

pub fn related_with_usage(name: &str, usage: &str) -> (r: Request)
    ensures
        r.endpoint == Endpoint::Related,
        r.query() == related_query(name@, Some(usage@), Gender::Any),
{
    related_with_params(name, Some(usage), Gender::Any)
}

pub fn related_with_gender(name: &str, gender: Gender) -> (r: Request)
    ensures
        r.endpoint == Endpoint::Related,
        r.query() == related_query(name@, None, gender),
{
    related_with_params(name, None, gender)
}

/// Random names, optionally of a gender and a usage, `number` of them, with a
/// random surname when asked.
pub fn random_with_params(gender: Gender, usage: Option<&str>, number: Option<u8>, random_surname: bool) -> (r: Request)
    ensures
        r.endpoint == Endpoint::Random,
        r.query() == random_query(gender, text_view(usage), number, random_surname),
{
    let mut params: Vec<(String, String)> = Vec::new();
    if let Some(u) = usage {
        push_param(&mut params, "usage", u);
    }
    match gender {
        Gender::Any => {},
        Gender::Neutral | Gender::Ambiguous => {
            push_param(&mut params, "gender", "u");
        },
        _ => {
            push_param(&mut params, "gender", gender.as_str());
        },
    }
    if let Some(n) = number {
        let digits = decimal_text(n);
        push_param(&mut params, "number", digits.as_str());
    }
    if random_surname {
        push_param(&mut params, "randomsurname", "yes");
    }
    assert(views(params@) =~= random_query(gender, text_view(usage), number, random_surname));
    Request { endpoint: Endpoint::Random, params }
}

pub fn random() -> (r: Request)
    ensures
        r.endpoint == Endpoint::Random,
        r.query() == random_query(Gender::Any, None, None, false),
{
    random_with_params(Gender::Any, None, None, false)
}

pub fn random_with_surname() -> (r: Request)
    ensures
        r.endpoint == Endpoint::Random,
        r.query() == random_query(Gender::Any, None, None, true),
{
    random_with_params(Gender::Any, None, None, true)
}

pub fn random_with_gender(gender: Gender) -> (r: Request)
    ensures
        r.endpoint == Endpoint::Random,
        r.query() == random_query(gender, None, None, false),
{
    random_with_params(gender, None, None, false)
}

pub fn random_with_usage(usage: &str) -> (r: Request)
    ensures
        r.endpoint == Endpoint::Random,
        r.query() == random_query(Gender::Any, Some(usage@), None, false),
{
    random_with_params(Gender::Any, Some(usage), None, false)
}

} // verus!
