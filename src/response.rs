use vstd::prelude::*;
use crate::gender::{Gender, gender_from_code};
use crate::json::{Json, field, get_field, json_of, parse_json};

verus! {

/// The service's own refusal: it is unavailable, or the key is over its
/// remote quota.
#[derive(Clone, Debug)]
pub struct NotAvailable {
    pub error_code: usize,
    pub error: String,
}

/// One usage of a name: its code, its full name and its gender there.
#[derive(Clone, Debug)]
pub struct Usage {
    pub usage_code: String,
    pub usage_full: String,
    pub usage_gender: Gender,
}

/// The details of one name.
#[derive(Debug)]
pub struct JsonNameDetailItem {
    pub name: String,
    pub gender: String,
    pub usages: Vec<Usage>,
}

/// The details of each name that a lookup found.
#[derive(Debug)]
pub struct JsonNameDetails(pub Vec<JsonNameDetailItem>);

/// A list of names, as the random and related endpoints give.
#[derive(Debug)]
pub struct JsonNameList {
    pub names: Vec<String>,
}

/// A reply that carries names.
#[derive(Debug)]
pub enum JsonResponse {
    NameDetails(JsonNameDetails),
    NameList(JsonNameList),
}

/// What a reply body holds.
#[derive(Debug)]
pub enum Reply {
    /// Names, in one of the two shapes.
    Okay(JsonResponse),
    /// The service's refusal.
    NotAvailable(NotAvailable),
    /// A body in none of the known shapes.
    Malformed,
}

/// `j` is a string.
pub open spec fn is_text(j: Option<Json>) -> bool {
    j matches Some(Json::Str(_))
}

pub open spec fn usage_shape(j: Json) -> bool {
    match j {
        Json::Object(m) => {
            &&& is_text(field(m@, "usage_code"@))
            &&& is_text(field(m@, "usage_full"@))
            &&& field(m@, "usage_gender"@) matches Some(Json::Str(g)) && gender_from_code(g@) is Some
        },
        _ => false,
    }
}

pub open spec fn decodes_usage(j: Json, u: Usage) -> bool {
    match j {
        Json::Object(m) => {
            &&& field(m@, "usage_code"@) == Some(Json::Str(u.usage_code))
            &&& field(m@, "usage_full"@) == Some(Json::Str(u.usage_full))
            &&& field(m@, "usage_gender"@) matches Some(Json::Str(g)) && gender_from_code(g@) == Some(
                u.usage_gender,
            )
        },
        _ => false,
    }
}

pub open spec fn usages_shape(us: Seq<Json>) -> bool {
    forall|k: int| 0 <= k < us.len() ==> usage_shape(#[trigger] us[k])
}

pub open spec fn item_shape(j: Json) -> bool {
    match j {
        Json::Object(m) => {
            &&& is_text(field(m@, "name"@))
            &&& is_text(field(m@, "gender"@))
            &&& match field(m@, "usages"@) {
                Some(Json::Array(us)) => usages_shape(us@),
                _ => false,
            }
        },
        _ => false,
    }
}

pub open spec fn decodes_item(j: Json, it: JsonNameDetailItem) -> bool {
    match j {
        Json::Object(m) => {
            &&& field(m@, "name"@) == Some(Json::Str(it.name))
            &&& field(m@, "gender"@) == Some(Json::Str(it.gender))
            &&& match field(m@, "usages"@) {
                Some(Json::Array(us)) => us@.len() == it.usages@.len() && forall|k: int|
                    0 <= k < us@.len() ==> decodes_usage(#[trigger] us@[k], it.usages@[k]),
                _ => false,
            }
        },
        _ => false,
    }
}

pub open spec fn items_shape(xs: Seq<Json>) -> bool {
    forall|i: int| 0 <= i < xs.len() ==> item_shape(#[trigger] xs[i])
}

/// The name-details shape: an array of records, each with a name, a gender
/// and an array of usages.
pub open spec fn details_shape(j: Json) -> bool {
    match j {
        Json::Array(xs) => items_shape(xs@),
        _ => false,
    }
}

pub open spec fn decodes_details(j: Json, d: JsonNameDetails) -> bool {
    match j {
        Json::Array(xs) => xs@.len() == d.0@.len() && forall|i: int|
            0 <= i < xs@.len() ==> decodes_item(#[trigger] xs@[i], d.0@[i]),
        _ => false,
    }
}

/// The name-list shape: an object whose `names` member is an array of
/// strings.
pub open spec fn list_shape(j: Json) -> bool {
    match j {
        Json::Object(m) => field(m@, "names"@) matches Some(Json::Array(ns)) && forall|i: int|
            0 <= i < ns@.len() ==> #[trigger] ns@[i] is Str,
        _ => false,
    }
}

pub open spec fn decodes_list(j: Json, l: JsonNameList) -> bool {
    match j {
        Json::Object(m) => field(m@, "names"@) matches Some(Json::Array(ns)) && ns@.len()
            == l.names@.len() && forall|i: int|
            0 <= i < ns@.len() ==> #[trigger] ns@[i] == Json::Str(l.names@[i]),
        _ => false,
    }
}

/// The refusal shape: an object with a non-negative integer `error_code` and
/// a string `error`.
pub open spec fn unavailable_shape(j: Json) -> bool {
    match j {
        Json::Object(m) => {
            &&& field(m@, "error_code"@) matches Some(Json::Number(Some(n))) && n <= usize::MAX
            &&& is_text(field(m@, "error"@))
        },
        _ => false,
    }
}

pub open spec fn decodes_unavailable(j: Json, e: NotAvailable) -> bool {
    match j {
        Json::Object(m) => {
            &&& field(m@, "error_code"@) == Some(Json::Number(Some(e.error_code as u64)))
            &&& field(m@, "error"@) == Some(Json::Str(e.error))
        },
        _ => false,
    }
}

/// `r` is what the document `j` holds: the shapes are tried in the order
/// name details, name list, refusal, and the first that fits decides.
pub open spec fn classifies_as(j: Json, r: Reply) -> bool {
    match r {
        Reply::Okay(JsonResponse::NameDetails(d)) => details_shape(j) && decodes_details(j, d),
        Reply::Okay(JsonResponse::NameList(l)) => !details_shape(j) && list_shape(j) && decodes_list(j, l),
        Reply::NotAvailable(e) => !details_shape(j) && !list_shape(j) && unavailable_shape(j)
            && decodes_unavailable(j, e),
        Reply::Malformed => !details_shape(j) && !list_shape(j) && !unavailable_shape(j),
    }
}

/// `r` is what a body that parsed to `doc` holds; a body that is not JSON is
/// malformed.
pub open spec fn reply_of(doc: Option<Json>, r: Reply) -> bool {
    match doc {
        Some(j) => classifies_as(j, r),
        None => r is Malformed,
    }
}

/// Each known shape classifies as itself: a name-details array as name
/// details, an object with a `names` array as a name list, a refusal object
/// without `names` as the service's refusal; any other document is malformed.
pub proof fn lemma_shapes_classify(j: Json, r: Reply)
    requires
        classifies_as(j, r),
    ensures
        details_shape(j) ==> r matches Reply::Okay(JsonResponse::NameDetails(_)),
        list_shape(j) ==> r matches Reply::Okay(JsonResponse::NameList(_)),
        unavailable_shape(j) && !list_shape(j) ==> r is NotAvailable,
        !details_shape(j) && !list_shape(j) && !unavailable_shape(j) ==> r is Malformed,
{
}

fn text_of(j: Option<&Json>) -> (r: Option<String>)
    ensures
        match r {
            Some(s) => j matches Some(x) && *x == Json::Str(s),
            None => !(j matches Some(x) && x is Str),
        },
{
    match j {
        Some(Json::Str(s)) => Some(s.clone()),
        _ => None,
    }
}

fn decode_usage(j: &Json) -> (r: Option<Usage>)
    ensures
        r is Some <==> usage_shape(*j),
        r matches Some(u) ==> decodes_usage(*j, u),
{
    match j {
        Json::Object(m) => {
            let code = text_of(get_field(m, "usage_code"));
            let full = text_of(get_field(m, "usage_full"));
            let gender = match get_field(m, "usage_gender") {
                Some(Json::Str(g)) => Gender::from_code(g.as_str()),
                _ => None,
            };
            match (code, full, gender) {
                (Some(usage_code), Some(usage_full), Some(usage_gender)) => Some(
                    Usage { usage_code, usage_full, usage_gender },
                ),
                _ => None,
            }
        },
        _ => None,
    }
}

fn decode_item(j: &Json) -> (r: Option<JsonNameDetailItem>)
    ensures
        r is Some <==> item_shape(*j),
        r matches Some(it) ==> decodes_item(*j, it),
{
    match j {
        Json::Object(m) => {
            let name = text_of(get_field(m, "name"));
            let gender = text_of(get_field(m, "gender"));
            let us = match get_field(m, "usages") {
                Some(Json::Array(us)) => us,
                _ => {
                    return None;
                },
            };
            let mut usages: Vec<Usage> = Vec::new();
            let mut k: usize = 0;
            while k < us.len()
                invariant
                    *j == Json::Object(*m),
                    field(m@, "usages"@) == Some(Json::Array(*us)),
                    k <= us@.len(),
                    usages@.len() == k,
                    forall|i: int| 0 <= i < k ==> usage_shape(#[trigger] us@[i]),
                    forall|i: int| 0 <= i < k ==> decodes_usage(#[trigger] us@[i], usages@[i]),
                decreases us@.len() - k,
            {
                match decode_usage(&us[k]) {
                    Some(u) => usages.push(u),
                    None => {
                        assert(!usages_shape(us@));
                        return None;
                    },
                }
                k = k + 1;
            }
            match (name, gender) {
                (Some(name), Some(gender)) => Some(JsonNameDetailItem { name, gender, usages }),
                _ => None,
            }
        },
        _ => None,
    }
}

fn decode_details(j: &Json) -> (r: Option<JsonNameDetails>)
    ensures
        r is Some <==> details_shape(*j),
        r matches Some(d) ==> decodes_details(*j, d),
{
    match j {
        Json::Array(xs) => {
            let mut items: Vec<JsonNameDetailItem> = Vec::new();
            let mut i: usize = 0;
            while i < xs.len()
                invariant
                    *j == Json::Array(*xs),
                    i <= xs@.len(),
                    items@.len() == i,
                    forall|k: int| 0 <= k < i ==> item_shape(#[trigger] xs@[k]),
                    forall|k: int| 0 <= k < i ==> decodes_item(#[trigger] xs@[k], items@[k]),
                decreases xs@.len() - i,
            {
                match decode_item(&xs[i]) {
                    Some(it) => items.push(it),
                    None => {
                        assert(!items_shape(xs@));
                        return None;
                    },
                }
                i = i + 1;
            }
            Some(JsonNameDetails(items))
        },
        _ => None,
    }
}

fn decode_list(j: &Json) -> (r: Option<JsonNameList>)
    ensures
        r is Some <==> list_shape(*j),
        r matches Some(l) ==> decodes_list(*j, l),
{
    match j {
        Json::Object(m) => {
            let ns = match get_field(m, "names") {
                Some(Json::Array(ns)) => ns,
                _ => {
                    return None;
                },
            };
            let mut names: Vec<String> = Vec::new();
            let mut i: usize = 0;
            while i < ns.len()
                invariant
                    *j == Json::Object(*m),
                    field(m@, "names"@) == Some(Json::Array(*ns)),
                    i <= ns@.len(),
                    names@.len() == i,
                    forall|k: int| 0 <= k < i ==> #[trigger] ns@[k] == Json::Str(names@[k]),
                decreases ns@.len() - i,
            {
                match &ns[i] {
                    Json::Str(s) => names.push(s.clone()),
                    _ => {
                        assert(!(ns@[i as int] is Str));
                        return None;
                    },
                }
                i = i + 1;
            }
            Some(JsonNameList { names })
        },
        _ => None,
    }
}

fn decode_unavailable(j: &Json) -> (r: Option<NotAvailable>)
    ensures
        r is Some <==> unavailable_shape(*j),
        r matches Some(e) ==> decodes_unavailable(*j, e),
{
    match j {
        Json::Object(m) => {
            let code = match get_field(m, "error_code") {
                Some(Json::Number(Some(n))) => {
                    if *n <= usize::MAX as u64 {
                        Some(*n as usize)
                    } else {
                        None
                    }
                },
                _ => None,
            };
            let error = text_of(get_field(m, "error"));
            match (code, error) {
                (Some(error_code), Some(error)) => Some(NotAvailable { error_code, error }),
                _ => None,
            }
        },
        _ => None,
    }
}

/// Classifies a parsed reply: name details, else a name list, else the
/// service's refusal, else malformed.
pub fn classify_json(j: &Json) -> (r: Reply)
    ensures
        classifies_as(*j, r),
{
    if let Some(d) = decode_details(j) {
        return Reply::Okay(JsonResponse::NameDetails(d));
    }
    if let Some(l) = decode_list(j) {
        return Reply::Okay(JsonResponse::NameList(l));
    }
    if let Some(e) = decode_unavailable(j) {
        return Reply::NotAvailable(e);
    }
    Reply::Malformed
}

/// Classifies a reply body; a body that is not JSON is malformed.
pub fn classify(body: &str) -> (r: Reply)
    ensures
        reply_of(json_of(body@), r),
{
    match parse_json(body) {
        Some(j) => classify_json(&j),
        None => Reply::Malformed,
    }
}

} // verus!
