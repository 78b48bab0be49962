//! Reading the reply of the IP geolocation service.
//!
//! The reply is a JSON object; the library reads its `status` and the
//! location fields. Latitude and longitude stay as the JSON number text, for
//! the caller to turn into floating point.
use vstd::prelude::*;

use crate::text::str_eq;

verus! {

/// What the top-level object of a JSON document holds under one key.
#[derive(Debug, Clone, PartialEq, Eq)]
pub enum JsonMember {
    /// The text is not a JSON document.
    Unparsed,
    /// The document is not an object, or the object has no such key.
    Absent,
    /// A string, unescaped.
    Str(String),
    /// A number, as serde_json writes it.
    Num(String),
    /// `null`, a boolean, an array or an object.
    Other,
}

/// The abstract value of a [`JsonMember`].
pub enum JsonMemberModel {
    Unparsed,
    Absent,
    Str(Seq<char>),
    Num(Seq<char>),
    Other,
}

impl JsonMember {
    pub open spec fn model(&self) -> JsonMemberModel {
        match self {
            JsonMember::Unparsed => JsonMemberModel::Unparsed,
            JsonMember::Absent => JsonMemberModel::Absent,
            JsonMember::Str(s) => JsonMemberModel::Str(s@),
            JsonMember::Num(n) => JsonMemberModel::Num(n@),
            JsonMember::Other => JsonMemberModel::Other,
        }
    }
}

/// What serde_json reads under `key` in the top-level object of `text`.
pub uninterp spec fn json_member_of(text: Seq<char>, key: Seq<char>) -> JsonMemberModel;

/// Parses `text` with `serde_json::from_str` into a `serde_json::Value` and
/// reads `Value::get(key)`. The result is named: it depends on `text` and
/// `key` alone, and nothing further is claimed of serde_json's grammar.
#[verifier::external_body]
fn json_member(text: &str, key: &str) -> (r: JsonMember)
    ensures
        r.model() == json_member_of(text@, key@),
{
    match serde_json::from_str::<serde_json::Value>(text) {
        Err(_) => JsonMember::Unparsed,
        Ok(v) => match v.get(key) {
            None => JsonMember::Absent,
            Some(serde_json::Value::String(s)) => JsonMember::Str(s.clone()),
            Some(serde_json::Value::Number(n)) => JsonMember::Num(n.to_string()),
            Some(_) => JsonMember::Other,
        },
    }
}

/// The text of a string member, or the empty text for anything else.
pub open spec fn member_text(m: JsonMemberModel) -> Seq<char> {
    match m {
        JsonMemberModel::Str(s) => s,
        _ => Seq::empty(),
    }
}

/// The text of a number member, or the empty text for anything else.
pub open spec fn member_number(m: JsonMemberModel) -> Seq<char> {
    match m {
        JsonMemberModel::Num(n) => n,
        _ => Seq::empty(),
    }
}

/// Where an address is, as the lookup service reports it.
#[derive(Debug, Clone, PartialEq, Eq)]
pub struct GeoText {
    pub city: String,
    pub region: String,
    pub country: String,
    /// The latitude as JSON number text; empty when the reply has none.
    pub lat: String,
    /// The longitude as JSON number text; empty when the reply has none.
    pub lon: String,
    pub isp: String,
}

fn text_of(m: JsonMember) -> (s: String)
    ensures
        s@ == member_text(m.model()),
{
    match m {
        JsonMember::Str(s) => s,
        _ => String::new(),
    }
}

fn number_of(m: JsonMember) -> (s: String)
    ensures
        s@ == member_number(m.model()),
{
    match m {
        JsonMember::Num(n) => n,
        _ => String::new(),
    }
}

/// Whether the member `status` reports success.
pub open spec fn status_succeeded(status: JsonMemberModel) -> bool {
    status == JsonMemberModel::Str("success"@)
}

/// The location read from the members of a reply: `None` unless `status`
/// is the string `success`; otherwise each location field as a string
/// (empty when missing or not a string) and `lat` and `lon` as number text
/// (empty when missing or not a number).
pub fn geo_from_members(
    status: JsonMember,
    city: JsonMember,
    region: JsonMember,
    country: JsonMember,
    lat: JsonMember,
    lon: JsonMember,
    isp: JsonMember,
) -> (r: Option<GeoText>)
    ensures
        r is Some <==> status_succeeded(status.model()),
        r matches Some(g) ==> {
            &&& g.city@ == member_text(city.model())
            &&& g.region@ == member_text(region.model())
            &&& g.country@ == member_text(country.model())
            &&& g.lat@ == member_number(lat.model())
            &&& g.lon@ == member_number(lon.model())
            &&& g.isp@ == member_text(isp.model())
        },
{
    let ok = match &status {
        JsonMember::Str(s) => str_eq(s.as_str(), "success"),
        _ => false,
    };
    if !ok {
        return None;
    }
    Some(GeoText {
        city: text_of(city),
        region: text_of(region),
        country: text_of(country),
        lat: number_of(lat),
        lon: number_of(lon),
        isp: text_of(isp),
    })
}

/// Reads a reply of the geolocation service: its members `status`, `city`,
/// `regionName`, `country`, `lat`, `lon` and `isp`, as
/// [`geo_from_members`] takes them.
pub fn geo_from_response(text: &str) -> (r: Option<GeoText>)
    ensures
        r is Some <==> status_succeeded(json_member_of(text@, "status"@)),
        r matches Some(g) ==> {
            &&& g.city@ == member_text(json_member_of(text@, "city"@))
            &&& g.region@ == member_text(json_member_of(text@, "regionName"@))
            &&& g.country@ == member_text(json_member_of(text@, "country"@))
            &&& g.lat@ == member_number(json_member_of(text@, "lat"@))
            &&& g.lon@ == member_number(json_member_of(text@, "lon"@))
            &&& g.isp@ == member_text(json_member_of(text@, "isp"@))
        },
{
    geo_from_members(
        json_member(text, "status"),
        json_member(text, "city"),
        json_member(text, "regionName"),
        json_member(text, "country"),
        json_member(text, "lat"),
        json_member(text, "lon"),
        json_member(text, "isp"),
    )
}

} // verus!
