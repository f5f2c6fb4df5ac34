use vstd::prelude::*;

use crate::json::{field, Json, JsonNumber};

verus! {

/// The fields that the decoders read.
#[derive(Clone, Copy, Debug, PartialEq, Eq, Structural)]
pub enum Field {
    Ip,
    Lat,
    Lon,
    Properties,
    Forecast,
    Periods,
    Name,
}

/// Why one lookup failed.
#[derive(Clone, Copy, Debug, PartialEq, Eq, Structural)]
pub enum FetchError {
    /// The request did not get through (DNS, connection, transport).
    Network,
    /// The response body was not JSON.
    MalformedResponse,
    /// A field that the lookup needs is absent.
    FieldMissing(Field),
    /// A field that the lookup needs has the wrong JSON type.
    FieldType(Field),
}

/// A position, each part kept as the shortest decimal text of the 64-bit
/// float that the geolocation service sent, so that nothing is rounded.
#[derive(Debug)]
pub struct Coordinates {
    pub latitude: String,
    pub longitude: String,
}

impl View for Coordinates {
    type V = (Seq<char>, Seq<char>);

    open spec fn view(&self) -> (Seq<char>, Seq<char>) {
        (self.latitude@, self.longitude@)
    }
}

/// One period of the forecast: its name and the chance of rain in percent.
#[derive(Debug)]
pub struct ForecastPeriod {
    pub label: String,
    pub rain_probability_percent: u64,
}

impl View for ForecastPeriod {
    type V = (Seq<char>, u64);

    open spec fn view(&self) -> (Seq<char>, u64) {
        (self.label@, self.rain_probability_percent)
    }
}

/// The string member `key` of `doc`; `f` names it in an error.
pub open spec fn text_field(doc: Json, key: Seq<char>, f: Field) -> Result<Seq<char>, FetchError> {
    match field(doc, key) {
        Some(Json::Str(s)) => Ok(s@),
        Some(_) => Err(FetchError::FieldType(f)),
        None => Err(FetchError::FieldMissing(f)),
    }
}

/// The numeric member `key` of `doc`; `f` names it in an error.
pub open spec fn number_field(doc: Json, key: Seq<char>, f: Field) -> Result<JsonNumber, FetchError> {
    match field(doc, key) {
        Some(Json::Number(n)) => Ok(n),
        Some(_) => Err(FetchError::FieldType(f)),
        None => Err(FetchError::FieldMissing(f)),
    }
}

/// What the IP echo response gives: its `ip` member.
pub open spec fn own_ip(doc: Json) -> Result<Seq<char>, FetchError> {
    text_field(doc, "ip"@, Field::Ip)
}

/// What the geolocation response gives: `lat`, then `lon`.
pub open spec fn location_of(doc: Json) -> Result<(Seq<char>, Seq<char>), FetchError> {
    match number_field(doc, "lat"@, Field::Lat) {
        Err(e) => Err(e),
        Ok(lat) => match number_field(doc, "lon"@, Field::Lon) {
            Err(e) => Err(e),
            Ok(lon) => Ok((lat.decimal@, lon.decimal@)),
        },
    }
}

/// The `properties` object of a weather service response.
pub open spec fn properties_of(doc: Json) -> Result<Json, FetchError> {
    match field(doc, "properties"@) {
        Some(p) => if p is Object {
            Ok(p)
        } else {
            Err(FetchError::FieldType(Field::Properties))
        },
        None => Err(FetchError::FieldMissing(Field::Properties)),
    }
}

/// The forecast document's address in a points metadata response: a string
/// `properties.forecast`, and nothing else will do.
pub open spec fn forecast_url_of(doc: Json) -> Result<Seq<char>, FetchError> {
    match properties_of(doc) {
        Err(e) => Err(e),
        Ok(p) => match field(p, "forecast"@) {
            Some(Json::Str(s)) => Ok(s@),
            _ => Err(FetchError::FieldMissing(Field::Forecast)),
        },
    }
}

/// `probabilityOfPrecipitation.value` of a period where that is a
/// non-negative integer, and 0 wherever any step of the path is wanting.
pub open spec fn rain_chance(period: Json) -> u64 {
    match field(period, "probabilityOfPrecipitation"@) {
        Some(p) => match field(p, "value"@) {
            Some(Json::Number(n)) => match n.unsigned {
                Some(u) => u,
                None => 0,
            },
            _ => 0,
        },
        None => 0,
    }
}

/// One entry of `periods`: its required `name` and its chance of rain.
pub open spec fn period_of(period: Json) -> Result<(Seq<char>, u64), FetchError> {
    match text_field(period, "name"@, Field::Name) {
        Err(e) => Err(e),
        Ok(name) => Ok((name, rain_chance(period))),
    }
}

/// The first `n` entries of `items` decoded in order; the first failure wins.
pub open spec fn periods_prefix(items: Seq<Json>, n: nat) -> Result<Seq<(Seq<char>, u64)>, FetchError>
    decreases n,
{
    if n == 0 {
        Ok(Seq::empty())
    } else {
        match periods_prefix(items, (n - 1) as nat) {
            Err(e) => Err(e),
            Ok(done) => match period_of(items[n - 1]) {
                Err(e) => Err(e),
                Ok(p) => Ok(done.push(p)),
            },
        }
    }
}

/// What a forecast document gives: each entry of `properties.periods`, in order.
pub open spec fn forecast_of(doc: Json) -> Result<Seq<(Seq<char>, u64)>, FetchError> {
    match properties_of(doc) {
        Err(e) => Err(e),
        Ok(p) => match field(p, "periods"@) {
            Some(Json::Array(items)) => periods_prefix(items@, items@.len()),
            Some(_) => Err(FetchError::FieldType(Field::Periods)),
            None => Err(FetchError::FieldMissing(Field::Periods)),
        },
    }
}

/// `r` is `s`, a string compared by its text.
pub open spec fn text_result(r: Result<String, FetchError>, s: Result<Seq<char>, FetchError>) -> bool {
    match (r, s) {
        (Ok(a), Ok(b)) => a@ == b,
        (Err(e), Err(f)) => e == f,
        _ => false,
    }
}

fn text_member(doc: &Json, key: &str, f: Field) -> (r: Result<String, FetchError>)
    ensures
        text_result(r, text_field(*doc, key@, f)),
{
    match doc.get(key) {
        Some(Json::Str(s)) => Ok(s.clone()),
        Some(_) => Err(FetchError::FieldType(f)),
        None => Err(FetchError::FieldMissing(f)),
    }
}

fn decimal_member(doc: &Json, key: &str, f: Field) -> (r: Result<String, FetchError>)
    ensures
        match (r, number_field(*doc, key@, f)) {
            (Ok(a), Ok(n)) => a@ == n.decimal@,
            (Err(e), Err(g)) => e == g,
            _ => false,
        },
{
    match doc.get(key) {
        Some(Json::Number(n)) => Ok(n.decimal.clone()),
        Some(_) => Err(FetchError::FieldType(f)),
        None => Err(FetchError::FieldMissing(f)),
    }
}

/// The caller's address from an IP echo response: its `ip` member, as it stands.
pub fn resolve_own_ip(doc: &Json) -> (r: Result<String, FetchError>)
    ensures
        text_result(r, own_ip(*doc)),
        field(*doc, "ip"@) matches Some(Json::Str(s)) ==> r is Ok && r->Ok_0@ == s@,
{
    text_member(doc, "ip", Field::Ip)
}

/// The position in a geolocation response: its numeric `lat` and `lon`.
pub fn resolve_location(doc: &Json) -> (r: Result<Coordinates, FetchError>)
    ensures
        match (r, location_of(*doc)) {
            (Ok(c), Ok(l)) => c@ == l,
            (Err(e), Err(g)) => e == g,
            _ => false,
        },
{
    let latitude = match decimal_member(doc, "lat", Field::Lat) {
        Ok(t) => t,
        Err(e) => return Err(e),
    };
    let longitude = match decimal_member(doc, "lon", Field::Lon) {
        Ok(t) => t,
        Err(e) => return Err(e),
    };
    Ok(Coordinates { latitude, longitude })
}

fn properties(doc: &Json) -> (r: Result<&Json, FetchError>)
    ensures
        match (r, properties_of(*doc)) {
            (Ok(a), Ok(b)) => *a == b,
            (Err(e), Err(g)) => e == g,
            _ => false,
        },
{
    match doc.get("properties") {
        Some(p) => match p {
            Json::Object(_) => Ok(p),
            _ => Err(FetchError::FieldType(Field::Properties)),
        },
        None => Err(FetchError::FieldMissing(Field::Properties)),
    }
}

/// The address of the forecast document, from a points metadata response.
pub fn forecast_document_url(doc: &Json) -> (r: Result<String, FetchError>)
    ensures
        text_result(r, forecast_url_of(*doc)),
{
    let props = match properties(doc) {
        Ok(p) => p,
        Err(e) => return Err(e),
    };
    match props.get("forecast") {
        Some(Json::Str(s)) => Ok(s.clone()),
        _ => Err(FetchError::FieldMissing(Field::Forecast)),
    }
}

/// The chance of rain of one forecast period, 0 where the service gave none.
pub fn rain_chance_of(period: &Json) -> (r: u64)
    ensures
        r == rain_chance(*period),
{
    match period.get("probabilityOfPrecipitation") {
        Some(p) => match p.get("value") {
            Some(Json::Number(n)) => match n.unsigned {
                Some(u) => u,
                None => 0,
            },
            _ => 0,
        },
        None => 0,
    }
}

/// One forecast period: its `name`, which must be a string, and its chance of rain.
pub fn decode_period(period: &Json) -> (r: Result<ForecastPeriod, FetchError>)
    ensures
        match (r, period_of(*period)) {
            (Ok(p), Ok(q)) => p@ == q,
            (Err(e), Err(g)) => e == g,
            _ => false,
        },
{
    let label = match text_member(period, "name", Field::Name) {
        Ok(s) => s,
        Err(e) => return Err(e),
    };
    Ok(ForecastPeriod { label, rain_probability_percent: rain_chance_of(period) })
}

/// The views of a sequence of periods.
pub open spec fn periods_view(v: Seq<ForecastPeriod>) -> Seq<(Seq<char>, u64)> {
    v.map_values(|p: ForecastPeriod| p@)
}

/// The forecast periods of a forecast document, in the order it lists them.
pub fn resolve_forecast(doc: &Json) -> (r: Result<Vec<ForecastPeriod>, FetchError>)
    ensures
        match (r, forecast_of(*doc)) {
            (Ok(v), Ok(s)) => periods_view(v@) == s,
            (Err(e), Err(g)) => e == g,
            _ => false,
        },
{
    let props = match properties(doc) {
        Ok(p) => p,
        Err(e) => return Err(e),
    };
    let items = match props.get("periods") {
        Some(Json::Array(items)) => items,
        Some(_) => return Err(FetchError::FieldType(Field::Periods)),
        None => return Err(FetchError::FieldMissing(Field::Periods)),
    };
    let mut out: Vec<ForecastPeriod> = Vec::new();
    let mut i: usize = 0;
    proof {
        assert(periods_view(out@) =~= Seq::<(Seq<char>, u64)>::empty());
    }
    while i < items.len()
        invariant
            0 <= i <= items@.len(),
            forecast_of(*doc) == periods_prefix(items@, items@.len()),
            periods_prefix(items@, i as nat) == Ok::<Seq<(Seq<char>, u64)>, FetchError>(periods_view(out@)),
        decreases items@.len() - i,
    {
        let p = match decode_period(&items[i]) {
            Ok(p) => p,
            Err(e) => {
                proof {
                    lemma_prefix_error_stays(items@, (i + 1) as nat, items@.len());
                }
                return Err(e);
            },
        };
        let ghost before = out@;
        out.push(p);
        proof {
            assert(periods_view(out@) =~= periods_view(before).push(p@));
        }
        i = i + 1;
    }
    Ok(out)
}

proof fn lemma_prefix_error_stays(items: Seq<Json>, n: nat, m: nat)
    requires
        n <= m,
        periods_prefix(items, n) is Err,
    ensures
        periods_prefix(items, m) == periods_prefix(items, n),
    decreases m - n,
{
    if n < m {
        lemma_prefix_error_stays(items, n, (m - 1) as nat);
    }
}

} // verus!
