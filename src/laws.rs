use vstd::prelude::*;

use crate::decode::{
    forecast_of, location_of, period_of, periods_prefix, properties_of, FetchError, Field,
};
use crate::json::{field, Json, JsonNumber};
use crate::pipeline::{run_from, step, ActionView, LookupView, PipelineError, Stage};

verus! {

/// A geolocation response with numeric `lat` and `lon` gives exactly those
/// two numbers, each kept as the exact text of its 64-bit float.
pub proof fn lemma_location_is_exact(doc: Json, lat: JsonNumber, lon: JsonNumber)
    requires
        field(doc, "lat"@) == Some(Json::Number(lat)),
        field(doc, "lon"@) == Some(Json::Number(lon)),
    ensures
        location_of(doc) == Ok::<(Seq<char>, Seq<char>), FetchError>((lat.decimal@, lon.decimal@)),
{
}

proof fn lemma_prefix_periods(items: Seq<Json>, n: nat)
    requires
        n <= items.len(),
        periods_prefix(items, n) is Ok,
    ensures
        periods_prefix(items, n)->Ok_0.len() == n,
        forall|i: int|
            0 <= i < n ==> period_of(#[trigger] items[i]) == Ok::<(Seq<char>, u64), FetchError>(
                periods_prefix(items, n)->Ok_0[i],
            ),
    decreases n,
{
    if n > 0 {
        lemma_prefix_periods(items, (n - 1) as nat);
    }
}

/// A forecast document whose `periods` array has N entries gives N periods,
/// the i-th decoded from the i-th entry: none is dropped, added or moved.
pub proof fn lemma_forecast_keeps_periods(doc: Json, items: Seq<Json>)
    requires
        properties_of(doc) is Ok,
        field(properties_of(doc)->Ok_0, "periods"@) matches Some(Json::Array(v)) && v@ == items,
        forecast_of(doc) is Ok,
    ensures
        forecast_of(doc)->Ok_0.len() == items.len(),
        forall|i: int|
            0 <= i < items.len() ==> period_of(#[trigger] items[i]) == Ok::<(Seq<char>, u64), FetchError>(
                forecast_of(doc)->Ok_0[i],
            ),
{
    lemma_prefix_periods(items, items.len());
}

/// A period with a string `name` and no `probabilityOfPrecipitation` is kept,
/// with a chance of rain of 0.
pub proof fn lemma_absent_chance_is_zero(period: Json, name: String)
    requires
        field(period, "name"@) == Some(Json::Str(name)),
        field(period, "probabilityOfPrecipitation"@) is None,
    ensures
        period_of(period) == Ok::<(Seq<char>, u64), FetchError>((name@, 0u64)),
{
}

/// A run depends on the responses alone: handed the same responses, it
/// asks for the same addresses and ends with the same report or failure.
pub proof fn lemma_rerun_is_identical(
    a: Seq<Result<Json, FetchError>>,
    b: Seq<Result<Json, FetchError>>,
)
    requires
        a == b,
    ensures
        run_from(LookupView::AwaitingIp, a) == run_from(LookupView::AwaitingIp, b),
{
}

/// An IP echo response without `ip` ends the run at once with a missing
/// field, whatever responses would have followed.
pub proof fn lemma_missing_ip_aborts(doc: Json, rest: Seq<Result<Json, FetchError>>)
    requires
        field(doc, "ip"@) is None,
    ensures
        run_from(LookupView::AwaitingIp, seq![Ok::<Json, FetchError>(doc)] + rest) == seq![
            ActionView::Abort(
                PipelineError { stage: Stage::IpLookup, error: FetchError::FieldMissing(Field::Ip) },
            ),
        ],
{
    let all = seq![Ok::<Json, FetchError>(doc)] + rest;
    assert(all[0] == Ok::<Json, FetchError>(doc));
    let (next, action) = step(LookupView::AwaitingIp, all[0]);
    assert(next is Finished);
    assert(run_from(next, all.drop_first()) == Seq::<ActionView>::empty());
    assert(run_from(LookupView::AwaitingIp, all) =~= seq![action]);
}

} // verus!
