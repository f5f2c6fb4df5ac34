use vstd::prelude::*;

use crate::decode::{
    forecast_document_url, forecast_of, forecast_url_of, location_of, own_ip, periods_view,
    resolve_forecast, resolve_location, resolve_own_ip, Coordinates, FetchError, ForecastPeriod,
};
use crate::json::Json;

verus! {

/// The lookup that a request or a failure belongs to.
#[derive(Clone, Copy, Debug, PartialEq, Eq, Structural)]
pub enum Stage {
    IpLookup,
    Geolocation,
    ForecastMetadata,
    ForecastDocument,
}

/// A failure that ended the run: where, and why.
#[derive(Clone, Copy, Debug, PartialEq, Eq, Structural)]
pub struct PipelineError {
    pub stage: Stage,
    pub error: FetchError,
}

/// What a finished run found.
#[derive(Debug)]
pub struct Report {
    pub ip: String,
    pub location: Coordinates,
    pub forecast: Vec<ForecastPeriod>,
}

/// The abstract content of a report: address, position and periods.
pub type ReportView = (Seq<char>, (Seq<char>, Seq<char>), Seq<(Seq<char>, u64)>);

impl View for Report {
    type V = ReportView;

    open spec fn view(&self) -> ReportView {
        (self.ip@, self.location@, periods_view(self.forecast@))
    }
}

/// How far a run has come, and what it has learnt so far.
#[derive(Debug)]
pub enum Lookup {
    AwaitingIp,
    AwaitingLocation { ip: String },
    AwaitingPoints { ip: String, location: Coordinates },
    AwaitingForecast { ip: String, location: Coordinates },
    Finished,
}

/// What the caller is to do next.
#[derive(Debug)]
pub enum Action {
    /// Fetch this address and hand the parsed body, or the failure, to `advance`.
    Get(String),
    /// The run is over, with this report.
    Finish(Report),
    /// The run is over: a lookup failed.
    Abort(PipelineError),
}

/// The abstract state of a run.
pub enum LookupView {
    AwaitingIp,
    AwaitingLocation(Seq<char>),
    AwaitingPoints(Seq<char>, (Seq<char>, Seq<char>)),
    AwaitingForecast(Seq<char>, (Seq<char>, Seq<char>)),
    Finished,
}

/// The abstract content of an action.
pub enum ActionView {
    Get(Seq<char>),
    Finish(ReportView),
    Abort(PipelineError),
}

impl View for Lookup {
    type V = LookupView;

    open spec fn view(&self) -> LookupView {
        match self {
            Lookup::AwaitingIp => LookupView::AwaitingIp,
            Lookup::AwaitingLocation { ip } => LookupView::AwaitingLocation(ip@),
            Lookup::AwaitingPoints { ip, location } => LookupView::AwaitingPoints(ip@, location@),
            Lookup::AwaitingForecast { ip, location } => LookupView::AwaitingForecast(
                ip@,
                location@,
            ),
            Lookup::Finished => LookupView::Finished,
        }
    }
}

impl View for Action {
    type V = ActionView;

    open spec fn view(&self) -> ActionView {
        match self {
            Action::Get(url) => ActionView::Get(url@),
            Action::Finish(r) => ActionView::Finish(r@),
            Action::Abort(e) => ActionView::Abort(*e),
        }
    }
}

/// The IP echo service, asked for a JSON answer.
pub open spec fn ip_echo_url_text() -> Seq<char> {
    "https://api.ipify.org?format=json"@
}

/// The geolocation service's entry for `ip`.
pub open spec fn location_url_of(ip: Seq<char>) -> Seq<char> {
    "http://ip-api.com/json/"@ + ip
}

/// The weather service's metadata for a position, `<lat>,<lon>`.
pub open spec fn points_url_of(c: (Seq<char>, Seq<char>)) -> Seq<char> {
    "https://api.weather.gov/points/"@ + c.0 + ","@ + c.1
}

/// The state and action that end a run on a failure.
pub open spec fn failed(stage: Stage, error: FetchError) -> (LookupView, ActionView) {
    (LookupView::Finished, ActionView::Abort(PipelineError { stage, error }))
}

/// One step of a run: from its state and the response to its last request,
/// the next state and what to do. A finished run takes no more steps
/// (`advance` is never called on one); its arm here only keeps the function total.
pub open spec fn step(s: LookupView, response: Result<Json, FetchError>) -> (LookupView, ActionView) {
    match s {
        LookupView::AwaitingIp => match response {
            Err(e) => failed(Stage::IpLookup, e),
            Ok(doc) => match own_ip(doc) {
                Err(e) => failed(Stage::IpLookup, e),
                Ok(ip) => (LookupView::AwaitingLocation(ip), ActionView::Get(location_url_of(ip))),
            },
        },
        LookupView::AwaitingLocation(ip) => match response {
            Err(e) => failed(Stage::Geolocation, e),
            Ok(doc) => match location_of(doc) {
                Err(e) => failed(Stage::Geolocation, e),
                Ok(c) => (LookupView::AwaitingPoints(ip, c), ActionView::Get(points_url_of(c))),
            },
        },
        LookupView::AwaitingPoints(ip, c) => match response {
            Err(e) => failed(Stage::ForecastMetadata, e),
            Ok(doc) => match forecast_url_of(doc) {
                Err(e) => failed(Stage::ForecastMetadata, e),
                Ok(url) => (LookupView::AwaitingForecast(ip, c), ActionView::Get(url)),
            },
        },
        LookupView::AwaitingForecast(ip, c) => match response {
            Err(e) => failed(Stage::ForecastDocument, e),
            Ok(doc) => match forecast_of(doc) {
                Err(e) => failed(Stage::ForecastDocument, e),
                Ok(periods) => (LookupView::Finished, ActionView::Finish((ip, c, periods))),
            },
        },
        LookupView::Finished => (LookupView::Finished, ActionView::Abort(
            PipelineError { stage: Stage::ForecastDocument, error: FetchError::Network },
        )),
    }
}

/// The actions of a run from state `s` that is handed `responses` in turn;
/// it stops at the first action that ends the run.
pub open spec fn run_from(s: LookupView, responses: Seq<Result<Json, FetchError>>) -> Seq<ActionView>
    decreases responses.len(),
{
    if responses.len() == 0 || s is Finished {
        Seq::empty()
    } else {
        let (next, action) = step(s, responses[0]);
        seq![action] + run_from(next, responses.drop_first())
    }
}

fn text(s: &str) -> (r: String)
    ensures
        r@ == s@,
{
    String::from_str(s)
}

/// The address of the IP echo service.
pub fn ip_echo_url() -> (r: String)
    ensures
        r@ == ip_echo_url_text(),
{
    text("https://api.ipify.org?format=json")
}

/// The address of the geolocation entry for `ip`.
pub fn location_url(ip: &str) -> (r: String)
    ensures
        r@ == location_url_of(ip@),
{
    text("http://ip-api.com/json/").concat(ip)
}

/// The address of the weather metadata for a position.
pub fn points_url(c: &Coordinates) -> (r: String)
    ensures
        r@ == points_url_of(c@),
{
    let r = text("https://api.weather.gov/points/").concat(c.latitude.as_str()).concat(",").concat(
        c.longitude.as_str(),
    );
    proof {
        assert(r@ =~= points_url_of(c@));
    }
    r
}

fn abort(stage: Stage, error: FetchError) -> (r: (Lookup, Action))
    ensures
        (r.0@, r.1@) == failed(stage, error),
{
    (Lookup::Finished, Action::Abort(PipelineError { stage, error }))
}

impl Lookup {
    /// A new run, and its first request: the IP echo service.
    pub fn start() -> (r: (Lookup, String))
        ensures
            r.0@ == LookupView::AwaitingIp,
            r.1@ == ip_echo_url_text(),
    {
        (Lookup::AwaitingIp, ip_echo_url())
    }

    /// Whether the run is over.
    pub fn is_finished(&self) -> (r: bool)
        ensures
            r == (self@ is Finished),
    {
        match self {
            Lookup::Finished => true,
            _ => false,
        }
    }

    /// The next step of the run, given the response to its last request:
    /// the parsed body, or the failure that stood in its way.
    pub fn advance(self, response: &Result<Json, FetchError>) -> (r: (Lookup, Action))
        requires
            !(self@ is Finished),
        ensures
            (r.0@, r.1@) == step(self@, *response),
    {
        match self {
            Lookup::AwaitingIp => {
                let doc = match response {
                    Ok(doc) => doc,
                    Err(e) => return abort(Stage::IpLookup, *e),
                };
                match resolve_own_ip(doc) {
                    Ok(ip) => {
                        let url = location_url(ip.as_str());
                        (Lookup::AwaitingLocation { ip }, Action::Get(url))
                    },
                    Err(e) => abort(Stage::IpLookup, e),
                }
            },
            Lookup::AwaitingLocation { ip } => {
                let doc = match response {
                    Ok(doc) => doc,
                    Err(e) => return abort(Stage::Geolocation, *e),
                };
                match resolve_location(doc) {
                    Ok(location) => {
                        let url = points_url(&location);
                        (Lookup::AwaitingPoints { ip, location }, Action::Get(url))
                    },
                    Err(e) => abort(Stage::Geolocation, e),
                }
            },
            Lookup::AwaitingPoints { ip, location } => {
                let doc = match response {
                    Ok(doc) => doc,
                    Err(e) => return abort(Stage::ForecastMetadata, *e),
                };
                match forecast_document_url(doc) {
                    Ok(url) => (Lookup::AwaitingForecast { ip, location }, Action::Get(url)),
                    Err(e) => abort(Stage::ForecastMetadata, e),
                }
            },
            Lookup::AwaitingForecast { ip, location } => {
                let doc = match response {
                    Ok(doc) => doc,
                    Err(e) => return abort(Stage::ForecastDocument, *e),
                };
                match resolve_forecast(doc) {
                    Ok(forecast) => (
                        Lookup::Finished,
                        Action::Finish(Report { ip, location, forecast }),
                    ),
                    Err(e) => abort(Stage::ForecastDocument, e),
                }
            },
            Lookup::Finished => abort(Stage::ForecastDocument, FetchError::Network),
        }
    }
}

} // verus!
