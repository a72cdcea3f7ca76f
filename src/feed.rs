//! Feed endpoints, the error taxonomy, and the change-detection watermark that decides
//! whether a freshly fetched message is new.
use vstd::prelude::*;

verus! {

/// The category of real-time data that a feed endpoint serves.
#[derive(Debug, Clone, Copy, PartialEq, Eq, Structural)]
pub enum FeedType {
    TripUpdate,
    VehiclePosition,
    Alert,
}

/// The quoted name by which messages refer to a feed kind.
pub open spec fn feed_label(kind: FeedType) -> Seq<char> {
    match kind {
        FeedType::TripUpdate => "\"Trip Update\""@,
        FeedType::VehiclePosition => "\"Vehicle Position\""@,
        FeedType::Alert => "\"Alert\""@,
    }
}

impl FeedType {
    /// The quoted name of this kind, as error messages print it.
    pub fn label(&self) -> (r: &'static str)
        ensures
            r@ == feed_label(*self),
    {
        match self {
            FeedType::TripUpdate => "\"Trip Update\"",
            FeedType::VehiclePosition => "\"Vehicle Position\"",
            FeedType::Alert => "\"Alert\"",
        }
    }
}

/// Relies on prost's decode error only as an opaque value carried inside `GtfsRtError`.
#[verifier::external_type_specification]
#[verifier::external_body]
pub struct ExDecodeError(prost::DecodeError);

/// Relies on reqwest's error only as an opaque value carried inside `GtfsRtError`.
#[verifier::external_type_specification]
#[verifier::external_body]
pub struct ExTransportError(reqwest::Error);

/// Everything that fetching a feed or resolving the nearest entity can fail with.
#[derive(Debug)]
pub enum GtfsRtError {
    /// The response body is not a valid encoded feed message.
    ProtobufDecodeError(prost::DecodeError),
    /// The HTTP request or the reading of its body failed.
    DownloadError(reqwest::Error),
    /// No endpoint is configured for the requested feed kind.
    MissingFeed(FeedType),
    /// No entity of the list carries a position.
    NoEntityFound,
}

impl From<reqwest::Error> for GtfsRtError {
    fn from(e: reqwest::Error) -> (r: GtfsRtError)
        ensures
            r == GtfsRtError::DownloadError(e),
    {
        GtfsRtError::DownloadError(e)
    }
}

impl vstd::std_specs::convert::FromSpecImpl<reqwest::Error> for GtfsRtError {
    open spec fn obeys_from_spec() -> bool {
        true
    }

    open spec fn from_spec(e: reqwest::Error) -> GtfsRtError {
        GtfsRtError::DownloadError(e)
    }
}

impl From<prost::DecodeError> for GtfsRtError {
    fn from(e: prost::DecodeError) -> (r: GtfsRtError)
        ensures
            r == GtfsRtError::ProtobufDecodeError(e),
    {
        GtfsRtError::ProtobufDecodeError(e)
    }
}

impl vstd::std_specs::convert::FromSpecImpl<prost::DecodeError> for GtfsRtError {
    open spec fn obeys_from_spec() -> bool {
        true
    }

    open spec fn from_spec(e: prost::DecodeError) -> GtfsRtError {
        GtfsRtError::ProtobufDecodeError(e)
    }
}

/// Seconds to wait before fetching again when the feed has not advanced.
pub const RETRY_DELAY_SECS: u64 = 5;

/// What a poll should do with a message that was just fetched and decoded.
#[derive(Debug, Clone, Copy, PartialEq, Eq, Structural)]
pub enum PollOutcome {
    /// The message is new: hand it to the caller.
    Deliver,
    /// The message is not newer than the watermark: wait, then fetch again.
    WaitAndRetry,
}

/// Whether a message whose header carries `timestamp` counts as new against `watermark`.
/// A message without a timestamp is always new: the producer offers no change detection.
pub open spec fn is_fresh(watermark: u64, timestamp: Option<u64>) -> bool {
    match timestamp {
        None => true,
        Some(t) => t > watermark,
    }
}

/// The watermark after observing a message whose header carries `timestamp`.
pub open spec fn advance(watermark: u64, timestamp: Option<u64>) -> u64 {
    match timestamp {
        Some(t) => if t > watermark { t } else { watermark },
        None => watermark,
    }
}

/// The watermark after observing, in order, messages whose header timestamps are `ts`.
pub open spec fn watermark_after(w: u64, ts: Seq<Option<u64>>) -> u64
    decreases ts.len(),
{
    if ts.len() == 0 {
        w
    } else {
        advance(watermark_after(w, ts.drop_last()), ts.last())
    }
}

/// A message without a timestamp is delivered on the attempt that fetched it, and leaves
/// the watermark where it was.
pub proof fn lemma_untimed_delivered_at_once(w: u64)
    ensures
        is_fresh(w, None),
        advance(w, None) == w,
{
}

/// Over any sequence of observations the watermark never decreases: the watermark after
/// the first `i` observations is at most the one after the first `j`, for `i <= j`.
pub proof fn lemma_watermark_monotone(w: u64, ts: Seq<Option<u64>>, i: int, j: int)
    requires
        0 <= i <= j <= ts.len(),
    ensures
        watermark_after(w, ts.take(i)) <= watermark_after(w, ts.take(j)),
    decreases j - i,
{
    if i < j {
        lemma_watermark_monotone(w, ts, i, j - 1);
        assert(ts.take(j).drop_last() =~= ts.take(j - 1));
    }
}

/// Over any sequence of observations, a message whose timestamp does not exceed the
/// watermark in force when it arrives is not delivered, and leaves the watermark as it
/// was; a message that is delivered with a timestamp becomes the new watermark.
pub proof fn lemma_stale_never_delivered(w: u64, ts: Seq<Option<u64>>, i: int)
    requires
        0 <= i < ts.len(),
    ensures
        ts[i] is Some && ts[i]->Some_0 <= watermark_after(w, ts.take(i)) ==> !is_fresh(
            watermark_after(w, ts.take(i)),
            ts[i],
        ) && watermark_after(w, ts.take(i + 1)) == watermark_after(w, ts.take(i)),
        ts[i] is Some && is_fresh(watermark_after(w, ts.take(i)), ts[i]) ==> ts[i]->Some_0
            == watermark_after(w, ts.take(i + 1)) && watermark_after(w, ts.take(i))
            < ts[i]->Some_0,
{
    assert(ts.take(i + 1).drop_last() =~= ts.take(i));
}

pub open spec fn opt_view(o: Option<String>) -> Option<Seq<char>> {
    match o {
        Some(s) => Some(s@),
        None => None,
    }
}

/// The abstract state of a feed source: one optional endpoint per feed kind and the
/// highest header timestamp delivered so far.
pub struct GtfsRtView {
    pub trip_updates_url: Option<Seq<char>>,
    pub vehicle_positions_url: Option<Seq<char>>,
    pub alerts_url: Option<Seq<char>>,
    pub latest_timestamp: u64,
}

impl GtfsRtView {
    pub open spec fn endpoint(self, kind: FeedType) -> Option<Seq<char>> {
        match kind {
            FeedType::TripUpdate => self.trip_updates_url,
            FeedType::VehiclePosition => self.vehicle_positions_url,
            FeedType::Alert => self.alerts_url,
        }
    }

    /// The same endpoints with the watermark moved on by one observation.
    pub open spec fn observed(self, timestamp: Option<u64>) -> GtfsRtView {
        GtfsRtView { latest_timestamp: advance(self.latest_timestamp, timestamp), ..self }
    }
}

/// The state after observing, in order, messages whose header timestamps are `ts`.
pub open spec fn observed_all(v: GtfsRtView, ts: Seq<Option<u64>>) -> GtfsRtView
    decreases ts.len(),
{
    if ts.len() == 0 {
        v
    } else {
        observed_all(v, ts.drop_last()).observed(ts.last())
    }
}

/// Observations move only the watermark: after any sequence of them every endpoint is as it
/// was, so a kind without an endpoint is refused with `MissingFeed` on every later fetch,
/// and the watermark is the one that `watermark_after` gives.
pub proof fn lemma_observations_keep_endpoints(v: GtfsRtView, ts: Seq<Option<u64>>, kind: FeedType)
    ensures
        observed_all(v, ts).endpoint(kind) == v.endpoint(kind),
        observed_all(v, ts).latest_timestamp == watermark_after(v.latest_timestamp, ts),
    decreases ts.len(),
{
    if ts.len() > 0 {
        lemma_observations_keep_endpoints(v, ts.drop_last(), kind);
    }
}

/// A subscription to a real-time feed: up to three endpoints and a change-detection
/// watermark that starts at zero and never decreases.
pub struct GtfsRt {
    trip_updates_url: Option<String>,
    vehicle_positions_url: Option<String>,
    alerts_url: Option<String>,
    latest_timestamp: u64,
}

impl View for GtfsRt {
    type V = GtfsRtView;

    closed spec fn view(&self) -> GtfsRtView {
        GtfsRtView {
            trip_updates_url: opt_view(self.trip_updates_url),
            vehicle_positions_url: opt_view(self.vehicle_positions_url),
            alerts_url: opt_view(self.alerts_url),
            latest_timestamp: self.latest_timestamp,
        }
    }
}

fn owned_url(url: Option<&str>) -> (r: Option<String>)
    ensures
        r is Some <==> url is Some,
        r is Some ==> r->Some_0@ == url->Some_0@,
{
    match url {
        Some(s) => Some(s.to_owned()),
        None => None,
    }
}

impl GtfsRt {
    /// A source whose single endpoint is taken to serve vehicle positions.
    pub fn new_single_url(rt_url: &str) -> (r: GtfsRt)
        ensures
            r@ == (GtfsRtView {
                trip_updates_url: None,
                vehicle_positions_url: Some(rt_url@),
                alerts_url: None,
                latest_timestamp: 0,
            }),
    {
        GtfsRt {
            trip_updates_url: None,
            vehicle_positions_url: Some(rt_url.to_owned()),
            alerts_url: None,
            latest_timestamp: 0,
        }
    }

    /// A source with all three endpoints configured.
    pub fn new(trip_updates_url: &str, vehicle_positions_url: &str, alerts_url: &str) -> (r: GtfsRt)
        ensures
            r@ == (GtfsRtView {
                trip_updates_url: Some(trip_updates_url@),
                vehicle_positions_url: Some(vehicle_positions_url@),
                alerts_url: Some(alerts_url@),
                latest_timestamp: 0,
            }),
    {
        GtfsRt {
            trip_updates_url: Some(trip_updates_url.to_owned()),
            vehicle_positions_url: Some(vehicle_positions_url.to_owned()),
            alerts_url: Some(alerts_url.to_owned()),
            latest_timestamp: 0,
        }
    }

    /// A source with any combination of endpoints configured.
    pub fn new_optional(
        trip_updates_url: Option<&str>,
        vehicle_positions_url: Option<&str>,
        alerts_url: Option<&str>,
    ) -> (r: GtfsRt)
        ensures
            r@.trip_updates_url == (match trip_updates_url {
                Some(s) => Some(s@),
                None => None::<Seq<char>>,
            }),
            r@.vehicle_positions_url == (match vehicle_positions_url {
                Some(s) => Some(s@),
                None => None::<Seq<char>>,
            }),
            r@.alerts_url == (match alerts_url {
                Some(s) => Some(s@),
                None => None::<Seq<char>>,
            }),
            r@.latest_timestamp == 0,
    {
        GtfsRt {
            trip_updates_url: owned_url(trip_updates_url),
            vehicle_positions_url: owned_url(vehicle_positions_url),
            alerts_url: owned_url(alerts_url),
            latest_timestamp: 0,
        }
    }

    /// The change-detection watermark: the highest header timestamp delivered so far.
    pub fn latest_timestamp(&self) -> (r: u64)
        ensures
            r == self@.latest_timestamp,
    {
        self.latest_timestamp
    }

    /// The endpoint to fetch for `kind`, or `MissingFeed(kind)` when none is configured.
    /// Every fetch, one-off or inside the change-detection loop, starts here, so a kind
    /// without an endpoint never reaches the network.
    pub fn feed_url(&self, kind: FeedType) -> (r: Result<&str, GtfsRtError>)
        ensures
            self@.endpoint(kind) is None ==> r == Err::<&str, GtfsRtError>(
                GtfsRtError::MissingFeed(kind),
            ),
            self@.endpoint(kind) is Some ==> r is Ok && r->Ok_0@ == self@.endpoint(kind)->Some_0,
    {
        let url = match kind {
            FeedType::TripUpdate => &self.trip_updates_url,
            FeedType::VehiclePosition => &self.vehicle_positions_url,
            FeedType::Alert => &self.alerts_url,
        };
        match url {
            Some(u) => Ok(u.as_str()),
            None => Err(GtfsRtError::MissingFeed(kind)),
        }
    }

    /// Records a freshly decoded message's header timestamp and decides whether the
    /// message is new. A timestamp above the watermark raises the watermark to it; a
    /// message without a timestamp is delivered and leaves the watermark alone.
    pub fn observe(&mut self, timestamp: Option<u64>) -> (r: PollOutcome)
        ensures
            final(self)@ == old(self)@.observed(timestamp),
            r == (if is_fresh(old(self)@.latest_timestamp, timestamp) {
                PollOutcome::Deliver
            } else {
                PollOutcome::WaitAndRetry
            }),
            old(self)@.latest_timestamp <= final(self)@.latest_timestamp,
    {
        match timestamp {
            None => PollOutcome::Deliver,
            Some(t) => {
                if t > self.latest_timestamp {
                    self.latest_timestamp = t;
                    PollOutcome::Deliver
                } else {
                    PollOutcome::WaitAndRetry
                }
            },
        }
    }
}

} // verus!
