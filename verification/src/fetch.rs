//! What a client does around one upstream request: consult the cache, fetch
//! on a miss, store what came, and never let the cache fail the request.

use vstd::prelude::*;
use vstd::string::*;
use crate::client::{authorization_text, url_text, ExchangeRateClient};
use crate::text::text_of;
use crate::entry::{declared, declared_instant, expiry_with_source, source_expiry};
use crate::error::CacheError;
use crate::key::{cache_key, create_cache_key, texts};
use crate::time::{Timestamp, CODES_TTL_SECS, DEFAULT_TTL_SECS};

verus! {

/// The three things a client asks the service for.
#[derive(Debug, Clone, Copy, PartialEq, Eq, Structural)]
pub enum Endpoint {
    /// The table of rates for a base currency.
    Latest,
    /// The rate between two currencies.
    Pair,
    /// The list of supported currency codes.
    Codes,
}

/// The two shapes of a stored payload.
#[derive(Debug, Clone, Copy, PartialEq, Eq, Structural)]
pub enum PayloadKind {
    /// A serialized table of rates.
    Typed,
    /// Any other serialized answer.
    Raw,
}

impl Endpoint {
    /// The endpoint's name in URLs and in cache keys.
    pub open spec fn name_text(self) -> Seq<char> {
        match self {
            Endpoint::Latest => "latest"@,
            Endpoint::Pair => "pair"@,
            Endpoint::Codes => "codes"@,
        }
    }

    /// The shape in which the endpoint's answers are stored.
    pub open spec fn stored_as(self) -> PayloadKind {
        match self {
            Endpoint::Latest => PayloadKind::Typed,
            _ => PayloadKind::Raw,
        }
    }

    /// The endpoint's name in URLs and in cache keys.
    pub fn name(&self) -> (s: &'static str)
        ensures
            s@ == self.name_text(),
    {
        match self {
            Endpoint::Latest => "latest",
            Endpoint::Pair => "pair",
            Endpoint::Codes => "codes",
        }
    }

    /// The shape in which the endpoint's answers are stored.
    pub fn payload_kind(&self) -> (k: PayloadKind)
        ensures
            k == self.stored_as(),
    {
        match self {
            Endpoint::Latest => PayloadKind::Typed,
            _ => PayloadKind::Raw,
        }
    }
}

/// When an answer fetched at `now` expires. A table of rates lives until the
/// source's next update, and for 24 hours where the source declares none; a
/// pair rate lives for the configured time; the list of codes lives a week.
pub open spec fn expiry_of(
    endpoint: Endpoint,
    default_ttl: i64,
    next_update_unix: u64,
    now: Timestamp,
) -> Timestamp {
    match endpoint {
        Endpoint::Latest => expiry_with_source(declared_instant(next_update_unix), now),
        Endpoint::Pair => now.shifted(default_ttl as int),
        Endpoint::Codes => now.shifted(CODES_TTL_SECS as int),
    }
}

/// The expiry of an answer fetched at `now` is an instant that can be written down.
pub open spec fn expiry_fits(
    endpoint: Endpoint,
    default_ttl: i64,
    next_update_unix: u64,
    now: Timestamp,
) -> bool {
    match endpoint {
        Endpoint::Latest => declared_instant(next_update_unix) is Some || now.secs
            + DEFAULT_TTL_SECS <= i64::MAX,
        Endpoint::Pair => i64::MIN <= now.secs + default_ttl <= i64::MAX,
        Endpoint::Codes => now.secs + CODES_TTL_SECS <= i64::MAX,
    }
}

/// Whether the expiry of an answer fetched at `now` is an instant that can be written down.
pub fn can_expire(endpoint: Endpoint, default_ttl: i64, next_update_unix: u64, now: Timestamp) -> (r:
    bool)
    ensures
        r == expiry_fits(endpoint, default_ttl, next_update_unix, now),
{
    match endpoint {
        Endpoint::Latest => declared(next_update_unix).is_some() || now.secs.checked_add(
            DEFAULT_TTL_SECS,
        ).is_some(),
        Endpoint::Pair => now.secs.checked_add(default_ttl).is_some(),
        Endpoint::Codes => now.secs.checked_add(CODES_TTL_SECS).is_some(),
    }
}

/// When an answer fetched at `now` expires.
pub fn expiry_for(endpoint: Endpoint, default_ttl: i64, next_update_unix: u64, now: Timestamp) -> (t:
    Timestamp)
    requires
        expiry_fits(endpoint, default_ttl, next_update_unix, now),
    ensures
        t == expiry_of(endpoint, default_ttl, next_update_unix, now),
{
    match endpoint {
        Endpoint::Latest => source_expiry(declared(next_update_unix), now),
        Endpoint::Pair => now.plus_seconds(default_ttl),
        Endpoint::Codes => now.plus_seconds(CODES_TTL_SECS),
    }
}

/// Whether an HTTP status is a success: 200 to 299.
pub fn status_is_success(status: u16) -> (r: bool)
    ensures
        r == (200 <= status < 300),
{
    200 <= status && status < 300
}

/// What came of consulting the cache.
#[derive(Debug, Clone)]
pub enum CacheAnswer {
    /// A valid payload was read and decoded.
    Hit,
    /// A valid payload was read, but it could not be decoded; the reason.
    Unreadable(String),
    /// The backend gave no payload.
    Failed(CacheError),
}

/// What came of consulting the cache, as contracts see it.
pub ghost enum CacheAnswerView {
    Hit,
    Unreadable(Seq<char>),
    Failed(CacheError),
}

impl View for CacheAnswer {
    type V = CacheAnswerView;

    open spec fn view(&self) -> CacheAnswerView {
        match *self {
            CacheAnswer::Hit => CacheAnswerView::Hit,
            CacheAnswer::Unreadable(why) => CacheAnswerView::Unreadable(why@),
            CacheAnswer::Failed(e) => CacheAnswerView::Failed(e),
        }
    }
}

/// What came of consulting the cache, given what the backend answered and,
/// where it answered with a payload, whether the payload could be decoded:
/// `decoded` holds the reason where it could not. A table of rates that
/// cannot be decoded is a failure of the cache to serialize; any other
/// payload that cannot be decoded is unreadable.
pub fn answer_of(kind: PayloadKind, read: Result<(), CacheError>, decoded: Result<(), String>) -> (a:
    CacheAnswer)
    ensures
        a@ == (match read {
            Err(e) => CacheAnswerView::Failed(e),
            Ok(_) => match decoded {
                Ok(_) => CacheAnswerView::Hit,
                Err(why) => match kind {
                    PayloadKind::Typed => CacheAnswerView::Failed(CacheError::Serialization(why)),
                    PayloadKind::Raw => CacheAnswerView::Unreadable(why@),
                },
            },
        }),
{
    match read {
        Err(e) => CacheAnswer::Failed(e),
        Ok(_) => match decoded {
            Ok(_) => CacheAnswer::Hit,
            Err(why) => match kind {
                PayloadKind::Typed => CacheAnswer::Failed(CacheError::Serialization(why)),
                PayloadKind::Raw => CacheAnswer::Unreadable(why),
            },
        },
    }
}

/// What came of performing a step.
#[derive(Debug)]
pub enum Event {
    /// The cache was consulted.
    CacheRead(CacheAnswer),
    /// The service answered with this status.
    Answered(u16),
    /// The body of the answer was decoded at `now`: the payload as it is to
    /// be stored, or the reason why it could not be serialized, and the next
    /// update that a table of rates declares, 0 for none.
    BodyRead { serialized: Result<String, String>, next_update_unix: u64, now: Timestamp },
    /// The payload was written to the cache, or could not be.
    Stored(Result<(), CacheError>),
}

/// What the client does next.
#[derive(Debug, Clone)]
pub enum Step {
    /// Read `key` from the backend.
    ReadCache { key: String, kind: PayloadKind },
    /// Send the request upstream, after reporting what is there to report.
    Fetch { url: String, authorization: Option<String>, report: Option<String> },
    /// Read and decode the body of the answer.
    ReadBody,
    /// Write the fresh payload to the backend.
    Store {
        key: String,
        kind: PayloadKind,
        payload: String,
        cached_at: Timestamp,
        expires_at: Timestamp,
    },
    /// Hand the cached payload to the caller; nothing was sent.
    ReturnCached,
    /// Hand the fresh payload to the caller, after reporting what is there to report.
    ReturnFresh { report: Option<String> },
    /// Fail with the status the service answered.
    Fail { status: u16 },
}

/// A step as contracts see it.
pub ghost enum StepView {
    ReadCache { key: Seq<char>, kind: PayloadKind },
    Fetch { url: Seq<char>, authorization: Option<Seq<char>>, report: Option<Seq<char>> },
    ReadBody,
    Store {
        key: Seq<char>,
        kind: PayloadKind,
        payload: Seq<char>,
        cached_at: Timestamp,
        expires_at: Timestamp,
    },
    ReturnCached,
    ReturnFresh { report: Option<Seq<char>> },
    Fail { status: u16 },
}

impl View for Step {
    type V = StepView;

    open spec fn view(&self) -> StepView {
        match *self {
            Step::ReadCache { key, kind } => StepView::ReadCache { key: key@, kind },
            Step::Fetch { url, authorization, report } => StepView::Fetch {
                url: url@,
                authorization: text_of(authorization),
                report: text_of(report),
            },
            Step::ReadBody => StepView::ReadBody,
            Step::Store { key, kind, payload, cached_at, expires_at } => StepView::Store {
                key: key@,
                kind,
                payload: payload@,
                cached_at,
                expires_at,
            },
            Step::ReturnCached => StepView::ReturnCached,
            Step::ReturnFresh { report } => StepView::ReturnFresh { report: text_of(report) },
            Step::Fail { status } => StepView::Fail { status },
        }
    }
}

/// What is reported of a cache that gave no payload: nothing of a miss, the
/// error of anything else.
pub open spec fn cache_report(answer: CacheAnswer) -> Option<Seq<char>> {
    match answer {
        CacheAnswer::Hit => None,
        CacheAnswer::Unreadable(why) => Some("Failed to parse cached response: "@ + why@),
        CacheAnswer::Failed(e) => if e.is_miss() {
            None
        } else {
            Some("Cache error: "@ + e.message_text())
        },
    }
}

/// What is reported of a write to the cache: nothing of a success, the error of a failure.
pub open spec fn store_report(outcome: Result<(), CacheError>) -> Option<Seq<char>> {
    match outcome {
        Ok(_) => None,
        Err(e) => Some("Failed to cache response: "@ + e.message_text()),
    }
}

/// `event` is what comes of performing `pending`.
pub open spec fn awaits(pending: StepView, event: Event) -> bool {
    match event {
        Event::CacheRead(_) => pending is ReadCache,
        Event::Answered(_) => pending is Fetch,
        Event::BodyRead { .. } => pending is ReadBody,
        Event::Stored(_) => pending is Store,
    }
}

/// The most events that can still come after `step`.
pub open spec fn steps_left(step: StepView) -> nat {
    match step {
        StepView::ReadCache { .. } => 4,
        StepView::Fetch { .. } => 3,
        StepView::ReadBody => 2,
        StepView::Store { .. } => 1,
        _ => 0,
    }
}

/// The step after the service answered with `status`: the body is read after
/// a success, and the request fails with any other status.
pub open spec fn step_after_status(status: u16) -> StepView {
    if 200 <= status < 300 {
        StepView::ReadBody
    } else {
        StepView::Fail { status }
    }
}

/// The step after the write to the cache: the fresh payload is handed on.
pub open spec fn step_after_store(outcome: Result<(), CacheError>) -> StepView {
    StepView::ReturnFresh { report: store_report(outcome) }
}

impl<B> ExchangeRateClient<B> {
    /// The request that the client sends upstream for `endpoint` with `params`.
    pub open spec fn fetch_of(
        &self,
        endpoint: Endpoint,
        params: Seq<Seq<char>>,
        report: Option<Seq<char>>,
    ) -> StepView {
        StepView::Fetch {
            url: url_text(
                self.base_url@,
                self.api_key@,
                self.auth_method,
                endpoint.name_text(),
                params,
            ),
            authorization: authorization_text(self.auth_method, self.api_key@),
            report,
        }
    }

    /// The first step of a request.
    pub open spec fn first_step(&self, endpoint: Endpoint, params: Seq<Seq<char>>) -> StepView {
        if self.caches() {
            StepView::ReadCache {
                key: cache_key(endpoint.name_text(), params),
                kind: endpoint.stored_as(),
            }
        } else {
            self.fetch_of(endpoint, params, None)
        }
    }

    /// The step after the cache was consulted.
    pub open spec fn step_after_cache(
        &self,
        endpoint: Endpoint,
        params: Seq<Seq<char>>,
        answer: CacheAnswer,
    ) -> StepView {
        if answer is Hit {
            StepView::ReturnCached
        } else {
            self.fetch_of(endpoint, params, cache_report(answer))
        }
    }

    /// The step after the body of the answer was decoded at `now`.
    pub open spec fn step_after_body(
        &self,
        endpoint: Endpoint,
        params: Seq<Seq<char>>,
        serialized: Result<String, String>,
        next_update_unix: u64,
        now: Timestamp,
    ) -> StepView {
        if !self.caches() {
            StepView::ReturnFresh { report: None }
        } else {
            match serialized {
                Ok(payload) => StepView::Store {
                    key: cache_key(endpoint.name_text(), params),
                    kind: endpoint.stored_as(),
                    payload: payload@,
                    cached_at: now,
                    expires_at: expiry_of(
                        endpoint,
                        self.cache_config.default_ttl,
                        next_update_unix,
                        now,
                    ),
                },
                Err(why) => StepView::ReturnFresh {
                    report: Some("Failed to serialize response: "@ + why@),
                },
            }
        }
    }

    /// The cache never fails a request: whatever the cache answered, the
    /// client hands on a cached payload or goes on to fetch, and whatever
    /// came of storing a fresh payload, the client hands the payload on.
    pub proof fn lemma_cache_is_never_fatal(
        &self,
        endpoint: Endpoint,
        params: Seq<Seq<char>>,
        answer: CacheAnswer,
        outcome: Result<(), CacheError>,
    )
        ensures
            self.step_after_cache(endpoint, params, answer) is ReturnCached
                || self.step_after_cache(endpoint, params, answer) is Fetch,
            step_after_store(outcome) is ReturnFresh,
    {
    }

    /// A hit sends nothing upstream, and a miss is not reported: after
    /// `NotFound` or `Expired` the client fetches and reports nothing.
    pub proof fn lemma_hit_and_miss(&self, endpoint: Endpoint, params: Seq<Seq<char>>, e: CacheError)
        requires
            e.is_miss(),
        ensures
            self.step_after_cache(endpoint, params, CacheAnswer::Hit) == StepView::ReturnCached,
            self.step_after_cache(endpoint, params, CacheAnswer::Failed(e)) == self.fetch_of(
                endpoint,
                params,
                None,
            ),
    {
    }

    /// A client that does not cache neither reads nor writes a cache.
    pub proof fn lemma_disabled_cache_is_untouched(
        &self,
        endpoint: Endpoint,
        params: Seq<Seq<char>>,
        serialized: Result<String, String>,
        next_update_unix: u64,
        now: Timestamp,
    )
        requires
            !self.caches(),
        ensures
            self.first_step(endpoint, params) is Fetch,
            self.step_after_body(endpoint, params, serialized, next_update_unix, now)
                == (StepView::ReturnFresh { report: None }),
    {
    }

    fn fetch(&self, endpoint: Endpoint, params: &[&str], report: Option<String>) -> (step: Step)
        ensures
            step@ == self.fetch_of(endpoint, texts(params@), text_of(report)),
    {
        Step::Fetch {
            url: self.build_url(endpoint.name(), params),
            authorization: self.authorization(),
            report,
        }
    }

    /// The first step of a request: a client that caches reads the request's
    /// key from its backend, any other sends the request upstream.
    pub fn begin(&self, endpoint: Endpoint, params: &[&str]) -> (step: Step)
        ensures
            step@ == self.first_step(endpoint, texts(params@)),
    {
        if self.uses_cache() {
            Step::ReadCache {
                key: create_cache_key(endpoint.name(), params),
                kind: endpoint.payload_kind(),
            }
        } else {
            self.fetch(endpoint, params, None)
        }
    }

    /// The step after the cache was consulted: a hit is handed to the caller
    /// and nothing is sent; anything else sends the request upstream, and
    /// anything else than a miss is reported first.
    pub fn after_cache(&self, endpoint: Endpoint, params: &[&str], answer: CacheAnswer) -> (step:
        Step)
        ensures
            step@ == self.step_after_cache(endpoint, texts(params@), answer),
    {
        match answer {
            CacheAnswer::Hit => Step::ReturnCached,
            CacheAnswer::Unreadable(why) => {
                let report = String::from_str("Failed to parse cached response: ").concat(
                    why.as_str(),
                );
                self.fetch(endpoint, params, Some(report))
            },
            CacheAnswer::Failed(e) => {
                let report = match e {
                    CacheError::NotFound => None,
                    CacheError::Expired => None,
                    _ => {
                        let text = e.message();
                        Some(String::from_str("Cache error: ").concat(text.as_str()))
                    },
                };
                self.fetch(endpoint, params, report)
            },
        }
    }

    /// The step after the service answered with `status`: the body is read
    /// after a success, and the request fails with any other status.
    pub fn after_status(&self, status: u16) -> (step: Step)
        ensures
            step@ == step_after_status(status),
    {
        if status_is_success(status) {
            Step::ReadBody
        } else {
            Step::Fail { status }
        }
    }

    /// The step after the body was decoded at `now`. `serialized` is the
    /// payload as it is to be stored, or the reason why it could not be
    /// serialized; `next_update_unix` is the next update that a table of
    /// rates declares, 0 for none. A client that caches stores the payload
    /// under the request's key with the endpoint's expiry; a payload that
    /// could not be serialized is reported and handed on; a client that does
    /// not cache hands the payload on.
    pub fn after_body(
        &self,
        endpoint: Endpoint,
        params: &[&str],
        serialized: Result<String, String>,
        next_update_unix: u64,
        now: Timestamp,
    ) -> (step: Step)
        requires
            self.caches() && serialized is Ok ==> expiry_fits(
                endpoint,
                self.cache_config.default_ttl,
                next_update_unix,
                now,
            ),
        ensures
            step@ == self.step_after_body(
                endpoint,
                texts(params@),
                serialized,
                next_update_unix,
                now,
            ),
    {
        if !self.uses_cache() {
            return Step::ReturnFresh { report: None };
        }
        match serialized {
            Ok(payload) => Step::Store {
                key: create_cache_key(endpoint.name(), params),
                kind: endpoint.payload_kind(),
                payload,
                cached_at: now,
                expires_at: expiry_for(
                    endpoint,
                    self.cache_config.default_ttl,
                    next_update_unix,
                    now,
                ),
            },
            Err(why) => Step::ReturnFresh {
                report: Some(
                    String::from_str("Failed to serialize response: ").concat(why.as_str()),
                ),
            },
        }
    }

    /// The step after the write to the cache: the fresh payload is handed to
    /// the caller whether or not the write succeeded; a failure is reported.
    pub fn after_store(&self, outcome: Result<(), CacheError>) -> (step: Step)
        ensures
            step@ == step_after_store(outcome),
    {
        match outcome {
            Ok(_) => Step::ReturnFresh { report: None },
            Err(e) => {
                let text = e.message();
                Step::ReturnFresh {
                    report: Some(
                        String::from_str("Failed to cache response: ").concat(text.as_str()),
                    ),
                }
            },
        }
    }

    /// The step after `event`.
    pub open spec fn step_after(
        &self,
        endpoint: Endpoint,
        params: Seq<Seq<char>>,
        event: Event,
    ) -> StepView {
        match event {
            Event::CacheRead(answer) => self.step_after_cache(endpoint, params, answer),
            Event::Answered(status) => step_after_status(status),
            Event::BodyRead { serialized, next_update_unix, now } => self.step_after_body(
                endpoint,
                params,
                serialized,
                next_update_unix,
                now,
            ),
            Event::Stored(outcome) => step_after_store(outcome),
        }
    }

    /// The step after `event` came of performing `pending`; none where
    /// `pending` is not the step that `event` comes of.
    pub fn advance(&self, endpoint: Endpoint, params: &[&str], pending: &Step, event: Event) -> (next:
        Option<Step>)
        requires
            self.caches() && awaits(pending@, event) ==> match event {
                Event::BodyRead { serialized, next_update_unix, now } => serialized is Ok
                    ==> expiry_fits(endpoint, self.cache_config.default_ttl, next_update_unix, now),
                _ => true,
            },
        ensures
            match next {
                Some(step) => awaits(pending@, event) && step@ == self.step_after(
                    endpoint,
                    texts(params@),
                    event,
                ),
                None => !awaits(pending@, event),
            },
    {
        match (pending, event) {
            (Step::ReadCache { .. }, Event::CacheRead(answer)) => Some(
                self.after_cache(endpoint, params, answer),
            ),
            (Step::Fetch { .. }, Event::Answered(status)) => Some(self.after_status(status)),
            (Step::ReadBody, Event::BodyRead { serialized, next_update_unix, now }) => Some(
                self.after_body(endpoint, params, serialized, next_update_unix, now),
            ),
            (Step::Store { .. }, Event::Stored(outcome)) => Some(self.after_store(outcome)),
            _ => None,
        }
    }

    /// A request goes one way: the cache is read before anything is sent, the
    /// body is read after the answer, the payload is stored after the body,
    /// and every step is nearer to the end than the one before. A request
    /// therefore ends after four events at most.
    pub proof fn lemma_steps_go_forward(
        &self,
        endpoint: Endpoint,
        params: Seq<Seq<char>>,
        pending: StepView,
        event: Event,
    )
        requires
            awaits(pending, event),
        ensures
            steps_left(self.step_after(endpoint, params, event)) < steps_left(pending),
            steps_left(self.first_step(endpoint, params)) <= 4,
    {
    }

    /// Only the service fails a request: a request fails only after the
    /// service answered with a status that is no success, and with that status.
    pub proof fn lemma_only_the_service_fails(
        &self,
        endpoint: Endpoint,
        params: Seq<Seq<char>>,
        event: Event,
    )
        requires
            self.step_after(endpoint, params, event) is Fail,
        ensures
            event is Answered,
            !(200 <= event->Answered_0 < 300),
            self.step_after(endpoint, params, event) == (StepView::Fail {
                status: event->Answered_0,
            }),
            !(self.first_step(endpoint, params) is Fail),
    {
    }
}

/// The pairs of code and name among `rows`: of each row with two or more
/// texts its first two, in order; shorter rows are left out.
pub open spec fn pairs_of(rows: Seq<Seq<Seq<char>>>) -> Seq<(Seq<char>, Seq<char>)>
    decreases rows.len(),
{
    if rows.len() == 0 {
        Seq::empty()
    } else {
        let before = pairs_of(rows.drop_last());
        if rows.last().len() >= 2 {
            before.push((rows.last()[0], rows.last()[1]))
        } else {
            before
        }
    }
}

/// The pairs of code and name among the rows of the list of supported codes.
pub fn code_pairs(rows: &Vec<Vec<String>>) -> (pairs: Vec<(String, String)>)
    ensures
        pairs.deep_view() == pairs_of(rows.deep_view()),
{
    let mut pairs: Vec<(String, String)> = Vec::new();
    let mut i: usize = 0;
    assert(rows.deep_view().take(0) =~= Seq::empty());
    assert(pairs.deep_view() =~= Seq::empty());
    while i < rows.len()
        invariant
            i <= rows.len(),
            pairs.deep_view() == pairs_of(rows.deep_view().take(i as int)),
        decreases rows.len() - i,
    {
        let row = &rows[i];
        let ghost before = pairs.deep_view();
        proof {
            let upto = rows.deep_view().take(i + 1);
            assert(upto.drop_last() =~= rows.deep_view().take(i as int));
            assert(upto.last() == rows[i as int].deep_view());
            assert(row.deep_view().len() == row.len());
        }
        if row.len() >= 2 {
            let code = row[0].clone();
            let name = row[1].clone();
            proof {
                assert(row.deep_view()[0] == row[0]@);
                assert(row.deep_view()[1] == row[1]@);
            }
            pairs.push((code, name));
            assert(pairs.deep_view() =~= before.push((row[0]@, row[1]@)));
        }
        i += 1;
    }
    assert(rows.deep_view().take(rows.len() as int) =~= rows.deep_view());
    pairs
}

} // verus!
