use std::time::Duration;

use serde::de::value::StrDeserializer;
use serde::de::IntoDeserializer;
use vstd::prelude::*;
use vstd::std_specs::iter::IteratorSpec;

use crate::error::{Error, ErrorView};
use crate::multi::once::{RecordKey, RecordKeyView};
use crate::util::conversion_error;
use crate::value::ScriptValue;

verus! {

/// The most decimal digits that a duration may be spelled with.
pub const DIGIT_LIMIT: usize = 11;

/// Whether `c` is one of the decimal digits `0` to `9`.
pub open spec fn is_digit(c: char) -> bool {
    '0' <= c && c <= '9'
}

/// How many decimal digits `text` holds.
pub open spec fn digits(text: Seq<char>) -> nat
    decreases text.len(),
{
    if text.len() == 0 {
        0
    } else {
        digits(text.drop_last()) + if is_digit(text.last()) {
            1nat
        } else {
            0nat
        }
    }
}

/// Whether `text` holds no more decimal digits than a duration may be
/// spelled with.
pub fn few_digits(text: &str) -> (few: bool)
    ensures
        few == (digits(text@) <= DIGIT_LIMIT),
{
    let mut rest = text.chars();
    let mut count: usize = 0;
    let ghost mut seen: int = 0;
    proof {
        vstd::string::axiom_spec_iter(text);
        assert(text@.take(0) =~= Seq::<char>::empty());
    }
    loop
        invariant
            0 <= seen <= text@.len(),
            rest.remaining() == text@.skip(seen),
            count <= DIGIT_LIMIT + 1,
            count == if digits(text@.take(seen)) <= DIGIT_LIMIT {
                digits(text@.take(seen))
            } else {
                (DIGIT_LIMIT + 1) as nat
            },
        ensures
            seen == text@.len(),
            count == if digits(text@.take(seen)) <= DIGIT_LIMIT {
                digits(text@.take(seen))
            } else {
                (DIGIT_LIMIT + 1) as nat
            },
        decreases text@.len() - seen,
    {
        let ghost before = rest;
        let next = rest.next();
        proof {
            vstd::string::next_postcondition(&before, &rest, next);
        }
        match next {
            Some(c) => {
                proof {
                    assert(c == text@[seen]);
                    assert(text@.take(seen + 1).drop_last() =~= text@.take(seen));
                    assert(text@.take(seen + 1).last() == c);
                    assert(text@.skip(seen).drop_first() =~= text@.skip(seen + 1));
                    seen = seen + 1;
                }
                if '0' <= c && c <= '9' && count <= DIGIT_LIMIT {
                    count = count + 1;
                }
            },
            None => {
                break ;
            },
        }
    }
    proof {
        assert(text@.take(seen) =~= text@);
    }
    count <= DIGIT_LIMIT
}

/// The whole seconds of the duration that `text` spells out, such as
/// `1hour 12min 5s`; `None` where `text` spells out no duration.
pub uninterp spec fn duration_seconds(text: Seq<char>) -> Option<u64>;

/// Reads a duration with `humantime_serde::deserialize`, which hands the
/// text to `humantime::parse_duration`, and keeps its whole seconds. The
/// result depends on the text alone; a text that is refused gives `None`.
/// The parser adds up its spans with checked arithmetic but for one carry
/// of nanoseconds into seconds, which a text of few digits cannot bring
/// to overflow: with eleven digits and the longest unit, the year of
/// 31 557 600 seconds, the seconds stay far below the largest `u64`.
#[verifier::external_body]
fn parse_seconds(text: &str) -> (seconds: Option<u64>)
    requires
        digits(text@) <= DIGIT_LIMIT,
    ensures
        seconds == duration_seconds(text@),
{
    let source: StrDeserializer<'_, serde::de::value::Error> = text.into_deserializer();
    match humantime_serde::deserialize::<Duration, _>(source) {
        Ok(duration) => Some(duration.as_secs()),
        Err(_) => None,
    }
}

/// After how many seconds a cached download expires, as a script says
/// it: no value means never; a text of at most [`DIGIT_LIMIT`] decimal
/// digits is read as a duration; and nothing else is accepted.
pub open spec fn expire_of(value: Option<&ScriptValue>) -> Option<Option<u64>> {
    match value {
        None => Some(None),
        Some(ScriptValue::Text(text)) => if digits(text@) <= DIGIT_LIMIT {
            match duration_seconds(text@) {
                Some(seconds) => Some(Some(seconds)),
                None => None,
            }
        } else {
            None
        },
        Some(_) => None,
    }
}

/// Reads after how many seconds a cached download expires.
pub fn read_expire(value: Option<&ScriptValue>) -> (r: Result<Option<u64>, Error>)
    ensures
        match r {
            Ok(expire) => expire_of(value) == Some(expire),
            Err(e) => expire_of(value) is None && e@ == (
            ErrorView::ConversionError {
                from: "value"@,
                to: "duration"@,
                message: Some("expected a duration such as 1h 30min"@),
            }),
        },
{
    match value {
        None => {
            return Ok(None);
        },
        Some(ScriptValue::Text(text)) => {
            if few_digits(text.as_str()) {
                match parse_seconds(text.as_str()) {
                    Some(seconds) => {
                        return Ok(Some(seconds));
                    },
                    None => {},
                }
            }
        },
        Some(_) => {},
    }
    Err(conversion_error("value", "duration", Some("expected a duration such as 1h 30min")))
}

/// What the store keeps of a download.
#[derive(Clone, Debug, PartialEq, Eq)]
pub struct CacheEntry {
    /// The body that was fetched.
    pub content: String,
    /// When it was fetched, in seconds since the epoch.
    pub fetched_at: u64,
}

/// Mathematical model of a [`CacheEntry`].
pub struct CacheEntryView {
    pub content: Seq<char>,
    pub fetched_at: u64,
}

impl View for CacheEntry {
    type V = CacheEntryView;

    open spec fn view(&self) -> CacheEntryView {
        CacheEntryView { content: self.content@, fetched_at: self.fetched_at }
    }
}

impl DeepView for CacheEntry {
    type V = CacheEntryView;

    open spec fn deep_view(&self) -> CacheEntryView {
        self@
    }
}

/// What to do about a download.
#[derive(Clone, Debug, PartialEq, Eq)]
pub enum DlStep {
    /// Return this body; the network is not needed.
    Cached(String),
    /// Fetch the body, keep it, and return it.
    Fetch,
}

/// Mathematical model of a [`DlStep`].
pub enum DlStepView {
    Cached(Seq<char>),
    Fetch,
}

impl View for DlStep {
    type V = DlStepView;

    open spec fn view(&self) -> DlStepView {
        match *self {
            DlStep::Cached(content) => DlStepView::Cached(content@),
            DlStep::Fetch => DlStepView::Fetch,
        }
    }
}

/// The age at `now` of what was fetched at `fetched_at`; a fetch that
/// the clock puts in the future has age zero.
pub open spec fn age(fetched_at: u64, now: u64) -> int {
    if now >= fetched_at {
        now - fetched_at
    } else {
        0
    }
}

/// Whether a body fetched at `fetched_at` may still be used at `now`.
/// Without a limit it never expires; with a limit of zero it always has;
/// otherwise it may be used while it is not older than the limit.
pub open spec fn fresh(fetched_at: u64, now: u64, expire: Option<u64>) -> bool {
    match expire {
        None => true,
        Some(limit) => limit > 0 && age(fetched_at, now) <= limit,
    }
}

/// What to do about a download, given what the store holds for it.
pub open spec fn dl_step(cached: Option<CacheEntryView>, now: u64, expire: Option<u64>) -> DlStepView {
    match cached {
        Some(entry) => if fresh(entry.fetched_at, now, expire) {
            DlStepView::Cached(entry.content)
        } else {
            DlStepView::Fetch
        },
        None => DlStepView::Fetch,
    }
}

/// A download, with the time after which a cached body expires.
#[derive(Clone, Debug)]
pub struct Download {
    url: String,
    expire: Option<u64>,
}

/// Mathematical model of a [`Download`].
pub struct DownloadView {
    pub url: Seq<char>,
    pub expire: Option<u64>,
}

impl View for Download {
    type V = DownloadView;

    closed spec fn view(&self) -> DownloadView {
        DownloadView { url: self.url@, expire: self.expire }
    }
}

impl Download {
    /// The download of `url`, whose cached body expires after `expire`
    /// seconds, or never.
    pub fn new(url: &str, expire: Option<u64>) -> (download: Download)
        ensures
            download@ == (DownloadView { url: url@, expire }),
    {
        Download { url: url.to_owned(), expire }
    }

    /// The record that holds the cached body.
    pub fn record(&self) -> (record: RecordKey)
        ensures
            record@ == (RecordKeyView::Download { url: self@.url }),
    {
        RecordKey::Download { url: self.url.clone() }
    }

    /// Decides between the cached body and the network, given what the
    /// store holds under [`Download::record`] and the time in seconds
    /// since the epoch.
    pub fn plan(&self, cached: Option<CacheEntry>, now: u64) -> (step: DlStep)
        ensures
            step@ == dl_step(cached.deep_view(), now, self@.expire),
    {
        match cached {
            Some(entry) => {
                let usable = match self.expire {
                    None => true,
                    Some(limit) => {
                        let age: u64 = if now >= entry.fetched_at {
                            now - entry.fetched_at
                        } else {
                            0
                        };
                        limit > 0 && age <= limit
                    },
                };
                if usable {
                    DlStep::Cached(entry.content)
                } else {
                    DlStep::Fetch
                }
            },
            None => DlStep::Fetch,
        }
    }

    /// What to keep of a body that was fetched at `now`.
    pub fn fetched(&self, content: String, now: u64) -> (entry: CacheEntry)
        ensures
            entry@ == (CacheEntryView { content: content@, fetched_at: now }),
            dl_step(Some(entry@), now, self@.expire) == if self@.expire == Some(0u64) {
                DlStepView::Fetch
            } else {
                DlStepView::Cached(content@)
            },
    {
        CacheEntry { content, fetched_at: now }
    }
}

} // verus!
