//! Reading timestamps: from texts in one of two conventions to instants on
//! the UTC time line, in the order given and each beside its value.

use crate::error::PrError;
use crate::trusted::{
    parse_rfc3339, parse_utc, resolve_zone, rfc3339_instant, unknown_zone_message,
    utc_instant_from_format, zone_is_known,
};
use vstd::prelude::*;

verus! {

/// How the timestamp texts of a request are written.
#[derive(Clone, Copy, Debug, PartialEq, Eq, Structural)]
pub enum Convention {
    /// Each text is a full date and time with its offset from UTC, as in
    /// RFC 3339. The instants are then reported in the named time zone,
    /// which must resolve.
    OffsetAware,
    /// Each text is a civil date and time without an offset, taken as UTC
    /// wall-clock time. The time zone name is not applied here: it travels
    /// with the request as it was given.
    NaivePlusZone,
}

/// An instant on the UTC time line: whole seconds since the Unix epoch and
/// nanoseconds into that second.
#[derive(Clone, Copy, Debug, PartialEq, Eq, Structural)]
pub struct UtcInstant {
    pub secs: i64,
    pub nanos: u32,
}

/// The strftime pattern of a naive timestamp: date, `T`, time of day, and
/// a fraction of a second where there is one.
pub const NAIVE_FORMAT: &'static str = "%Y-%m-%dT%T%.f";

/// The instant that `text` denotes under `convention`, or `None` where the
/// text is malformed.
pub open spec fn denoted(text: Seq<char>, convention: Convention) -> Option<UtcInstant> {
    let read = match convention {
        Convention::OffsetAware => rfc3339_instant(text),
        Convention::NaivePlusZone => utc_instant_from_format(text, NAIVE_FORMAT@),
    };
    match read {
        Some(pair) => Some(UtcInstant { secs: pair.0, nanos: pair.1 }),
        None => None,
    }
}

/// Every text of the sequence denotes an instant.
pub open spec fn all_well_formed(texts: Seq<Seq<char>>, convention: Convention) -> bool {
    forall|i: int| 0 <= i < texts.len() ==> denoted(#[trigger] texts[i], convention) is Some
}

/// `k` is the place of the first malformed text of the sequence.
pub open spec fn first_malformed_at(texts: Seq<Seq<char>>, convention: Convention, k: int) -> bool {
    &&& 0 <= k < texts.len()
    &&& denoted(texts[k], convention) is None
    &&& forall|j: int| 0 <= j < k ==> denoted(#[trigger] texts[j], convention) is Some
}

/// Whether a request of `count` samples has its time zone name resolved
/// here: only where instants are reported in that zone, and only where there
/// is an instant to report.
pub open spec fn zone_is_applied(count: nat, convention: Convention) -> bool {
    convention == Convention::OffsetAware && count > 0
}

/// The timestamp texts of a request, in order.
pub open spec fn texts_of<'a, V>(data: Seq<(&'a str, V)>) -> Seq<Seq<char>> {
    Seq::new(data.len(), |i: int| data[i].0@)
}

/// The timestamped samples of one write request: instants on the UTC time
/// line, each with its value, in the order of the request. All of them share
/// one time zone context, the `time_zone_name` of the request. Under
/// `OffsetAware` it is the zone the instants are reported in; under
/// `NaivePlusZone` it is handed on beside them.
#[derive(Clone, Debug, PartialEq)]
pub struct SampleBatch<V> {
    pub convention: Convention,
    pub time_zone_name: String,
    pub points: Vec<(UtcInstant, V)>,
}

impl<V> SampleBatch<V> {
    /// Where the time zone is applied to an instant, it is a known one.
    pub open spec fn wf(&self) -> bool {
        zone_is_applied(self.points@.len(), self.convention) ==> zone_is_known(
            self.time_zone_name@,
        )
    }

    /// Whether the instants of this batch are reported in its time zone, so
    /// that whoever sends it needs the zone itself and not only its name.
    pub fn applies_zone(&self) -> (applied: bool)
        ensures
            applied == zone_is_applied(self.points@.len(), self.convention),
    {
        match self.convention {
            Convention::OffsetAware => self.points.len() > 0,
            Convention::NaivePlusZone => false,
        }
    }
}

/// What normalizing gives. It succeeds exactly where every text is well
/// formed and the time zone, where it is applied, is known; the batch then
/// holds, place by place, the instant each text denotes beside the value
/// that came with it. Otherwise it fails as a whole: with the first
/// malformed text where there is one, else with the unknown time zone.
pub open spec fn normalizes_to<'a, V>(
    data: Seq<(&'a str, V)>,
    time_zone_name: Seq<char>,
    convention: Convention,
    r: Result<SampleBatch<V>, PrError>,
) -> bool {
    match r {
        Ok(batch) => {
            &&& all_well_formed(texts_of(data), convention)
            &&& batch.wf()
            &&& batch.convention == convention
            &&& batch.time_zone_name@ == time_zone_name
            &&& batch.points@.len() == data.len()
            &&& forall|i: int|
                0 <= i < data.len() ==> denoted(data[i].0@, convention) == Some(
                    (#[trigger] batch.points@[i]).0,
                ) && batch.points@[i].1 == data[i].1
        },
        Err(PrError::DateTimeParse { input, reason }) => exists|k: int|
            #[trigger] first_malformed_at(texts_of(data), convention, k) && input@ == data[k].0@,
        Err(PrError::TimeZone(message)) => {
            &&& all_well_formed(texts_of(data), convention)
            &&& zone_is_applied(data.len(), convention)
            &&& !zone_is_known(time_zone_name)
            &&& message@ == unknown_zone_message(time_zone_name)
        },
        Err(_) => false,
    }
}

/// Reads one timestamp text under `convention`.
pub fn read_instant(text: &str, convention: Convention) -> (r: Result<
    UtcInstant,
    chrono::ParseError,
>)
    ensures
        match r {
            Ok(instant) => denoted(text@, convention) == Some(instant),
            Err(_) => denoted(text@, convention) is None,
        },
{
    let read = match convention {
        Convention::OffsetAware => parse_rfc3339(text),
        Convention::NaivePlusZone => parse_utc(text, NAIVE_FORMAT),
    };
    match read {
        Ok(pair) => Ok(UtcInstant { secs: pair.0, nanos: pair.1 }),
        Err(err) => Err(err),
    }
}

/// Turns the timestamp texts of a request into instants, keeping order and
/// pairing.
///
/// One malformed text fails the whole request with `DateTimeParse`, naming
/// the first such text; nothing of the rest is handed back. Under
/// `OffsetAware` a request that holds a sample needs a known time zone, else
/// it fails with `TimeZone`. A request without samples always succeeds.
pub fn normalize<V: Copy>(
    data: &Vec<(&str, V)>,
    time_zone_name: &str,
    convention: Convention,
) -> (r: Result<SampleBatch<V>, PrError>)
    ensures
        normalizes_to(data@, time_zone_name@, convention, r),
        data@.len() == 0 ==> r is Ok,
        !all_well_formed(texts_of(data@), convention) ==> r matches Err(
            PrError::DateTimeParse { .. },
        ),
{
    let mut points: Vec<(UtcInstant, V)> = Vec::new();
    let mut i: usize = 0;
    while i < data.len()
        invariant
            i <= data.len(),
            points@.len() == i,
            forall|j: int|
                0 <= j < i ==> denoted(data@[j].0@, convention) == Some(
                    (#[trigger] points@[j]).0,
                ) && points@[j].1 == data@[j].1,
        decreases data.len() - i,
    {
        let item = data[i];
        match read_instant(item.0, convention) {
            Ok(instant) => {
                points.push((instant, item.1));
            },
            Err(err) => {
                let failure = PrError::DateTimeParse {
                    input: item.0.to_owned(),
                    reason: err.to_string(),
                };
                assert(first_malformed_at(texts_of(data@), convention, i as int)) by {
                    assert forall|j: int| 0 <= j < i implies denoted(
                        #[trigger] texts_of(data@)[j],
                        convention,
                    ) is Some by {
                        assert(denoted(data@[j].0@, convention) == Some(points@[j].0));
                    }
                }
                return Err(failure);
            },
        }
        i += 1;
    }
    assert(all_well_formed(texts_of(data@), convention)) by {
        assert forall|j: int| 0 <= j < data@.len() implies denoted(
            #[trigger] texts_of(data@)[j],
            convention,
        ) is Some by {
            assert(denoted(data@[j].0@, convention) == Some(points@[j].0));
        }
    }
    match convention {
        Convention::OffsetAware => {
            if data.len() > 0 {
                match resolve_zone(time_zone_name) {
                    Ok(()) => {},
                    Err(message) => {
                        return Err(PrError::TimeZone(message));
                    },
                }
            }
        },
        Convention::NaivePlusZone => {},
    }
    Ok(SampleBatch { convention, time_zone_name: time_zone_name.to_owned(), points })
}

/// A request without samples always normalizes, to a batch without points:
/// whatever the convention, and whatever the time zone name, known or not.
pub proof fn lemma_empty_request_normalizes<V>(
    time_zone_name: Seq<char>,
    convention: Convention,
    r: Result<SampleBatch<V>, PrError>,
)
    requires
        normalizes_to(Seq::<(&str, V)>::empty(), time_zone_name, convention, r),
    ensures
        r matches Ok(batch) && batch.points@.len() == 0,
{
}

/// One malformed text anywhere in a request fails the whole request with
/// `DateTimeParse`: no batch comes back, and no other error does.
pub proof fn lemma_malformed_text_fails_request<V>(
    data: Seq<(&str, V)>,
    time_zone_name: Seq<char>,
    convention: Convention,
    r: Result<SampleBatch<V>, PrError>,
    i: int,
)
    requires
        normalizes_to(data, time_zone_name, convention, r),
        0 <= i < data.len(),
        denoted(data[i].0@, convention) is None,
    ensures
        r matches Err(PrError::DateTimeParse { .. }),
{
    assert(texts_of(data)[i] == data[i].0@);
}

/// The text that a failed request names is the first malformed one: every
/// text before it is well formed.
pub proof fn lemma_failure_names_first_malformed_text<V>(
    data: Seq<(&str, V)>,
    time_zone_name: Seq<char>,
    convention: Convention,
    input: String,
    reason: String,
    i: int,
)
    requires
        normalizes_to(
            data,
            time_zone_name,
            convention,
            Err::<SampleBatch<V>, PrError>(PrError::DateTimeParse { input, reason }),
        ),
        first_malformed_at(texts_of(data), convention, i),
    ensures
        input@ == data[i].0@,
{
    let k = choose|k: int|
        #[trigger] first_malformed_at(texts_of(data), convention, k) && input@ == data[k].0@;
    if k < i {
        assert(denoted(texts_of(data)[k], convention) is Some);
    } else if i < k {
        assert(denoted(texts_of(data)[i], convention) is Some);
    }
}

/// Reporting an instant in a time zone does not move it. A well-formed
/// offset-aware text with its value, normalized in any known time zone,
/// gives the one sample that holds the instant the text denotes and the
/// value unchanged.
pub proof fn lemma_zone_keeps_instant<V>(
    text: &str,
    value: V,
    time_zone_name: Seq<char>,
    r: Result<SampleBatch<V>, PrError>,
)
    requires
        denoted(text@, Convention::OffsetAware) is Some,
        zone_is_known(time_zone_name),
        normalizes_to(seq![(text, value)], time_zone_name, Convention::OffsetAware, r),
    ensures
        r matches Ok(batch) && batch.points@ == seq![
            (denoted(text@, Convention::OffsetAware).unwrap(), value),
        ],
{
    let data = seq![(text, value)];
    assert(data[0] == (text, value));
    assert(texts_of(data)[0] == text@);
    match r {
        Ok(batch) => {
            assert(batch.points@[0].0 == denoted(text@, Convention::OffsetAware).unwrap());
            assert(batch.points@ =~= seq![
                (denoted(text@, Convention::OffsetAware).unwrap(), value),
            ]);
        },
        Err(PrError::DateTimeParse { input, reason }) => {
            let k = choose|k: int|
                #[trigger] first_malformed_at(texts_of(data), Convention::OffsetAware, k)
                    && input@ == data[k].0@;
            assert(k == 0);
        },
        Err(_) => {},
    }
}

/// Normalizing is a function of the request: two outcomes of the same
/// request agree on success, and then on every point.
pub proof fn lemma_normalizing_is_determined<V>(
    data: Seq<(&str, V)>,
    time_zone_name: Seq<char>,
    convention: Convention,
    r1: Result<SampleBatch<V>, PrError>,
    r2: Result<SampleBatch<V>, PrError>,
)
    requires
        normalizes_to(data, time_zone_name, convention, r1),
        normalizes_to(data, time_zone_name, convention, r2),
    ensures
        r1 is Ok <==> r2 is Ok,
        r1 matches Ok(b1) ==> r2 matches Ok(b2) && b1.points@ == b2.points@,
        r1 matches Err(e1) ==> r2 matches Err(e2) && e1.category_of() == e2.category_of(),
{
    match (r1, r2) {
        (Ok(b1), Ok(b2)) => {
            assert forall|i: int| 0 <= i < data.len() implies b1.points@[i] == b2.points@[i] by {
                assert(Some(b1.points@[i].0) == denoted(data[i].0@, convention));
                assert(Some(b2.points@[i].0) == denoted(data[i].0@, convention));
            }
            assert(b1.points@ =~= b2.points@);
        },
        (Ok(_), Err(PrError::DateTimeParse { input, reason })) => {
            let k = choose|k: int|
                #[trigger] first_malformed_at(texts_of(data), convention, k) && input@ == data[k].0@;
            assert(denoted(texts_of(data)[k], convention) is Some);
        },
        (Err(PrError::DateTimeParse { input, reason }), Ok(_)) => {
            let k = choose|k: int|
                #[trigger] first_malformed_at(texts_of(data), convention, k) && input@ == data[k].0@;
            assert(denoted(texts_of(data)[k], convention) is Some);
        },
        (Err(PrError::DateTimeParse { input, reason }), Err(PrError::TimeZone(_))) => {
            let k = choose|k: int|
                #[trigger] first_malformed_at(texts_of(data), convention, k) && input@ == data[k].0@;
            assert(denoted(texts_of(data)[k], convention) is Some);
        },
        (Err(PrError::TimeZone(_)), Err(PrError::DateTimeParse { input, reason })) => {
            let k = choose|k: int|
                #[trigger] first_malformed_at(texts_of(data), convention, k) && input@ == data[k].0@;
            assert(denoted(texts_of(data)[k], convention) is Some);
        },
        _ => {},
    }
}

} // verus!
