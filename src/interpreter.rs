//! Turns the raw text of an inference into a normalized payload.
use vstd::prelude::*;
use crate::json::{array_member_len, array_member_length, object_len, object_length, Json};
use crate::text::{contains, has_substring};

verus! {

/// The kinds of insight that the keyword classifier recognizes.
#[derive(Debug, Clone, Copy, PartialEq, Eq, Structural)]
pub enum InsightKind {
    /// The text speaks of a pattern or a trend.
    Pattern,
    /// The text speaks of an anomaly or an outlier.
    Anomaly,
}

pub const OPTIMIZE_RECOMMENDATION: &'static str = "Consider optimizing data processing";

pub const MONITOR_RECOMMENDATION: &'static str = "Implement continuous monitoring";

pub const FALLBACK_RECOMMENDATION: &'static str = "Review analysis results for actionable insights";

/// A bounded excerpt of the data that was analysed.
#[derive(Debug)]
pub enum DataSample {
    /// The data in full: it was small enough.
    Whole(Json),
    /// The first elements of a longer array, and its length.
    ArrayHead { length: usize, head: Vec<Json> },
    /// The first members of a larger object, and its number of members.
    ObjectHead { total_keys: usize, keys: Vec<String>, values: Vec<Json> },
}

/// The payload synthesized from an inference text that is no JSON.
#[derive(Debug)]
pub struct Report {
    pub summary: String,
    pub insights: Vec<InsightKind>,
    pub recommendations: Vec<String>,
    pub data_points: usize,
    pub timestamp: String,
    pub sample: DataSample,
}

/// The normalized output of an analysis.
#[derive(Debug)]
pub enum Payload {
    /// No output yet: the analysis is pending or in flight.
    Empty,
    /// The inference answered with JSON, which is kept as it is.
    Adopted(Json),
    /// The inference answered with plain text.
    Report(Report),
    /// The inference failed; the message says why.
    Failure(String),
}

/// The insights that the keyword classifier finds in a text.
pub open spec fn insights_of(t: Seq<char>) -> Seq<InsightKind> {
    (if has_substring(t, "pattern"@) || has_substring(t, "trend"@) {
        seq![InsightKind::Pattern]
    } else {
        Seq::empty()
    }) + (if has_substring(t, "anomaly"@) || has_substring(t, "outlier"@) {
        seq![InsightKind::Anomaly]
    } else {
        Seq::empty()
    })
}

/// The recommendations that the keyword classifier derives from a text.
pub open spec fn recommendations_of(t: Seq<char>) -> Seq<Seq<char>> {
    (if has_substring(t, "optimize"@) {
        seq![OPTIMIZE_RECOMMENDATION@]
    } else {
        Seq::empty()
    }) + (if has_substring(t, "monitor"@) {
        seq![MONITOR_RECOMMENDATION@]
    } else {
        Seq::empty()
    }) + (if t.len() == 0 {
        seq![FALLBACK_RECOMMENDATION@]
    } else {
        Seq::empty()
    })
}

/// The number of top-level elements of a value: the length of an array, the
/// number of members of an object, and 1 for anything else.
pub open spec fn data_points(j: Json) -> nat {
    match j {
        Json::Array(a) => a@.len(),
        Json::Object(keys, values) => object_len(keys@, values@),
        _ => 1,
    }
}

/// `s` is the sample of `data`: the first 3 elements of an array longer than
/// 3, the first 5 members of an object with more than 5, else all of it.
pub open spec fn is_sample_of(data: Json, s: DataSample) -> bool {
    match data {
        Json::Array(a) => if a@.len() > 3 {
            s matches DataSample::ArrayHead { length, head } && length == a@.len() && head@
                == a@.subrange(0, 3)
        } else {
            s == DataSample::Whole(data)
        },
        Json::Object(keys, values) => if object_len(keys@, values@) > 5 {
            s matches DataSample::ObjectHead { total_keys, keys: k, values: v } && total_keys
                == object_len(keys@, values@) && k@ == keys@.subrange(0, 5) && v@ == values@.subrange(
                0,
                5,
            )
        } else {
            s == DataSample::Whole(data)
        },
        _ => s == DataSample::Whole(data),
    }
}

/// The number of insights of a payload: those of a report, or the length of
/// the `insights` array of adopted JSON.
pub open spec fn insights_count(p: Payload) -> nat {
    match p {
        Payload::Report(r) => r.insights@.len(),
        Payload::Adopted(j) => array_member_len(j, "insights"@),
        _ => 0,
    }
}

/// The number of recommendations of a payload, counted as the insights are.
pub open spec fn recommendations_count(p: Payload) -> nat {
    match p {
        Payload::Report(r) => r.recommendations@.len(),
        Payload::Adopted(j) => array_member_len(j, "recommendations"@),
        _ => 0,
    }
}

/// The report that is synthesized from `raw` when it is no JSON.
pub open spec fn is_report_of(rep: Report, raw: Seq<char>, data: Json, timestamp: String) -> bool {
    &&& rep.summary@ == raw
    &&& rep.insights@ == insights_of(raw)
    &&& rep.recommendations.deep_view() == recommendations_of(raw)
    &&& rep.data_points == data_points(data)
    &&& rep.timestamp == timestamp
    &&& is_sample_of(data, rep.sample)
}

/// `p` is the payload interpreted from `raw`: the JSON that `raw` holds,
/// where `parsed` gives one, else the report synthesized from the text.
pub open spec fn is_payload_for(
    p: Payload,
    raw: Seq<char>,
    parsed: Option<Json>,
    data: Json,
    timestamp: String,
) -> bool {
    match parsed {
        Some(j) => p == Payload::Adopted(j),
        None => p matches Payload::Report(rep) && is_report_of(rep, raw, data, timestamp),
    }
}

/// Finds the insights in an inference text.
pub fn extract_insights(response: &str) -> (r: Vec<InsightKind>)
    ensures
        r@ == insights_of(response@),
{
    let mut insights: Vec<InsightKind> = Vec::new();
    if contains(response, "pattern") || contains(response, "trend") {
        insights.push(InsightKind::Pattern);
    }
    if contains(response, "anomaly") || contains(response, "outlier") {
        insights.push(InsightKind::Anomaly);
    }
    assert(insights@ =~= insights_of(response@));
    insights
}

/// Derives recommendations from an inference text.
pub fn extract_recommendations(response: &str) -> (r: Vec<String>)
    ensures
        r.deep_view() == recommendations_of(response@),
{
    let mut recommendations: Vec<String> = Vec::new();
    let ghost mut expected: Seq<Seq<char>> = Seq::empty();
    if contains(response, "optimize") {
        recommendations.push(OPTIMIZE_RECOMMENDATION.to_string());
        proof {
            expected = expected.push(OPTIMIZE_RECOMMENDATION@);
        }
    }
    assert(recommendations.deep_view() =~= expected);
    if contains(response, "monitor") {
        recommendations.push(MONITOR_RECOMMENDATION.to_string());
        proof {
            expected = expected.push(MONITOR_RECOMMENDATION@);
        }
    }
    assert(recommendations.deep_view() =~= expected);
    if response.is_empty() {
        recommendations.push(FALLBACK_RECOMMENDATION.to_string());
        proof {
            expected = expected.push(FALLBACK_RECOMMENDATION@);
        }
    }
    assert(recommendations.deep_view() =~= expected);
    assert(expected =~= recommendations_of(response@));
    recommendations
}

/// The number of top-level elements of the analysed data.
pub fn count_data_points(data: &Json) -> (r: usize)
    ensures
        r == data_points(*data),
{
    match data {
        Json::Array(a) => a.len(),
        Json::Object(keys, values) => object_length(keys, values),
        _ => 1,
    }
}

/// A bounded excerpt of the analysed data.
pub fn sample_data(data: Json) -> (r: DataSample)
    ensures
        is_sample_of(data, r),
{
    match data {
        Json::Array(mut a) => {
            let length = a.len();
            if length > 3 {
                a.truncate(3);
                DataSample::ArrayHead { length, head: a }
            } else {
                DataSample::Whole(Json::Array(a))
            }
        },
        Json::Object(mut keys, mut values) => {
            let total_keys = object_length(&keys, &values);
            if total_keys > 5 {
                keys.truncate(5);
                values.truncate(5);
                DataSample::ObjectHead { total_keys, keys, values }
            } else {
                DataSample::Whole(Json::Object(keys, values))
            }
        },
        other => DataSample::Whole(other),
    }
}

/// The number of insights of a payload.
pub fn count_insights(result: &Payload) -> (r: usize)
    ensures
        r == insights_count(*result),
{
    match result {
        Payload::Report(rep) => rep.insights.len(),
        Payload::Adopted(j) => array_member_length(j, "insights"),
        _ => 0,
    }
}

/// The number of recommendations of a payload.
pub fn count_recommendations(result: &Payload) -> (r: usize)
    ensures
        r == recommendations_count(*result),
{
    match result {
        Payload::Report(rep) => rep.recommendations.len(),
        Payload::Adopted(j) => array_member_length(j, "recommendations"),
        _ => 0,
    }
}

/// Interprets an inference text. `parsed` is the JSON value that `raw` holds,
/// if it holds one: it is then adopted as it is. Otherwise a report is
/// synthesized from the text, the analysed data and the time of processing.
pub fn parse_ai_response(raw: &str, parsed: Option<Json>, data: Json, timestamp: String) -> (r: Payload)
    ensures
        is_payload_for(r, raw@, parsed, data, timestamp),
{
    match parsed {
        Some(j) => Payload::Adopted(j),
        None => {
            let data_points = count_data_points(&data);
            Payload::Report(
                Report {
                    summary: raw.to_string(),
                    insights: extract_insights(raw),
                    recommendations: extract_recommendations(raw),
                    data_points,
                    timestamp,
                    sample: sample_data(data),
                },
            )
        },
    }
}

} // verus!
