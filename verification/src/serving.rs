//! Serving-engine statistics: reading the answers of the metrics endpoint and
//! gathering them into one record.
//!
//! One query is made per statistic. Each answer stands alone: a query that failed, or
//! that the endpoint did not answer with success, leaves its statistic at zero and
//! never fails the gathering as a whole.

use crate::binary64::{truncate_to_u64, truncated, ZERO};
use crate::metrics::{NodeMetricsError, NodeMetricsErrorView};
use crate::text::{joined, same_text};
use vstd::prelude::*;

verus! {

/// The statistics that are asked of the metrics endpoint.
#[derive(Debug, Clone, Copy, PartialEq, Eq, Structural)]
pub enum Statistic {
    ChatLatency,
    FirstTokenTime,
    InterTokenTime,
    DecodingTime,
    ImageGenLatency,
    TextEmbLatency,
    TotalRequests,
    FailedRequests,
}

impl Statistic {
    /// The name under which the statistic is queried.
    pub open spec fn spec_name(self) -> Seq<char> {
        match self {
            Statistic::ChatLatency => "chat_latency"@,
            Statistic::FirstTokenTime => "first_token_time"@,
            Statistic::InterTokenTime => "inter_token_time"@,
            Statistic::DecodingTime => "decoding_time"@,
            Statistic::ImageGenLatency => "image_gen_latency"@,
            Statistic::TextEmbLatency => "text_emb_latency"@,
            Statistic::TotalRequests => "total_requests"@,
            Statistic::FailedRequests => "failed_requests"@,
        }
    }

    /// The statistic that is queried under `name`, if there is one.
    pub open spec fn named(name: Seq<char>) -> Option<Statistic> {
        if name == "chat_latency"@ {
            Some(Statistic::ChatLatency)
        } else if name == "first_token_time"@ {
            Some(Statistic::FirstTokenTime)
        } else if name == "inter_token_time"@ {
            Some(Statistic::InterTokenTime)
        } else if name == "decoding_time"@ {
            Some(Statistic::DecodingTime)
        } else if name == "image_gen_latency"@ {
            Some(Statistic::ImageGenLatency)
        } else if name == "text_emb_latency"@ {
            Some(Statistic::TextEmbLatency)
        } else if name == "total_requests"@ {
            Some(Statistic::TotalRequests)
        } else if name == "failed_requests"@ {
            Some(Statistic::FailedRequests)
        } else {
            None
        }
    }

    /// The name under which the statistic is queried.
    pub fn name(&self) -> (name: &'static str)
        ensures
            name@ == self.spec_name(),
    {
        match self {
            Statistic::ChatLatency => "chat_latency",
            Statistic::FirstTokenTime => "first_token_time",
            Statistic::InterTokenTime => "inter_token_time",
            Statistic::DecodingTime => "decoding_time",
            Statistic::ImageGenLatency => "image_gen_latency",
            Statistic::TextEmbLatency => "text_emb_latency",
            Statistic::TotalRequests => "total_requests",
            Statistic::FailedRequests => "failed_requests",
        }
    }

    /// Finds the statistic that is queried under `name`.
    pub fn from_name(name: &str) -> (found: Option<Statistic>)
        ensures
            found == Statistic::named(name@),
    {
        if same_text(name, "chat_latency") {
            Some(Statistic::ChatLatency)
        } else if same_text(name, "first_token_time") {
            Some(Statistic::FirstTokenTime)
        } else if same_text(name, "inter_token_time") {
            Some(Statistic::InterTokenTime)
        } else if same_text(name, "decoding_time") {
            Some(Statistic::DecodingTime)
        } else if same_text(name, "image_gen_latency") {
            Some(Statistic::ImageGenLatency)
        } else if same_text(name, "text_emb_latency") {
            Some(Statistic::TextEmbLatency)
        } else if same_text(name, "total_requests") {
            Some(Statistic::TotalRequests)
        } else if same_text(name, "failed_requests") {
            Some(Statistic::FailedRequests)
        } else {
            None
        }
    }

    /// A statistic is found again under its own name: no two statistics share one.
    pub proof fn lemma_name_identifies(self)
        ensures
            Statistic::named(self.spec_name()) == Some(self),
    {
        reveal_strlit("chat_latency");
        reveal_strlit("first_token_time");
        reveal_strlit("inter_token_time");
        reveal_strlit("decoding_time");
        reveal_strlit("image_gen_latency");
        reveal_strlit("text_emb_latency");
        reveal_strlit("total_requests");
        reveal_strlit("failed_requests");
        assert("chat_latency"@.len() == 12);
        assert("first_token_time"@.len() == 16 && "first_token_time"@[0] == 'f');
        assert("inter_token_time"@.len() == 16 && "inter_token_time"@[0] == 'i');
        assert("decoding_time"@.len() == 13);
        assert("image_gen_latency"@.len() == 17);
        assert("text_emb_latency"@.len() == 16 && "text_emb_latency"@[0] == 't');
        assert("total_requests"@.len() == 14);
        assert("failed_requests"@.len() == 15);
    }
}

/// One sample of a query's answer.
#[derive(Debug, Clone, Copy, PartialEq, Eq, Structural)]
pub struct PrometheusResult {
    /// When the sample was taken, in seconds since the epoch.
    pub timestamp: i64,
    /// The sample's value: the bit pattern of the double-precision number that its
    /// decimal text denotes, or `None` where the text denotes no number.
    pub value: Option<u64>,
}

/// The samples of a query's answer.
#[derive(Debug, PartialEq, Eq)]
pub struct PrometheusData {
    pub result: Vec<PrometheusResult>,
}

/// The answer of the metrics endpoint to one query.
#[derive(Debug, PartialEq, Eq)]
pub struct PrometheusResponse {
    /// `"success"` where the endpoint evaluated the query.
    pub status: String,
    pub data: PrometheusData,
}

/// The answer to the query for one statistic, or the reason why none came.
#[derive(Debug, PartialEq, Eq)]
pub struct NamedReply {
    /// The name of the statistic that was asked for.
    pub name: String,
    /// What came back: the endpoint's answer, or a description of the failure of the
    /// request (no connection, a timeout, an answer that could not be read).
    pub reply: Result<PrometheusResponse, String>,
}

/// Why a statistic could not be read from the metrics endpoint.
#[derive(Debug, PartialEq, Eq)]
pub enum PrometheusMetricsError {
    /// The endpoint's answer could not be parsed.
    ParseError(String),
}

/// The serving-engine statistics of one telemetry cycle. Durations are held as the
/// bit patterns of double-precision numbers, counts as unsigned integers.
#[derive(Debug, Clone, Copy, PartialEq, Eq, Structural)]
pub struct MetricsResponse {
    pub chat_latency: u64,
    pub first_token_time: u64,
    pub inter_token_time: u64,
    pub decoding_time: u64,
    pub image_gen_latency: u64,
    pub text_emb_latency: u64,
    pub total_requests: u64,
    pub failed_requests: u64,
}

impl MetricsResponse {
    /// The record in which every statistic is zero.
    pub open spec fn zero() -> MetricsResponse {
        MetricsResponse {
            chat_latency: ZERO,
            first_token_time: ZERO,
            inter_token_time: ZERO,
            decoding_time: ZERO,
            image_gen_latency: ZERO,
            text_emb_latency: ZERO,
            total_requests: 0,
            failed_requests: 0,
        }
    }

    /// The record with `statistic` set from a sample whose value has the bit pattern
    /// `bits`: a duration takes the pattern as it is, a count the value cut down to an
    /// unsigned integer.
    pub open spec fn spec_with_sample(self, statistic: Statistic, bits: u64) -> MetricsResponse {
        match statistic {
            Statistic::ChatLatency => MetricsResponse { chat_latency: bits, ..self },
            Statistic::FirstTokenTime => MetricsResponse { first_token_time: bits, ..self },
            Statistic::InterTokenTime => MetricsResponse { inter_token_time: bits, ..self },
            Statistic::DecodingTime => MetricsResponse { decoding_time: bits, ..self },
            Statistic::ImageGenLatency => MetricsResponse { image_gen_latency: bits, ..self },
            Statistic::TextEmbLatency => MetricsResponse { text_emb_latency: bits, ..self },
            Statistic::TotalRequests => MetricsResponse {
                total_requests: truncated(bits) as u64,
                ..self
            },
            Statistic::FailedRequests => MetricsResponse {
                failed_requests: truncated(bits) as u64,
                ..self
            },
        }
    }

    /// The value that the record holds for `statistic`.
    pub open spec fn value_of(self, statistic: Statistic) -> u64 {
        match statistic {
            Statistic::ChatLatency => self.chat_latency,
            Statistic::FirstTokenTime => self.first_token_time,
            Statistic::InterTokenTime => self.inter_token_time,
            Statistic::DecodingTime => self.decoding_time,
            Statistic::ImageGenLatency => self.image_gen_latency,
            Statistic::TextEmbLatency => self.text_emb_latency,
            Statistic::TotalRequests => self.total_requests,
            Statistic::FailedRequests => self.failed_requests,
        }
    }

    /// A sample sets the value of its own statistic and of no other: the sample of a
    /// count is cut down to an unsigned integer, that of a duration is kept as it is.
    pub proof fn lemma_sample_sets_one_statistic(
        self,
        statistic: Statistic,
        bits: u64,
        other: Statistic,
    )
        ensures
            self.spec_with_sample(statistic, bits).value_of(other) == (if other != statistic {
                self.value_of(other)
            } else if statistic == Statistic::TotalRequests || statistic
                == Statistic::FailedRequests {
                truncated(bits) as u64
            } else {
                bits
            }),
    {
    }

    /// Sets `statistic` from a sample whose value has the bit pattern `bits`.
    pub fn with_sample(self, statistic: Statistic, bits: u64) -> (updated: MetricsResponse)
        ensures
            updated == self.spec_with_sample(statistic, bits),
    {
        let mut updated = self;
        match statistic {
            Statistic::ChatLatency => {
                updated.chat_latency = bits;
            },
            Statistic::FirstTokenTime => {
                updated.first_token_time = bits;
            },
            Statistic::InterTokenTime => {
                updated.inter_token_time = bits;
            },
            Statistic::DecodingTime => {
                updated.decoding_time = bits;
            },
            Statistic::ImageGenLatency => {
                updated.image_gen_latency = bits;
            },
            Statistic::TextEmbLatency => {
                updated.text_emb_latency = bits;
            },
            Statistic::TotalRequests => {
                updated.total_requests = truncate_to_u64(bits);
            },
            Statistic::FailedRequests => {
                updated.failed_requests = truncate_to_u64(bits);
            },
        }
        updated
    }
}

impl Default for MetricsResponse {
    fn default() -> (response: MetricsResponse)
        ensures
            response == MetricsResponse::zero(),
    {
        MetricsResponse {
            chat_latency: ZERO,
            first_token_time: ZERO,
            inter_token_time: ZERO,
            decoding_time: ZERO,
            image_gen_latency: ZERO,
            text_emb_latency: ZERO,
            total_requests: 0,
            failed_requests: 0,
        }
    }
}

/// The value that an answer's samples give: that of the first sample, and zero where
/// there is no sample or the first one denotes no number.
pub open spec fn first_value(samples: Seq<PrometheusResult>) -> u64 {
    if samples.len() > 0 && samples[0].value is Some {
        samples[0].value->Some_0
    } else {
        ZERO
    }
}

/// What a query yields, given what came back for it.
pub open spec fn metric_outcome(reply: Result<PrometheusResponse, String>) -> Result<
    u64,
    NodeMetricsErrorView,
> {
    match reply {
        Err(failure) => Err(NodeMetricsErrorView::RequestError(failure@)),
        Ok(response) => if response.status@ == "success"@ {
            Ok(first_value(response.data.result@))
        } else {
            Err(
                NodeMetricsErrorView::PrometheusError(
                    "Query failed with status: "@ + response.status@,
                ),
            )
        },
    }
}

/// Reads the value of one statistic out of what came back for its query.
///
/// A failed request and an answer whose status is not `"success"` are errors. An answer
/// with success yields the value of its first sample, and zero where it has none to
/// give.
pub fn query_metric(reply: &Result<PrometheusResponse, String>) -> (outcome: Result<
    u64,
    NodeMetricsError,
>)
    ensures
        match outcome {
            Ok(bits) => metric_outcome(*reply) == Ok::<u64, NodeMetricsErrorView>(bits),
            Err(error) => metric_outcome(*reply) == Err::<u64, NodeMetricsErrorView>(error@),
        },
{
    match reply {
        Err(failure) => Err(NodeMetricsError::RequestError(failure.clone())),
        Ok(response) => {
            if !same_text(response.status.as_str(), "success") {
                return Err(
                    NodeMetricsError::PrometheusError(
                        joined("Query failed with status: ", response.status.as_str()),
                    ),
                );
            }
            if response.data.result.len() > 0 {
                match response.data.result[0].value {
                    Some(bits) => Ok(bits),
                    None => Ok(ZERO),
                }
            } else {
                Ok(ZERO)
            }
        },
    }
}

/// The record after one more answer has been taken in: the statistic that the answer
/// is named for is set from its value; an answer without a value, or named for no
/// statistic, changes nothing.
pub open spec fn taken_in(record: MetricsResponse, answer: NamedReply) -> MetricsResponse {
    match (Statistic::named(answer.name@), metric_outcome(answer.reply)) {
        (Some(statistic), Ok(bits)) => record.spec_with_sample(statistic, bits),
        _ => record,
    }
}

/// The record that a sequence of answers gives, taken in one after the other from
/// the record of zeros.
pub open spec fn gathered(answers: Seq<NamedReply>) -> MetricsResponse
    decreases answers.len(),
{
    if answers.len() == 0 {
        MetricsResponse::zero()
    } else {
        taken_in(gathered(answers.drop_last()), answers.last())
    }
}

/// Gathers the answers to the statistic queries into one record.
///
/// Never fails: a statistic whose query gave no value stays at zero.
pub fn get_prometheus_metrics(answers: &Vec<NamedReply>) -> (metrics: Result<
    MetricsResponse,
    NodeMetricsError,
>)
    ensures
        metrics matches Ok(record) && record == gathered(answers@),
{
    let mut record = MetricsResponse::default();
    let mut i: usize = 0;
    while i < answers.len()
        invariant
            i <= answers.len(),
            record == gathered(answers@.take(i as int)),
        decreases answers.len() - i,
    {
        let answer = &answers[i];
        proof {
            assert(answers@.take(i + 1).drop_last() =~= answers@.take(i as int));
            assert(answers@.take(i + 1).last() == answers@[i as int]);
        }
        let outcome = query_metric(&answer.reply);
        match (Statistic::from_name(answer.name.as_str()), outcome) {
            (Some(statistic), Ok(bits)) => {
                record = record.with_sample(statistic, bits);
            },
            _ => {},
        }
        i = i + 1;
    }
    proof {
        assert(answers@.take(answers.len() as int) =~= answers@);
    }
    Ok(record)
}

/// Whether a query gave no value.
pub open spec fn gave_no_value(answer: NamedReply) -> bool {
    metric_outcome(answer.reply) is Err
}

/// Where every query fails, every statistic of the gathered record is zero.
pub proof fn lemma_all_failed_gathers_zero(answers: Seq<NamedReply>)
    requires
        forall|i: int| 0 <= i < answers.len() ==> gave_no_value(#[trigger] answers[i]),
    ensures
        gathered(answers) == MetricsResponse::zero(),
    decreases answers.len(),
{
    if answers.len() > 0 {
        let earlier = answers.drop_last();
        assert forall|i: int| 0 <= i < earlier.len() implies gave_no_value(
            #[trigger] earlier[i],
        ) by {
            assert(earlier[i] == answers[i]);
        }
        lemma_all_failed_gathers_zero(earlier);
        assert(gave_no_value(answers[answers.len() - 1]));
    }
}

} // verus!
