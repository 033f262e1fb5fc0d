//! The two output messages derived from each reading, and the tracking of
//! their delivery.
use vstd::prelude::*;

use crate::decode::{EventTime, NANOS_PER_MILLI};

verus! {

/// How long one send may wait for the broker before it counts as failed.
pub const SEND_TIMEOUT_SECS: u64 = 30;

/// The two statistics published per reading.
#[derive(Clone, Copy, Debug, PartialEq, Eq, Structural)]
pub enum Statistic {
    /// The mean of the absolute values.
    AbsMean,
    /// The cube root of the product of the absolute values.
    GeoMean,
}

impl Statistic {
    pub open spec fn spec_name(self) -> Seq<char> {
        match self {
            Statistic::AbsMean => "model1"@,
            Statistic::GeoMean => "model2"@,
        }
    }

    /// The name that the statistic's messages carry.
    pub fn name(&self) -> (r: &'static str)
        ensures
            r@ == self.spec_name(),
    {
        match self {
            Statistic::AbsMean => "model1",
            Statistic::GeoMean => "model2",
        }
    }
}

/// One output message: its payload's name, value and timestamp, and the
/// broker timestamp of the message.
#[derive(Clone, Copy, Debug, PartialEq, Eq, Structural)]
pub struct OutputRecord {
    pub statistic: Statistic,
    /// The value as the bit pattern of a double.
    pub value_bits: u64,
    /// The payload's timestamp: the event's, in nanoseconds.
    pub timestamp_nanos: u64,
    /// The broker timestamp: the event's, in whole milliseconds.
    pub broker_timestamp_millis: i64,
}

/// The message for one statistic of an event.
pub open spec fn record_of(statistic: Statistic, value_bits: u64, time: EventTime) -> OutputRecord {
    OutputRecord {
        statistic,
        value_bits,
        timestamp_nanos: time.unix_nanos,
        broker_timestamp_millis: (time.unix_nanos / NANOS_PER_MILLI) as i64,
    }
}

/// Builds the message for one statistic of an event.
pub fn output_record(statistic: Statistic, value_bits: u64, time: EventTime) -> (r: OutputRecord)
    ensures
        r == record_of(statistic, value_bits, time),
{
    OutputRecord {
        statistic,
        value_bits,
        timestamp_nanos: time.as_nanos(),
        broker_timestamp_millis: time.as_millis(),
    }
}

/// How a send ended, or that it has not yet.
#[derive(Clone, Copy, Debug, PartialEq, Eq, Structural)]
pub enum SendStatus {
    Pending,
    Delivered,
    /// The broker refused the message or the wait ran out.
    Failed,
}

/// The status that a finished send leaves.
pub open spec fn outcome_status(delivered: bool) -> SendStatus {
    if delivered {
        SendStatus::Delivered
    } else {
        SendStatus::Failed
    }
}

/// The two messages of one event and how each of their sends went. Each
/// send is tracked on its own: the outcome of one never changes the other.
pub struct Publication {
    abs_mean: OutputRecord,
    geo_mean: OutputRecord,
    abs_mean_status: SendStatus,
    geo_mean_status: SendStatus,
}

impl Publication {
    pub closed spec fn spec_record(&self, s: Statistic) -> OutputRecord {
        match s {
            Statistic::AbsMean => self.abs_mean,
            Statistic::GeoMean => self.geo_mean,
        }
    }

    pub closed spec fn spec_status(&self, s: Statistic) -> SendStatus {
        match s {
            Statistic::AbsMean => self.abs_mean_status,
            Statistic::GeoMean => self.geo_mean_status,
        }
    }

    /// Both messages of an event, neither sent yet.
    pub fn new(time: EventTime, abs_mean_bits: u64, geo_mean_bits: u64) -> (r: Publication)
        ensures
            r.spec_record(Statistic::AbsMean) == record_of(Statistic::AbsMean, abs_mean_bits, time),
            r.spec_record(Statistic::GeoMean) == record_of(Statistic::GeoMean, geo_mean_bits, time),
            forall|s: Statistic| #[trigger] r.spec_status(s) == SendStatus::Pending,
    {
        let r = Publication {
            abs_mean: output_record(Statistic::AbsMean, abs_mean_bits, time),
            geo_mean: output_record(Statistic::GeoMean, geo_mean_bits, time),
            abs_mean_status: SendStatus::Pending,
            geo_mean_status: SendStatus::Pending,
        };
        assert forall|s: Statistic| #[trigger] r.spec_status(s) == SendStatus::Pending by {
            match s {
                Statistic::AbsMean => {},
                Statistic::GeoMean => {},
            }
        }
        r
    }

    /// The message of one statistic.
    pub fn record(&self, s: Statistic) -> (r: OutputRecord)
        ensures
            r == self.spec_record(s),
    {
        match s {
            Statistic::AbsMean => self.abs_mean,
            Statistic::GeoMean => self.geo_mean,
        }
    }

    /// Both messages, in the order model1, model2. Every one is sent,
    /// whatever becomes of the other.
    pub fn records(&self) -> (r: Vec<OutputRecord>)
        ensures
            r@ == seq![self.spec_record(Statistic::AbsMean), self.spec_record(Statistic::GeoMean)],
    {
        let mut r: Vec<OutputRecord> = Vec::new();
        r.push(self.abs_mean);
        r.push(self.geo_mean);
        r
    }

    /// How the send of one statistic's message went.
    pub fn status(&self, s: Statistic) -> (r: SendStatus)
        ensures
            r == self.spec_status(s),
    {
        match s {
            Statistic::AbsMean => self.abs_mean_status,
            Statistic::GeoMean => self.geo_mean_status,
        }
    }

    /// The publication after the send of `s`'s message ended.
    pub closed spec fn with_outcome(self, s: Statistic, delivered: bool) -> Publication {
        match s {
            Statistic::AbsMean => Publication { abs_mean_status: outcome_status(delivered), ..self },
            Statistic::GeoMean => Publication { geo_mean_status: outcome_status(delivered), ..self },
        }
    }

    /// Records how the send of one statistic's message ended; the other
    /// statistic's message and status stay as they were.
    pub fn record_outcome(&mut self, s: Statistic, delivered: bool)
        ensures
            *final(self) == old(self).with_outcome(s, delivered),
            final(self).spec_status(s) == outcome_status(delivered),
            forall|o: Statistic|
                o != s ==> #[trigger] final(self).spec_status(o) == old(self).spec_status(o),
            forall|o: Statistic| #[trigger] final(self).spec_record(o) == old(self).spec_record(o),
    {
        let status = if delivered {
            SendStatus::Delivered
        } else {
            SendStatus::Failed
        };
        match s {
            Statistic::AbsMean => self.abs_mean_status = status,
            Statistic::GeoMean => self.geo_mean_status = status,
        }
    }

    /// Whether both sends have ended, delivered or not.
    pub fn is_settled(&self) -> (r: bool)
        ensures
            r == (self.spec_status(Statistic::AbsMean) != SendStatus::Pending
                && self.spec_status(Statistic::GeoMean) != SendStatus::Pending),
    {
        !matches!(self.abs_mean_status, SendStatus::Pending)
            && !matches!(self.geo_mean_status, SendStatus::Pending)
    }
}

/// A send that fails, by a refused message or a wait that ran out, leaves
/// the other statistic's message and status as they were; that message's own
/// send then settles it, delivered or not, and the failure stays recorded.
pub proof fn lemma_failure_is_isolated(p: Publication, s: Statistic, o: Statistic, delivered: bool)
    requires
        o != s,
    ensures
        p.with_outcome(s, false).spec_record(o) == p.spec_record(o),
        p.with_outcome(s, false).spec_status(o) == p.spec_status(o),
        p.with_outcome(s, false).with_outcome(o, delivered).spec_status(o) == outcome_status(
            delivered,
        ),
        p.with_outcome(s, false).with_outcome(o, delivered).spec_status(s) == SendStatus::Failed,
{
}

} // verus!
