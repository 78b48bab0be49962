//! The fixed set of network metrics that the network view presents, with
//! their stable labels and units.
use vstd::prelude::*;

verus! {

/// The network metrics presented by the network view.
#[derive(Debug, Clone, Copy, PartialEq, Eq, Structural)]
pub enum NetworkMetric {
    Offset,
    Rtt,
    Jitter,
    PacketLoss,
    FrequencyError,
}

impl NetworkMetric {
    pub open spec fn label_text(self) -> Seq<char> {
        match self {
            NetworkMetric::Offset => "Offset"@,
            NetworkMetric::Rtt => "RTT"@,
            NetworkMetric::Jitter => "Jitter"@,
            NetworkMetric::PacketLoss => "Packet loss"@,
            NetworkMetric::FrequencyError => "Frequency error"@,
        }
    }

    pub open spec fn unit_text(self) -> Seq<char> {
        match self {
            NetworkMetric::Offset | NetworkMetric::Rtt | NetworkMetric::Jitter => "ms"@,
            NetworkMetric::PacketLoss => "%"@,
            NetworkMetric::FrequencyError => "ppm"@,
        }
    }

    /// Stable human-readable label for the metric.
    pub fn label(self) -> (s: &'static str)
        ensures
            s@ == self.label_text(),
    {
        match self {
            NetworkMetric::Offset => "Offset",
            NetworkMetric::Rtt => "RTT",
            NetworkMetric::Jitter => "Jitter",
            NetworkMetric::PacketLoss => "Packet loss",
            NetworkMetric::FrequencyError => "Frequency error",
        }
    }

    /// Stable unit of the metric's numeric value.
    pub fn unit(self) -> (s: &'static str)
        ensures
            s@ == self.unit_text(),
    {
        match self {
            NetworkMetric::Offset | NetworkMetric::Rtt | NetworkMetric::Jitter => "ms",
            NetworkMetric::PacketLoss => "%",
            NetworkMetric::FrequencyError => "ppm",
        }
    }

    /// Every metric, in display order.
    pub fn all() -> (a: [Self; 5])
        ensures
            a@ == seq![
                NetworkMetric::Offset,
                NetworkMetric::Rtt,
                NetworkMetric::Jitter,
                NetworkMetric::PacketLoss,
                NetworkMetric::FrequencyError,
            ],
    {
        let a = [
            NetworkMetric::Offset,
            NetworkMetric::Rtt,
            NetworkMetric::Jitter,
            NetworkMetric::PacketLoss,
            NetworkMetric::FrequencyError,
        ];
        assert(a@ =~= seq![
            NetworkMetric::Offset,
            NetworkMetric::Rtt,
            NetworkMetric::Jitter,
            NetworkMetric::PacketLoss,
            NetworkMetric::FrequencyError,
        ]);
        a
    }
}

} // verus!
