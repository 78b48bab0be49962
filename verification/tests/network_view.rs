use master_time::network_view::NetworkMetric;

#[test]
fn metrics_have_stable_labels_units_and_order() {
    let all = NetworkMetric::all();
    assert_eq!(
        all,
        [
            NetworkMetric::Offset,
            NetworkMetric::Rtt,
            NetworkMetric::Jitter,
            NetworkMetric::PacketLoss,
            NetworkMetric::FrequencyError,
        ]
    );
    let labels: Vec<&str> = all.iter().map(|m| m.label()).collect();
    assert_eq!(labels, vec!["Offset", "RTT", "Jitter", "Packet loss", "Frequency error"]);
    let units: Vec<&str> = all.iter().map(|m| m.unit()).collect();
    assert_eq!(units, vec!["ms", "ms", "ms", "%", "ppm"]);
}
