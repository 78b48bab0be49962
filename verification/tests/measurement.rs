use master_time::measurement::{FourTimestamps, MeasurementError, NtpTimestamp, TimestampName};

fn timestamp(seconds: u32) -> NtpTimestamp {
    NtpTimestamp::new(seconds, 0)
}

#[test]
fn reports_the_first_missing_timestamp() {
    let exchange = FourTimestamps::new(
        None,
        Some(timestamp(2)),
        Some(timestamp(3)),
        Some(timestamp(4)),
    );
    assert_eq!(
        exchange.require_all(),
        Err(MeasurementError::MissingTimestamp(TimestampName::Originate))
    );
    let exchange = FourTimestamps::new(Some(timestamp(1)), Some(timestamp(2)), None, None);
    assert_eq!(
        exchange.require_all(),
        Err(MeasurementError::MissingTimestamp(TimestampName::Transmit))
    );
    let complete =
        FourTimestamps::complete(timestamp(1), timestamp(2), timestamp(3), timestamp(4));
    assert_eq!(
        complete.require_all(),
        Ok((timestamp(1), timestamp(2), timestamp(3), timestamp(4)))
    );
    assert_eq!(FourTimestamps::default().originate, None);
}

#[test]
fn error_messages_name_the_timestamp() {
    assert_eq!(
        MeasurementError::MissingTimestamp(TimestampName::Destination).to_string(),
        "missing destination (T4) timestamp"
    );
    assert_eq!(TimestampName::Receive.to_string(), "receive (T2)");
    assert_eq!(
        MeasurementError::NegativeRoundTripDelay.to_string(),
        "calculated round-trip delay is negative"
    );
    assert_eq!(NtpTimestamp::zero(), NtpTimestamp::new(0, 0));
}
