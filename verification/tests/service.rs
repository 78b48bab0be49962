use master_time::ntp::{NtpHeader, NtpTimestamp};
use master_time::service::{
    exchange_timestamps, system_time_to_ntp_timestamp, NtpMeasurementService, ServiceError,
    NTP_UNIX_OFFSET,
};
use master_time::measurement::TimestampName;
use master_time::time::{unix_epoch, Duration, SystemTime};
use master_time::transport::NtpTransport;

fn header(receive: NtpTimestamp, transmit: NtpTimestamp) -> NtpHeader {
    NtpHeader {
        leap_indicator: 0,
        version: 4,
        mode: 4,
        stratum: 1,
        poll_exponent: 0,
        precision_exponent: 0,
        root_delay: 0,
        root_dispersion: 0,
        reference_id: [0; 4],
        reference_timestamp: NtpTimestamp::zero(),
        originate_timestamp: NtpTimestamp::zero(),
        receive_timestamp: receive,
        transmit_timestamp: transmit,
    }
}

#[test]
fn converts_unix_epoch_to_ntp_epoch() {
    let timestamp = system_time_to_ntp_timestamp(unix_epoch()).unwrap();
    assert_eq!(
        timestamp,
        NtpTimestamp {
            seconds: NTP_UNIX_OFFSET as u32,
            fraction: 0
        }
    );
}

#[test]
fn rejects_missing_server_timestamps() {
    let later = SystemTime::from_unix_duration(Duration::from_secs(1)).unwrap();
    let result = exchange_timestamps(
        &header(
            NtpTimestamp::zero(),
            NtpTimestamp {
                seconds: 1,
                fraction: 0,
            },
        ),
        unix_epoch(),
        later,
    );
    assert_eq!(result, Err(ServiceError::MissingTimestamp(TimestampName::Receive)));
}

#[test]
fn converts_fractions_and_refuses_unrepresentable_times() {
    let half = SystemTime::from_unix_duration(Duration::new(1, 500_000_000)).unwrap();
    assert_eq!(
        system_time_to_ntp_timestamp(half),
        Ok(NtpTimestamp {
            seconds: NTP_UNIX_OFFSET as u32 + 1,
            fraction: 0x8000_0000
        })
    );
    let before = unix_epoch().checked_sub(Duration::new(0, 1)).unwrap();
    assert_eq!(
        system_time_to_ntp_timestamp(before),
        Ok(NtpTimestamp {
            seconds: 2_208_988_799,
            fraction: 4_294_967_291
        })
    );
    let late_1969 = unix_epoch().checked_sub(Duration::from_secs(1)).unwrap();
    assert_eq!(
        system_time_to_ntp_timestamp(late_1969),
        Ok(NtpTimestamp {
            seconds: 2_208_988_799,
            fraction: 0
        })
    );
    assert_eq!(
        system_time_to_ntp_timestamp(unix_epoch()),
        Ok(NtpTimestamp {
            seconds: 2_208_988_800,
            fraction: 0
        })
    );
    let ntp_epoch = unix_epoch().checked_sub(Duration::from_secs(NTP_UNIX_OFFSET)).unwrap();
    assert_eq!(
        system_time_to_ntp_timestamp(ntp_epoch),
        Ok(NtpTimestamp {
            seconds: 0,
            fraction: 0
        })
    );
    let before_1900 = ntp_epoch.checked_sub(Duration::new(0, 1)).unwrap();
    assert_eq!(
        system_time_to_ntp_timestamp(before_1900),
        Err(ServiceError::ClockBeforeNtpEpoch)
    );
    let far = SystemTime::from_unix_duration(Duration::from_secs(u32::MAX as u64)).unwrap();
    assert_eq!(
        system_time_to_ntp_timestamp(far),
        Err(ServiceError::TimestampOutOfRange)
    );
}

#[test]
fn exchange_requires_server_mode_and_both_server_timestamps() {
    let one = NtpTimestamp {
        seconds: 1,
        fraction: 0,
    };
    let mut client_mode = header(one, one);
    client_mode.mode = 3;
    assert_eq!(
        exchange_timestamps(&client_mode, unix_epoch(), unix_epoch()),
        Err(ServiceError::UnsupportedMode(3))
    );
    assert_eq!(
        exchange_timestamps(&header(one, NtpTimestamp::zero()), unix_epoch(), unix_epoch()),
        Err(ServiceError::MissingTimestamp(TimestampName::Transmit))
    );
    let exchange = exchange_timestamps(&header(one, one), unix_epoch(), unix_epoch()).unwrap();
    assert_eq!(exchange.receive.unwrap().seconds, 1);
    assert_eq!(exchange.originate.unwrap().seconds, NTP_UNIX_OFFSET as u32);
    let service = NtpMeasurementService::new(NtpTransport::new(Duration::from_secs(2)));
    assert_eq!(service.transport().timeout(), Duration::from_secs(2));
    assert!(!NtpTransport::new(Duration::zero()).accepts_queries());
    assert_eq!(NtpTransport::default().timeout(), Duration::from_secs(5));
}
