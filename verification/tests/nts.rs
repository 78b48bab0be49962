use master_time::nts::{
    DEFAULT_NTS_KE_PORT, EndpointSecurityMode, EndpointSecurityReport, EndpointSecurityStatus,
    NtsKeEndpoint, NtsKeEndpointError,
};
use master_time::nts_transport::{
    NtsTransportBoundary, NtsTransportConfig, NtsTransportConfigError, NtsTransportError,
    UnsupportedNtsPolicy, default_nts_timeout,
};
use master_time::time::Duration;

#[test]
fn plain_udp_is_explicitly_supported_without_claiming_nts() {
    let report = EndpointSecurityReport::for_mode(EndpointSecurityMode::PlainUdp);
    assert_eq!(report.status, EndpointSecurityStatus::PlainUdpSupported);
    assert!(!report.status.is_nts());
    assert_eq!(
        report.status.to_string(),
        "supported over plain UDP; NTS is not enabled"
    );
}

#[test]
fn nts_modes_are_reported_as_unsupported() {
    for mode in [
        EndpointSecurityMode::NtsRequired,
        EndpointSecurityMode::NtsPreferred,
    ] {
        assert_eq!(
            EndpointSecurityReport::for_mode(mode).status,
            EndpointSecurityStatus::NtsUnsupported
        );
    }
}

#[test]
fn validates_host_port_and_ipv6_endpoints() {
    let endpoint: NtsKeEndpoint = "time.example.test:4460".parse().unwrap();
    assert_eq!(endpoint.host(), "time.example.test");
    assert_eq!(endpoint.port(), 4460);
    assert_eq!(endpoint.to_string(), "time.example.test:4460");

    let ipv6: NtsKeEndpoint = "[2001:db8::1]:4460".parse().unwrap();
    assert_eq!(ipv6.host(), "2001:db8::1");
    assert_eq!(ipv6.to_string(), "[2001:db8::1]:4460");
}

#[test]
fn rejects_malformed_nts_ke_endpoints() {
    for input in [
        "",
        "time.example.test",
        "time.example.test:",
        "time.example.test:0",
        "time.example.test:65536",
        "https://time.example.test:4460",
        "2001:db8::1:4460",
        "[2001:db8::1]",
    ] {
        assert!(
            input.parse::<NtsKeEndpoint>().is_err(),
            "accepted {input:?}"
        );
    }
    assert_eq!(
        "time.example.test:4460"
            .parse::<NtsKeEndpoint>()
            .unwrap()
            .port(),
        DEFAULT_NTS_KE_PORT
    );
}

#[test]
fn invalid_endpoint_is_not_reported_as_nts_support() {
    let report = EndpointSecurityReport::for_endpoint(
        EndpointSecurityMode::NtsRequired,
        "not-an-endpoint",
    );
    assert_eq!(report.status, EndpointSecurityStatus::InvalidEndpoint);
    assert!(!report.status.is_supported());
}

#[test]
fn each_endpoint_error_has_its_input() {
    assert_eq!(NtsKeEndpoint::parse(""), Err(NtsKeEndpointError::Empty));
    assert_eq!(NtsKeEndpoint::parse("a b:1"), Err(NtsKeEndpointError::Whitespace));
    assert_eq!(NtsKeEndpoint::parse("a/b:1"), Err(NtsKeEndpointError::NotHostPort));
    assert_eq!(NtsKeEndpoint::parse("[::1]"), Err(NtsKeEndpointError::InvalidHostPort));
    assert_eq!(NtsKeEndpoint::parse("[]:1"), Err(NtsKeEndpointError::InvalidHost));
    assert_eq!(NtsKeEndpoint::parse(":1"), Err(NtsKeEndpointError::InvalidHost));
    assert_eq!(NtsKeEndpoint::parse("host"), Err(NtsKeEndpointError::MissingPort));
    assert_eq!(NtsKeEndpoint::parse("host:"), Err(NtsKeEndpointError::MissingPort));
    assert_eq!(NtsKeEndpoint::parse("host:x1"), Err(NtsKeEndpointError::InvalidPort));
    assert_eq!(NtsKeEndpoint::parse("host:+123").unwrap().port(), 123);
    assert_eq!(NtsKeEndpoint::parse("host:065535").unwrap().port(), 65535);
    assert!(EndpointSecurityMode::NtsPreferred.requires_nts());
    assert!(EndpointSecurityMode::NtsPreferred.allows_plain_udp());
    assert!(!EndpointSecurityMode::NtsRequired.allows_plain_udp());
    assert!(!EndpointSecurityMode::PlainUdp.requires_nts());
    assert_eq!(
        NtsKeEndpointError::InvalidPort.to_string(),
        "NTS-KE endpoint port must be between 1 and 65535"
    );
}

fn config(mode: EndpointSecurityMode) -> NtsTransportConfig {
    NtsTransportConfig::new("time.example.test:4460".parse().unwrap(), mode).unwrap()
}

#[test]
fn preserves_policy_in_capability_report() {
    let plain = config(EndpointSecurityMode::PlainUdp);
    assert_eq!(plain.security_report().mode, EndpointSecurityMode::PlainUdp);
    assert_eq!(
        plain.security_report().status,
        EndpointSecurityStatus::PlainUdpSupported
    );

    let required = config(EndpointSecurityMode::NtsRequired);
    assert_eq!(
        required.security_report().mode,
        EndpointSecurityMode::NtsRequired
    );
    assert_eq!(
        required.security_report().status,
        EndpointSecurityStatus::NtsUnsupported
    );
}

#[test]
fn rejects_zero_timeout_in_typed_configuration() {
    let result = NtsTransportConfig::with_timeout(
        "time.example.test:4460".parse().unwrap(),
        EndpointSecurityMode::NtsRequired,
        Duration::zero(),
    );
    assert_eq!(result, Err(NtsTransportConfigError::ZeroTimeout));
}

#[test]
fn refuses_plain_udp_in_the_nts_boundary() {
    let result =
        NtsTransportBoundary::new().execute(&config(EndpointSecurityMode::PlainUdp), &[]);
    assert_eq!(
        result,
        Err(NtsTransportError::Unsupported(
            UnsupportedNtsPolicy::PlainUdp
        ))
    );
}

#[test]
fn reports_unimplemented_execution_for_nts_policies() {
    for mode in [
        EndpointSecurityMode::NtsRequired,
        EndpointSecurityMode::NtsPreferred,
    ] {
        let configuration = config(mode);
        let result = NtsTransportBoundary::new().execute(&configuration, &[0; 48]);
        assert_eq!(result, Err(NtsTransportError::NotImplemented));
        assert_eq!(
            configuration.unsupported_nts_features().len(),
            5,
            "NTS must not be reported as partially implemented"
        );
    }
}

#[test]
fn default_configuration_uses_five_second_timeout() {
    let configuration = config(EndpointSecurityMode::NtsPreferred);
    assert_eq!(configuration.timeout(), default_nts_timeout());
    assert_eq!(configuration.timeout(), Duration::from_secs(5));
    assert_eq!(configuration.mode(), EndpointSecurityMode::NtsPreferred);
    assert_eq!(configuration.endpoint().host(), "time.example.test");
    assert_eq!(
        NtsTransportError::Unsupported(UnsupportedNtsPolicy::PlainUdp).to_string(),
        "plain UDP is not an NTS transport"
    );
}
