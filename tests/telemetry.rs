use turn_tickets::telemetry::{
    connection_succeeds, RandomTelemetryClient, TelemetryClient, TelemetryError, TelemetryDiagnosticControls, DIAGNOSTIC_MESSAGE,
    DIAGNOSTIC_REPORT, UNABLE_TO_CONNECT,
};

struct AlwaysOfflineClient;

impl TelemetryClient for AlwaysOfflineClient {
    fn online(&self) -> bool {
        false
    }

    fn get_online_status(&self) -> bool {
        false
    }

    fn connect(&mut self, _telemetry_server_connection_string: &str) -> Result<(), TelemetryError> {
        Ok(())
    }

    fn disconnect(&mut self) {}

    fn send(&mut self, _message: &str) -> Result<(), TelemetryError> {
        panic!("this should never be called!")
    }

    fn receive(&mut self) -> String {
        panic!("this should never be called!")
    }
}

#[test]
fn fails_when_client_cannot_connect() {
    let mut controls = TelemetryDiagnosticControls::new(AlwaysOfflineClient {});
    assert!(controls.check_transmission().is_err())
}

#[test]
fn failed_check_reports_and_clears_info() {
    let mut controls = TelemetryDiagnosticControls::new(AlwaysOfflineClient {});
    controls.set_diagnostic_info("old".to_string());
    assert_eq!(controls.get_diagnostic_info(), "old");
    assert_eq!(controls.check_transmission(), Err(UNABLE_TO_CONNECT));
    assert_eq!(controls.get_diagnostic_info(), "");
}

#[test]
fn check_transmission_should_send_a_diagnostic_message_and_receive_a_status_message_response() {
    let mut telemetry_diagnostic_controls =
        TelemetryDiagnosticControls::new(RandomTelemetryClient::new());

    telemetry_diagnostic_controls.check_transmission().unwrap();

    assert!(!telemetry_diagnostic_controls.get_diagnostic_info().is_empty());
    assert_eq!(telemetry_diagnostic_controls.get_diagnostic_info(), DIAGNOSTIC_REPORT);
}

#[test]
fn random_client_replies_with_noise_without_a_request() {
    let mut client = RandomTelemetryClient::new();
    assert!(!client.get_online_status());
    client.send("hello").unwrap();
    let reply = client.receive();
    let n = reply.chars().count();
    assert!((60..110).contains(&n));
    assert!(reply.chars().all(|c| ('V'..='}').contains(&c)));
    client.send(DIAGNOSTIC_MESSAGE).unwrap();
    assert_eq!(client.receive(), DIAGNOSTIC_REPORT);
}

#[test]
fn nine_draws_in_ten_connect() {
    let connecting: Vec<u32> = (0..10).filter(|d| connection_succeeds(*d)).collect();
    assert_eq!(connecting, vec![0, 1, 2, 3, 4, 5, 6, 7, 8]);
    assert!(!connection_succeeds(9));
}

#[test]
fn connect_keeps_a_pending_report() {
    let mut client = RandomTelemetryClient::new();
    client.send(DIAGNOSTIC_MESSAGE).unwrap();
    client.connect("*111#").unwrap();
    client.disconnect();
    assert!(!client.get_online_status());
    assert_eq!(client.receive(), DIAGNOSTIC_REPORT);
    let noise = client.receive();
    assert_ne!(noise, DIAGNOSTIC_REPORT);
}

#[test]
fn empty_requests_are_refused() {
    let mut client = RandomTelemetryClient::new();
    assert_eq!(client.connect(""), Err(TelemetryError::InvalidConnectionString));
    assert!(!client.get_online_status());
    assert_eq!(client.send(""), Err(TelemetryError::InvalidMessage));
}

struct RefusingClient;

impl TelemetryClient for RefusingClient {
    fn online(&self) -> bool {
        false
    }

    fn get_online_status(&self) -> bool {
        false
    }

    fn connect(&mut self, _telemetry_server_connection_string: &str) -> Result<(), TelemetryError> {
        Err(TelemetryError::InvalidConnectionString)
    }

    fn disconnect(&mut self) {}

    fn send(&mut self, _message: &str) -> Result<(), TelemetryError> {
        panic!("this should never be called!")
    }

    fn receive(&mut self) -> String {
        panic!("this should never be called!")
    }
}

#[test]
fn a_refused_connection_fails_the_check() {
    let mut controls = TelemetryDiagnosticControls::new(RefusingClient);
    assert_eq!(controls.check_transmission(), Err(UNABLE_TO_CONNECT));
    assert_eq!(controls.get_diagnostic_info(), "");
}
