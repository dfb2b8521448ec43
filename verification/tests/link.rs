use esp_now_gateway::gateway::link::{first_step, next_step, LinkReport, LinkStep, RETRY_DELAY_MS};

#[test]
fn an_unconfigured_station_is_configured_started_and_connected() {
    let mut step = first_step();
    assert_eq!(step, LinkStep::ReadState);
    step = next_step("home", step, &LinkReport::State { connected: false });
    assert_eq!(step, LinkStep::ReadConfiguration);
    step = next_step("home", step, &LinkReport::Configuration { ssid: None });
    assert_eq!(step, LinkStep::Configure);
    step = next_step("home", step, &LinkReport::Done);
    assert_eq!(step, LinkStep::ReadStarted);
    step = next_step("home", step, &LinkReport::Started { started: Some(false) });
    assert_eq!(step, LinkStep::Start);
    step = next_step("home", step, &LinkReport::Done);
    assert_eq!(step, LinkStep::Connect);
    step = next_step("home", step, &LinkReport::Connection { made: true });
    assert_eq!(step, LinkStep::ReadState);
}

#[test]
fn a_lost_connection_is_made_again_after_a_pause() {
    let mut step = next_step("home", LinkStep::ReadState, &LinkReport::State { connected: true });
    assert_eq!(step, LinkStep::AwaitDisconnect);
    step = next_step("home", step, &LinkReport::Done);
    assert_eq!(step, LinkStep::PauseAfterLoss);
    step = next_step("home", step, &LinkReport::Done);
    assert_eq!(step, LinkStep::ReadConfiguration);
    let configured = LinkReport::Configuration { ssid: Some("home".to_string()) };
    step = next_step("home", step, &configured);
    assert_eq!(step, LinkStep::ReadStarted);
    step = next_step("home", step, &LinkReport::Started { started: Some(true) });
    assert_eq!(step, LinkStep::Connect);
    assert_eq!(RETRY_DELAY_MS, 5000);
}

#[test]
fn another_network_is_configured_away() {
    let other = LinkReport::Configuration { ssid: Some("away".to_string()) };
    assert_eq!(next_step("home", LinkStep::ReadConfiguration, &other), LinkStep::Configure);
}

#[test]
fn a_failed_attempt_is_repeated_after_a_pause() {
    let failed = LinkReport::Connection { made: false };
    let step = next_step("home", LinkStep::Connect, &failed);
    assert_eq!(step, LinkStep::PauseAfterFailure);
    assert_eq!(next_step("home", step, &LinkReport::Done), LinkStep::ReadState);
    let unknown = LinkReport::Started { started: None };
    assert_eq!(next_step("home", LinkStep::ReadStarted, &unknown), LinkStep::Start);
}
