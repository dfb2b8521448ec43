//! Keeping the Wi-Fi station connected: what to do next, given how the last step went.
use vstd::prelude::*;

verus! {

/// How long to wait before connecting again, in milliseconds, after the connection was lost or
/// could not be made.
pub const RETRY_DELAY_MS: u64 = 5000;

/// A step that the supervisor asks for.
#[derive(Debug, PartialEq, Eq, Structural, Clone, Copy)]
pub enum LinkStep {
    /// Find out whether the station is connected.
    ReadState,
    /// Wait until the station is no longer connected.
    AwaitDisconnect,
    /// Wait `RETRY_DELAY_MS` after the connection was lost.
    PauseAfterLoss,
    /// Find out which network the station is configured for.
    ReadConfiguration,
    /// Configure the station for the network.
    Configure,
    /// Find out whether the station is started.
    ReadStarted,
    /// Start the station.
    Start,
    /// Connect the station.
    Connect,
    /// Wait `RETRY_DELAY_MS` after the connection could not be made.
    PauseAfterFailure,
}

/// How a step went.
#[derive(Debug)]
pub enum LinkReport {
    /// Whether the station is connected.
    State { connected: bool },
    /// The network that the station is configured for; `None` where that could not be found out.
    Configuration { ssid: Option<String> },
    /// Whether the station is started; `None` where that could not be found out.
    Started { started: Option<bool> },
    /// Whether the connection was made.
    Connection { made: bool },
    /// The step is done.
    Done,
}

/// Whether a report is one that a step can lead to.
pub open spec fn answers(step: LinkStep, report: LinkReport) -> bool {
    match step {
        LinkStep::ReadState => report is State,
        LinkStep::ReadConfiguration => report is Configuration,
        LinkStep::ReadStarted => report is Started,
        LinkStep::Connect => report is Connection,
        _ => report is Done,
    }
}

/// The step after one that led to a report, in a station that is to join the network `ssid`.
pub open spec fn step_after(ssid: Seq<char>, step: LinkStep, report: LinkReport) -> LinkStep {
    match step {
        LinkStep::ReadState => if report->connected {
            LinkStep::AwaitDisconnect
        } else {
            LinkStep::ReadConfiguration
        },
        LinkStep::AwaitDisconnect => LinkStep::PauseAfterLoss,
        LinkStep::PauseAfterLoss => LinkStep::ReadConfiguration,
        LinkStep::ReadConfiguration => match report->ssid {
            Some(configured) => if configured@ == ssid {
                LinkStep::ReadStarted
            } else {
                LinkStep::Configure
            },
            None => LinkStep::Configure,
        },
        LinkStep::Configure => LinkStep::ReadStarted,
        LinkStep::ReadStarted => if report->started == Some(true) {
            LinkStep::Connect
        } else {
            LinkStep::Start
        },
        LinkStep::Start => LinkStep::Connect,
        LinkStep::Connect => if report->made {
            LinkStep::ReadState
        } else {
            LinkStep::PauseAfterFailure
        },
        LinkStep::PauseAfterFailure => LinkStep::ReadState,
    }
}

/// The step that the supervision starts with.
pub fn first_step() -> (step: LinkStep)
    ensures
        step == LinkStep::ReadState,
{
    LinkStep::ReadState
}

/// The step after one that led to a report, in a station that is to join the network `ssid`.
pub fn next_step(ssid: &str, step: LinkStep, report: &LinkReport) -> (next: LinkStep)
    requires
        answers(step, *report),
    ensures
        next == step_after(ssid@, step, *report),
{
    match step {
        LinkStep::ReadState => match report {
            LinkReport::State { connected: true } => LinkStep::AwaitDisconnect,
            _ => LinkStep::ReadConfiguration,
        },
        LinkStep::AwaitDisconnect => LinkStep::PauseAfterLoss,
        LinkStep::PauseAfterLoss => LinkStep::ReadConfiguration,
        LinkStep::ReadConfiguration => match report {
            LinkReport::Configuration { ssid: Some(configured) } => if *configured
                == ssid.to_owned() {
                LinkStep::ReadStarted
            } else {
                LinkStep::Configure
            },
            _ => LinkStep::Configure,
        },
        LinkStep::Configure => LinkStep::ReadStarted,
        LinkStep::ReadStarted => match report {
            LinkReport::Started { started: Some(true) } => LinkStep::Connect,
            _ => LinkStep::Start,
        },
        LinkStep::Start => LinkStep::Connect,
        LinkStep::Connect => match report {
            LinkReport::Connection { made: true } => LinkStep::ReadState,
            _ => LinkStep::PauseAfterFailure,
        },
        LinkStep::PauseAfterFailure => LinkStep::ReadState,
    }
}

/// How many steps at most lie between a step and the next attempt to connect. Waiting for the
/// connection to be lost counts as one step.
pub open spec fn steps_to_connect(step: LinkStep) -> nat {
    match step {
        LinkStep::Connect => 0,
        LinkStep::Start => 1,
        LinkStep::ReadStarted => 2,
        LinkStep::Configure => 3,
        LinkStep::ReadConfiguration => 4,
        LinkStep::PauseAfterLoss => 5,
        LinkStep::AwaitDisconnect => 6,
        LinkStep::ReadState => 7,
        LinkStep::PauseAfterFailure => 8,
    }
}

/// Law: every step but an attempt to connect brings the next attempt closer, so the station never
/// stops trying to connect.
pub proof fn law_reconnects(ssid: Seq<char>, step: LinkStep, report: LinkReport)
    requires
        answers(step, report),
        step != LinkStep::Connect,
    ensures
        steps_to_connect(step_after(ssid, step, report)) < steps_to_connect(step),
{
}

/// Law: the station is connected only once it is started, and whether it is started is looked
/// at only once it is configured for the network.
pub proof fn law_connects_configured_and_started(
    ssid: Seq<char>,
    step: LinkStep,
    report: LinkReport,
)
    requires
        answers(step, report),
    ensures
        step_after(ssid, step, report) == LinkStep::Connect ==> step == LinkStep::Start || (step
            == LinkStep::ReadStarted && report->started == Some(true)),
        step_after(ssid, step, report) == LinkStep::Start ==> step == LinkStep::ReadStarted,
        step_after(ssid, step, report) == LinkStep::ReadStarted ==> step == LinkStep::Configure || (
        step == LinkStep::ReadConfiguration && report->ssid is Some && report->ssid->0@ == ssid),
{
}

/// Law: after a lost connection, and after a failed attempt, there is a pause before the next
/// attempt.
pub proof fn law_pauses(ssid: Seq<char>, step: LinkStep, report: LinkReport)
    requires
        answers(step, report),
    ensures
        step == LinkStep::AwaitDisconnect ==> step_after(ssid, step, report)
            == LinkStep::PauseAfterLoss,
        step == LinkStep::Connect && !report->made ==> step_after(ssid, step, report)
            == LinkStep::PauseAfterFailure,
{
}

/// Law: when each step comes. The state is read after a connection was made and after a pause for
/// a failed one; the loss of the connection is awaited where the station is connected, and
/// followed by a pause; the configuration is read where the station is not connected and after
/// that pause; it is set where it is not for the network; whether the station is started is read
/// once the configuration is for the network; the station is started where it is not; it connects
/// once it is; and a pause follows a connection that could not be made.
pub proof fn law_when_each_step_comes(ssid: Seq<char>, step: LinkStep, report: LinkReport)
    requires
        answers(step, report),
    ensures
        step_after(ssid, step, report) == LinkStep::ReadState <==> {
            ||| step == LinkStep::Connect && report->made
            ||| step == LinkStep::PauseAfterFailure
        },
        step_after(ssid, step, report) == LinkStep::AwaitDisconnect <==> step
            == LinkStep::ReadState && report->connected,
        step_after(ssid, step, report) == LinkStep::PauseAfterLoss <==> step
            == LinkStep::AwaitDisconnect,
        step_after(ssid, step, report) == LinkStep::ReadConfiguration <==> {
            ||| step == LinkStep::ReadState && !report->connected
            ||| step == LinkStep::PauseAfterLoss
        },
        step_after(ssid, step, report) == LinkStep::Configure <==> step
            == LinkStep::ReadConfiguration && (report->ssid is None || report->ssid->0@ != ssid),
        step_after(ssid, step, report) == LinkStep::ReadStarted <==> {
            ||| step == LinkStep::ReadConfiguration && report->ssid is Some && report->ssid->0@
                == ssid
            ||| step == LinkStep::Configure
        },
        step_after(ssid, step, report) == LinkStep::Start <==> step == LinkStep::ReadStarted
            && report->started != Some(true),
        step_after(ssid, step, report) == LinkStep::Connect <==> {
            ||| step == LinkStep::ReadStarted && report->started == Some(true)
            ||| step == LinkStep::Start
        },
        step_after(ssid, step, report) == LinkStep::PauseAfterFailure <==> step
            == LinkStep::Connect && !report->made,
{
}

/// Law: what a step can lead to. A question is answered by any answer to it, and anything else is
/// answered by its being done.
pub proof fn law_every_answer_is_taken(report: LinkReport, step: LinkStep)
    ensures
        report is State <==> answers(LinkStep::ReadState, report),
        report is Configuration <==> answers(LinkStep::ReadConfiguration, report),
        report is Started <==> answers(LinkStep::ReadStarted, report),
        report is Connection <==> answers(LinkStep::Connect, report),
        step != LinkStep::ReadState && step != LinkStep::ReadConfiguration && step
            != LinkStep::ReadStarted && step != LinkStep::Connect ==> (report is Done <==> answers(
            step,
            report,
        )),
{
}

/// Law: a pause lasts five seconds.
pub proof fn law_pause_length()
    ensures
        RETRY_DELAY_MS == 5 * 1000,
{
}

} // verus!
