//! The dial, step by step.
//!
//! A [`Dialer`] holds a dial that is under way. It says what has to be done
//! next ([`Dialer::request`]); the caller does it and hands back how it went
//! ([`Dialer::resume`]), until the connection stands or the dial has failed.
//! Nothing is tried twice, with one exception: a named pipe whose instances
//! are all busy is opened again after a pause, for as long as it stays busy.

use vstd::prelude::*;
use vstd::string::*;

use crate::error::{
    dial_failure,
    invalid_destination,
    FailureKind,
    ForwardError,
    ForwardErrorView,
};
use crate::destination::{Destination, DestinationView};
use crate::plan::{resolve, resolved, tcp_address, tcp_address_of, DialPlan, DialPlanView, Platform};

verus! {

/// The pause before a busy pipe is opened again, in milliseconds.
pub const RETRY_PAUSE_MILLIS: u64 = 50;

/// The code by which Windows reports that all instances of a pipe are
/// busy (`ERROR_PIPE_BUSY`).
pub const PIPE_BUSY: i32 = 231;

/// How a requested step went.
#[derive(Clone, Debug, PartialEq, Eq)]
pub enum StepOutcome {
    /// The step was carried out.
    Done,
    /// The step failed, with the code that the system gave for it, if any,
    /// and the text of the error.
    Failed { os_code: Option<i32>, message: String },
}

/// The mathematical value of a [`StepOutcome`].
pub enum StepOutcomeView {
    Done,
    Failed { os_code: Option<i32>, message: Seq<char> },
}

impl View for StepOutcome {
    type V = StepOutcomeView;

    open spec fn view(&self) -> StepOutcomeView {
        match self {
            StepOutcome::Done => StepOutcomeView::Done,
            StepOutcome::Failed { os_code, message } => StepOutcomeView::Failed {
                os_code: *os_code,
                message: message@,
            },
        }
    }
}

/// A step that the caller carries out for the dialer.
#[derive(Clone, Debug, PartialEq, Eq)]
pub enum DialRequest {
    /// Connect a TCP stream to `address`, written as `host:port`.
    ConnectTcp { address: String },
    /// Connect to the Unix domain socket at `path`.
    ConnectUnix { path: String },
    /// Open the named pipe at `address` as a client.
    OpenPipe { address: String },
    /// Let `millis` milliseconds pass.
    Sleep { millis: u64 },
    /// Obtain the shared TLS client configuration.
    LoadTlsConfig,
    /// Run the TLS handshake as a client on the connected stream, naming
    /// `server_name` as the server.
    Handshake { server_name: String },
}

/// The mathematical value of a [`DialRequest`].
pub enum DialRequestView {
    ConnectTcp { address: Seq<char> },
    ConnectUnix { path: Seq<char> },
    OpenPipe { address: Seq<char> },
    Sleep { millis: u64 },
    LoadTlsConfig,
    Handshake { server_name: Seq<char> },
}

impl View for DialRequest {
    type V = DialRequestView;

    open spec fn view(&self) -> DialRequestView {
        match self {
            DialRequest::ConnectTcp { address } => DialRequestView::ConnectTcp {
                address: address@,
            },
            DialRequest::ConnectUnix { path } => DialRequestView::ConnectUnix { path: path@ },
            DialRequest::OpenPipe { address } => DialRequestView::OpenPipe { address: address@ },
            DialRequest::Sleep { millis } => DialRequestView::Sleep { millis: *millis },
            DialRequest::LoadTlsConfig => DialRequestView::LoadTlsConfig,
            DialRequest::Handshake { server_name } => DialRequestView::Handshake {
                server_name: server_name@,
            },
        }
    }
}

/// A dial under way, named by the step whose outcome it waits for.
#[derive(Clone, Debug, PartialEq, Eq)]
pub enum Dialer {
    /// The transport of `plan` is being connected.
    Connecting { plan: DialPlan },
    /// The pipe at `address` was busy; the pause before it is opened again
    /// is running.
    Pausing { address: String },
    /// The stream is connected and the TLS client configuration is being
    /// obtained.
    Configuring { server_name: String },
    /// The TLS handshake is running.
    Handshaking { server_name: String },
}

/// The mathematical value of a [`Dialer`].
pub enum DialerView {
    Connecting { plan: DialPlanView },
    Pausing { address: Seq<char> },
    Configuring { server_name: Seq<char> },
    Handshaking { server_name: Seq<char> },
}

impl View for Dialer {
    type V = DialerView;

    open spec fn view(&self) -> DialerView {
        match self {
            Dialer::Connecting { plan } => DialerView::Connecting { plan: plan@ },
            Dialer::Pausing { address } => DialerView::Pausing { address: address@ },
            Dialer::Configuring { server_name } => DialerView::Configuring {
                server_name: server_name@,
            },
            Dialer::Handshaking { server_name } => DialerView::Handshaking {
                server_name: server_name@,
            },
        }
    }
}

/// Where a dial stands after a step.
#[derive(Clone, Debug, PartialEq, Eq)]
pub enum DialProgress {
    /// Another step is needed.
    Continue(Dialer),
    /// The connection stands.
    Established,
    /// The dial has failed for good.
    Failed(ForwardError),
}

/// The mathematical value of a [`DialProgress`].
pub enum DialProgressView {
    Continue(DialerView),
    Established,
    Failed(ForwardErrorView),
}

impl View for DialProgress {
    type V = DialProgressView;

    open spec fn view(&self) -> DialProgressView {
        match self {
            DialProgress::Continue(d) => DialProgressView::Continue(d@),
            DialProgress::Established => DialProgressView::Established,
            DialProgress::Failed(e) => DialProgressView::Failed(e@),
        }
    }
}

/// Whether `rustls::ServerName::try_from` accepts `host`, as the name of a
/// host or as an IP address.
pub uninterp spec fn is_server_name(host: Seq<char>) -> bool;

/// Calls `rustls::ServerName::try_from` on `host`. The call succeeds on the
/// hosts that the name above stands for; where it fails, the text of its
/// error is "invalid dns name".
#[verifier::external_body]
fn check_server_name(host: &str) -> (verdict: Result<(), String>)
    ensures
        verdict is Ok <==> is_server_name(host@),
        verdict matches Err(reason) ==> reason@ == "invalid dns name"@,
{
    match async_rustls::rustls::ServerName::try_from(host) {
        Ok(_) => Ok(()),
        Err(e) => Err(e.to_string()),
    }
}

/// What the check of a server name says of `host`.
pub open spec fn server_name_verdict(host: Seq<char>) -> Result<(), Seq<char>> {
    if is_server_name(host) {
        Ok(())
    } else {
        Err("invalid dns name"@)
    }
}

/// The step that a dial waits for.
pub open spec fn request_of(d: DialerView) -> DialRequestView {
    match d {
        DialerView::Connecting { plan } => match plan {
            DialPlanView::Tcp { host, port } => DialRequestView::ConnectTcp {
                address: tcp_address_of(host, port),
            },
            DialPlanView::Http { host, port } => DialRequestView::ConnectTcp {
                address: tcp_address_of(host, port),
            },
            DialPlanView::Https { host, port } => DialRequestView::ConnectTcp {
                address: tcp_address_of(host, port),
            },
            DialPlanView::Unix { path } => DialRequestView::ConnectUnix { path },
            DialPlanView::Pipe { address } => DialRequestView::OpenPipe { address },
        },
        DialerView::Pausing { .. } => DialRequestView::Sleep { millis: RETRY_PAUSE_MILLIS },
        DialerView::Configuring { .. } => DialRequestView::LoadTlsConfig,
        DialerView::Handshaking { server_name } => DialRequestView::Handshake { server_name },
    }
}

/// Whether a failed step is a pipe that reported all its instances busy.
pub open spec fn is_busy_pipe(d: DialerView, os_code: Option<i32>) -> bool {
    d matches DialerView::Connecting { plan: DialPlanView::Pipe { .. } } && os_code == Some(
        PIPE_BUSY,
    )
}

/// Where the dial `d` stands after its step went as `outcome` says, given
/// the verdict on the server name where a TLS destination has just been
/// connected (the verdict is not looked at anywhere else).
pub open spec fn resumed_with(
    d: DialerView,
    outcome: StepOutcomeView,
    verdict: Result<(), Seq<char>>,
) -> DialProgressView {
    match outcome {
        StepOutcomeView::Failed { os_code, message } => match d {
            DialerView::Connecting { plan: DialPlanView::Pipe { address } } => if os_code == Some(
                PIPE_BUSY,
            ) {
                DialProgressView::Continue(DialerView::Pausing { address })
            } else {
                DialProgressView::Failed(dial_failure(message))
            },
            _ => DialProgressView::Failed(dial_failure(message)),
        },
        StepOutcomeView::Done => match d {
            DialerView::Connecting { plan: DialPlanView::Https { host, port } } => match verdict {
                Ok(_) => DialProgressView::Continue(DialerView::Configuring { server_name: host }),
                Err(reason) => DialProgressView::Failed(invalid_destination(reason)),
            },
            DialerView::Connecting { .. } => DialProgressView::Established,
            DialerView::Pausing { address } => DialProgressView::Continue(
                DialerView::Connecting { plan: DialPlanView::Pipe { address } },
            ),
            DialerView::Configuring { server_name } => DialProgressView::Continue(
                DialerView::Handshaking { server_name },
            ),
            DialerView::Handshaking { .. } => DialProgressView::Established,
        },
    }
}

/// The host whose name is checked when the step of `d` is done: that of a
/// TLS destination that has just been connected.
pub open spec fn checked_host(d: DialerView) -> Option<Seq<char>> {
    match d {
        DialerView::Connecting { plan: DialPlanView::Https { host, port } } => Some(host),
        _ => None,
    }
}

/// Where the dial `d` stands after its step went as `outcome` says.
pub open spec fn resumed(d: DialerView, outcome: StepOutcomeView) -> DialProgressView {
    match checked_host(d) {
        Some(host) => resumed_with(d, outcome, server_name_verdict(host)),
        None => resumed_with(d, outcome, Ok(())),
    }
}

/// What a dial has come to after a row of steps.
pub struct DialRun {
    /// Where the dial stands.
    pub progress: DialProgressView,
    /// The number of connects that were requested, the opening of a pipe
    /// among them.
    pub connects: nat,
    /// The milliseconds of pause that were requested, summed up.
    pub paused_millis: nat,
}

/// Whether a request asks for a transport to be connected.
pub open spec fn is_connect(request: DialRequestView) -> bool {
    request is ConnectTcp || request is ConnectUnix || request is OpenPipe
}

/// The pause that a request asks for, in milliseconds.
pub open spec fn pause_of(request: DialRequestView) -> nat {
    match request {
        DialRequestView::Sleep { millis } => millis as nat,
        _ => 0,
    }
}

/// Runs the dial `d` on the outcomes of its steps, one after another, for
/// as long as it asks for more. Outcomes that are left over when the dial
/// has ended are not looked at.
pub open spec fn dial_run(d: DialerView, outcomes: Seq<StepOutcomeView>) -> DialRun
    decreases outcomes.len(),
{
    if outcomes.len() == 0 {
        DialRun { progress: DialProgressView::Continue(d), connects: 0, paused_millis: 0 }
    } else {
        let rest = match resumed(d, outcomes[0]) {
            DialProgressView::Continue(next) => dial_run(next, outcomes.drop_first()),
            end => DialRun { progress: end, connects: 0, paused_millis: 0 },
        };
        DialRun {
            progress: rest.progress,
            connects: rest.connects + if is_connect(request_of(d)) {
                1nat
            } else {
                0nat
            },
            paused_millis: rest.paused_millis + pause_of(request_of(d)),
        }
    }
}

/// The outcomes of a pipe that is busy once for each of `messages`, each
/// time with that text of the error and each time followed by the pause
/// that was asked for, and that is opened then.
pub open spec fn busy_then_open(messages: Seq<Seq<char>>) -> Seq<StepOutcomeView>
    decreases messages.len(),
{
    if messages.len() == 0 {
        seq![StepOutcomeView::Done]
    } else {
        seq![
            StepOutcomeView::Failed { os_code: Some(PIPE_BUSY), message: messages[0] },
            StepOutcomeView::Done,
        ] + busy_then_open(messages.drop_first())
    }
}

/// A pipe that is busy N times and is opened then is dialed with success:
/// it is opened N + 1 times, and before each time but the first the dial
/// pauses for 50 milliseconds, N pauses in all.
pub proof fn law_busy_pipe_is_retried(address: Seq<char>, messages: Seq<Seq<char>>)
    ensures
        dial_run(
            DialerView::Connecting { plan: DialPlanView::Pipe { address } },
            busy_then_open(messages),
        ) == (DialRun {
            progress: DialProgressView::Established,
            connects: messages.len() + 1,
            paused_millis: RETRY_PAUSE_MILLIS as nat * messages.len(),
        }),
    decreases messages.len(),
{
    let start = DialerView::Connecting { plan: DialPlanView::Pipe { address } };
    let outcomes = busy_then_open(messages);
    if messages.len() == 0 {
        assert(outcomes.drop_first().len() == 0);
    } else {
        let tail = busy_then_open(messages.drop_first());
        let pausing = DialerView::Pausing { address };
        assert(outcomes.drop_first() =~= seq![StepOutcomeView::Done] + tail);
        assert(outcomes.drop_first().drop_first() =~= tail);
        assert(resumed(start, outcomes[0]) == DialProgressView::Continue(pausing));
        assert(resumed(pausing, outcomes.drop_first()[0]) == DialProgressView::Continue(start));
        law_busy_pipe_is_retried(address, messages.drop_first());
        let after_pause = dial_run(start, tail);
        assert(after_pause.connects == messages.len());
        assert(after_pause.paused_millis == 50 * (messages.len() - 1));
        assert(dial_run(pausing, outcomes.drop_first()).paused_millis == 50 * messages.len());
    }
}

/// A step that fails ends the dial with that failure. The one exception is
/// a pipe that reports all its instances busy: the dial pauses and opens
/// the same pipe again.
pub proof fn law_failure_ends_dial(d: DialerView, os_code: Option<i32>, message: Seq<char>)
    ensures
        !is_busy_pipe(d, os_code) ==> resumed(d, StepOutcomeView::Failed { os_code, message })
            == DialProgressView::Failed(dial_failure(message)),
        is_busy_pipe(d, os_code) ==> {
            let address = d->Connecting_plan->Pipe_address;
            let pausing = DialerView::Pausing { address };
            &&& resumed(d, StepOutcomeView::Failed { os_code, message })
                == DialProgressView::Continue(pausing)
            &&& request_of(pausing) == (DialRequestView::Sleep { millis: RETRY_PAUSE_MILLIS })
            &&& resumed(pausing, StepOutcomeView::Done) == DialProgressView::Continue(d)
        },
{
}

/// Once the handshake runs, nothing is connected any more, and the next
/// step ends the dial.
proof fn lemma_handshake_ends_dial(server_name: Seq<char>, outcomes: Seq<StepOutcomeView>)
    ensures
        dial_run(DialerView::Handshaking { server_name }, outcomes).connects == 0,
        outcomes.len() >= 1 ==> !(dial_run(
            DialerView::Handshaking { server_name },
            outcomes,
        ).progress is Continue),
{
}

/// Once the configuration is asked for, nothing is connected any more, and
/// the dial ends within two steps.
proof fn lemma_configuring_ends_dial(server_name: Seq<char>, outcomes: Seq<StepOutcomeView>)
    ensures
        dial_run(DialerView::Configuring { server_name }, outcomes).connects == 0,
        outcomes.len() >= 2 ==> !(dial_run(
            DialerView::Configuring { server_name },
            outcomes,
        ).progress is Continue),
{
    if outcomes.len() > 0 {
        lemma_handshake_ends_dial(server_name, outcomes.drop_first());
    }
}

/// A destination that is no pipe is connected at most once in a dial,
/// however the steps of the dial go, and the dial has ended after three
/// steps at the latest.
pub proof fn law_one_connect_per_dial(plan: DialPlanView, outcomes: Seq<StepOutcomeView>)
    requires
        !(plan is Pipe),
    ensures
        dial_run(DialerView::Connecting { plan }, outcomes).connects <= 1,
        outcomes.len() >= 3 ==> !(dial_run(
            DialerView::Connecting { plan },
            outcomes,
        ).progress is Continue),
{
    if outcomes.len() > 0 {
        match resumed(DialerView::Connecting { plan }, outcomes[0]) {
            DialProgressView::Continue(next) => {
                lemma_configuring_ends_dial(next->Configuring_server_name, outcomes.drop_first());
            },
            _ => {},
        }
    }
}

fn failed_dial(message: String) -> (progress: DialProgress)
    ensures
        progress@ == DialProgressView::Failed(dial_failure(message@)),
{
    DialProgress::Failed(ForwardError { kind: FailureKind::DialFailure, message })
}

impl Dialer {
    /// Starts the dial of `plan`.
    pub fn start(plan: DialPlan) -> (dialer: Dialer)
        ensures
            dialer@ == (DialerView::Connecting { plan: plan@ }),
    {
        Dialer::Connecting { plan }
    }

    /// The step that the dial waits for.
    pub fn request(&self) -> (request: DialRequest)
        ensures
            request@ == request_of(self@),
    {
        match self {
            Dialer::Connecting { plan } => match plan {
                DialPlan::Tcp { host, port } => DialRequest::ConnectTcp {
                    address: tcp_address(host.as_str(), *port),
                },
                DialPlan::Http { host, port } => DialRequest::ConnectTcp {
                    address: tcp_address(host.as_str(), *port),
                },
                DialPlan::Https { host, port } => DialRequest::ConnectTcp {
                    address: tcp_address(host.as_str(), *port),
                },
                DialPlan::Unix { path } => DialRequest::ConnectUnix { path: path.clone() },
                DialPlan::Pipe { address } => DialRequest::OpenPipe { address: address.clone() },
            },
            Dialer::Pausing { .. } => DialRequest::Sleep { millis: RETRY_PAUSE_MILLIS },
            Dialer::Configuring { .. } => DialRequest::LoadTlsConfig,
            Dialer::Handshaking { server_name } => DialRequest::Handshake {
                server_name: server_name.clone(),
            },
        }
    }

    /// Takes the outcome of the requested step, and the verdict of the
    /// server name check for the case that a TLS destination has just been
    /// connected.
    pub fn resume_checked(self, outcome: StepOutcome, verdict: Result<(), String>) -> (progress:
        DialProgress)
        ensures
            progress@ == resumed_with(
                self@,
                outcome@,
                match verdict {
                    Ok(_) => Ok(()),
                    Err(reason) => Err(reason@),
                },
            ),
    {
        match outcome {
            StepOutcome::Failed { os_code, message } => match self {
                Dialer::Connecting { plan: DialPlan::Pipe { address } } => match os_code {
                    Some(code) => if code == PIPE_BUSY {
                        DialProgress::Continue(Dialer::Pausing { address })
                    } else {
                        failed_dial(message)
                    },
                    None => failed_dial(message),
                },
                _ => failed_dial(message),
            },
            StepOutcome::Done => match self {
                Dialer::Connecting { plan: DialPlan::Https { host, port } } => match verdict {
                    Ok(_) => DialProgress::Continue(Dialer::Configuring { server_name: host }),
                    Err(reason) => DialProgress::Failed(
                        ForwardError { kind: FailureKind::InvalidDestination, message: reason },
                    ),
                },
                Dialer::Connecting { .. } => DialProgress::Established,
                Dialer::Pausing { address } => DialProgress::Continue(
                    Dialer::Connecting { plan: DialPlan::Pipe { address } },
                ),
                Dialer::Configuring { server_name } => DialProgress::Continue(
                    Dialer::Handshaking { server_name },
                ),
                Dialer::Handshaking { .. } => DialProgress::Established,
            },
        }
    }

    /// Takes the outcome of the requested step and says where the dial
    /// stands. The name of the server of a TLS destination is checked once
    /// its stream is connected.
    pub fn resume(self, outcome: StepOutcome) -> (progress: DialProgress)
        ensures
            progress@ == resumed(self@, outcome@),
    {
        let verdict = match (&self, &outcome) {
            (
                Dialer::Connecting { plan: DialPlan::Https { host, port } },
                StepOutcome::Done,
            ) => check_server_name(host.as_str()),
            _ => Ok(()),
        };
        self.resume_checked(outcome, verdict)
    }
}

/// Where the dial of a destination stands before its first step: at the
/// connect of the plan that the destination resolves to, or at the failure
/// to resolve it.
pub open spec fn connecting(d: DestinationView, platform: Platform) -> DialProgressView {
    match resolved(d, platform) {
        Ok(plan) => DialProgressView::Continue(DialerView::Connecting { plan }),
        Err(e) => DialProgressView::Failed(e),
    }
}

/// Begins the connection to a destination: resolves its URL and starts the
/// dial. A destination that does not resolve has failed before anything is
/// dialed.
pub fn connect(dest: &Destination, platform: Platform) -> (progress: DialProgress)
    ensures
        progress@ == connecting(dest@, platform),
{
    match resolve(dest, platform) {
        Ok(plan) => DialProgress::Continue(Dialer::start(plan)),
        Err(e) => DialProgress::Failed(e),
    }
}

} // verus!
