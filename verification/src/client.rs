//! The session handle and the command executor. A `Client` owns one
//! authenticated connection and at most one command channel. Connecting
//! is a linear dial -> authenticate -> open-channel sequence, driven as a
//! step function from phase and event to next phase and action, so the
//! decisions are separate from the transport I/O that carries them out.
//! Executing a command drains the channel's inbound frames until the
//! terminal exit-status frame.

use crate::channel::{drain_overflows, drain_spec, Channel, Frame};
use crate::error::SshError;
use crate::host::{address_text, Host};
use crate::text::{bytes_eq, lossy_decode, push_decimal, utf8_lossy};
use vstd::prelude::*;

verus! {

/// How the client proves its identity to the server.
#[derive(Clone, Debug, PartialEq, Eq, Hash)]
pub enum AuthMethod {
    Password(String),
}

/// The server-identity verification policy: an explicit, caller-chosen
/// decision, never an implicit accept-all.
#[derive(Clone, Debug, PartialEq, Eq)]
pub enum ServerCheckPolicy {
    /// Accept any server key. An explicit opt-in, fit for tests only.
    AcceptAny,
    /// Accept a server key only if its fingerprint is one of these.
    PinnedFingerprints(Vec<Vec<u8>>),
}

/// Whether the pin at index `i` equals the fingerprint.
pub open spec fn pin_matches(pins: Seq<Vec<u8>>, i: int, fp: Seq<u8>) -> bool {
    0 <= i < pins.len() && pins[i]@ == fp
}

/// Whether the policy accepts a server key with the given fingerprint.
pub open spec fn policy_accepts(policy: ServerCheckPolicy, fp: Seq<u8>) -> bool {
    match policy {
        ServerCheckPolicy::AcceptAny => true,
        ServerCheckPolicy::PinnedFingerprints(pins) => exists|i: int|
            #[trigger] pin_matches(pins@, i, fp),
    }
}

/// The handshake callback: it decides whether the server's key is
/// accepted, by the configured policy alone.
#[derive(Clone, Debug, PartialEq, Eq)]
pub struct Handler {
    pub policy: ServerCheckPolicy,
}

impl Handler {
    /// A handler with the given verification policy.
    pub fn new(policy: ServerCheckPolicy) -> (h: Handler)
        ensures
            h.policy == policy,
    {
        Handler { policy }
    }

    /// Decides whether a server key with this fingerprint is accepted.
    pub fn check_server_key(&self, fingerprint: &Vec<u8>) -> (r: bool)
        ensures
            r == policy_accepts(self.policy, fingerprint@),
    {
        match &self.policy {
            ServerCheckPolicy::AcceptAny => true,
            ServerCheckPolicy::PinnedFingerprints(pins) => {
                let mut i: usize = 0;
                while i < pins.len()
                    invariant
                        self.policy == ServerCheckPolicy::PinnedFingerprints(*pins),
                        i <= pins.len(),
                        forall|j: int| 0 <= j < i ==> pins@[j]@ != fingerprint@,
                    decreases pins.len() - i,
                {
                    if bytes_eq(&pins[i], fingerprint) {
                        proof {
                            assert(pin_matches(pins@, i as int, fingerprint@));
                            assert(self.policy matches ServerCheckPolicy::PinnedFingerprints(ps)
                                && ps == *pins);
                        }
                        return true;
                    }
                    i += 1;
                }
                false
            },
        }
    }
}

/// What a successful execution yields: the output text, lossily decoded
/// from the received bytes, and the command's numeric exit status.
/// Produced exactly once per successful execute call; never partial.
#[derive(Clone, Debug, PartialEq, Eq, Hash)]
pub struct CommandExecutedResult {
    pub output: String,
    pub exit_status: u32,
}

impl CommandExecutedResult {
    pub fn new(output: String, exit_status: u32) -> (r: CommandExecutedResult)
        ensures
            r.output == output,
            r.exit_status == exit_status,
    {
        CommandExecutedResult { output, exit_status }
    }
}

/// The exec request handed to the transport: the literal command string,
/// with no shell quoting or escaping, and a reply requested.
#[derive(Clone, Debug, PartialEq, Eq)]
pub struct ExecRequest {
    pub want_reply: bool,
    pub command: String,
}

/// Where the connect sequence stands.
#[derive(Clone, Copy, Debug, PartialEq, Eq, Structural)]
pub enum ConnectPhase {
    Start,
    Dialing,
    Authenticating,
    OpeningChannel,
    Connected,
    Failed,
}

/// What the transport reported back for the last connect action.
#[derive(Clone, Copy, Debug, PartialEq, Eq, Structural)]
pub enum ConnectEvent {
    Begin,
    TransportUp,
    TransportDown,
    AuthAccepted,
    AuthRejected,
    AuthDown,
    ChannelUp,
    ChannelDown,
}

/// The next piece of transport work the connect sequence asks for.
#[derive(Clone, Debug, PartialEq, Eq)]
pub enum ConnectAction {
    /// Dial the transport to this `host:port` address.
    Dial(String),
    /// Authenticate with this username and password.
    Authenticate(String, String),
    /// Open the command-execution channel.
    OpenChannel,
    /// The connection is established; a fresh channel is stored.
    Succeed,
    /// The connect attempt is over with this error.
    Fail(SshError),
}

/// The connect events that are meaningful in each phase.
pub open spec fn phase_accepts(phase: ConnectPhase, event: ConnectEvent) -> bool {
    match (phase, event) {
        (ConnectPhase::Start, ConnectEvent::Begin) => true,
        (ConnectPhase::Dialing, ConnectEvent::TransportUp) => true,
        (ConnectPhase::Dialing, ConnectEvent::TransportDown) => true,
        (ConnectPhase::Authenticating, ConnectEvent::AuthAccepted) => true,
        (ConnectPhase::Authenticating, ConnectEvent::AuthRejected) => true,
        (ConnectPhase::Authenticating, ConnectEvent::AuthDown) => true,
        (ConnectPhase::OpeningChannel, ConnectEvent::ChannelUp) => true,
        (ConnectPhase::OpeningChannel, ConnectEvent::ChannelDown) => true,
        _ => false,
    }
}

/// What a connect attempt yields when the transport's answers are the
/// given event sequence, starting in the given phase: success once the
/// channel is up, the matching error on a rejection or a transport
/// failure, and `ConnectionError` when the transport stops answering
/// (the sequence ends, or answers out of order).
pub open spec fn script_result(phase: ConnectPhase, events: Seq<ConnectEvent>) -> Result<
    (),
    SshError,
>
    decreases events.len(),
{
    if events.len() == 0 {
        Err(SshError::ConnectionError)
    } else if !phase_accepts(phase, events[0]) {
        Err(SshError::ConnectionError)
    } else {
        match (phase, events[0]) {
            (ConnectPhase::Dialing, ConnectEvent::TransportUp) => script_result(
                ConnectPhase::Authenticating,
                events.drop_first(),
            ),
            (ConnectPhase::Dialing, ConnectEvent::TransportDown) => Err(SshError::ConnectionError),
            (ConnectPhase::Authenticating, ConnectEvent::AuthAccepted) => script_result(
                ConnectPhase::OpeningChannel,
                events.drop_first(),
            ),
            (ConnectPhase::Authenticating, ConnectEvent::AuthRejected) => Err(
                SshError::AuthenticationFailed,
            ),
            (ConnectPhase::Authenticating, ConnectEvent::AuthDown) => Err(
                SshError::ConnectionError,
            ),
            (ConnectPhase::OpeningChannel, ConnectEvent::ChannelUp) => Ok(()),
            (ConnectPhase::OpeningChannel, ConnectEvent::ChannelDown) => Err(
                SshError::ChannelOpenFailed,
            ),
            _ => Err(SshError::ConnectionError),
        }
    }
}

/// Law: a connect sequence can only succeed after the server accepted
/// the credentials — no event script reaches success without an
/// `AuthAccepted` answer in it.
pub proof fn lemma_connect_success_needs_auth(phase: ConnectPhase, events: Seq<ConnectEvent>)
    requires
        script_result(phase, events) is Ok,
        phase is Dialing || phase is Authenticating,
    ensures
        exists|i: int| 0 <= i < events.len() && events[i] is AuthAccepted,
    decreases events.len(),
{
    match (phase, events[0]) {
        (ConnectPhase::Dialing, ConnectEvent::TransportUp) => {
            let rest = events.drop_first();
            lemma_connect_success_needs_auth(ConnectPhase::Authenticating, rest);
            let i = choose|i: int| 0 <= i < rest.len() && rest[i] is AuthAccepted;
            assert(events[i + 1] == rest[i]);
            assert(0 <= i + 1 < events.len() && events[i + 1] is AuthAccepted);
        },
        (ConnectPhase::Authenticating, ConnectEvent::AuthAccepted) => {
            assert(0 <= 0 < events.len() && events[0] is AuthAccepted);
        },
        _ => {},
    }
}

/// The default cap on accumulated command output.
pub const DEFAULT_OUTPUT_LIMIT: usize = 16 * 1024 * 1024;

/// One SSH session: the connection target and credentials, the output
/// cap, and at most one command channel, present only after a successful
/// connect sequence.
pub struct Client {
    pub host: Host,
    pub port: usize,
    pub username: String,
    pub auth: AuthMethod,
    pub output_limit: usize,
    pub channel: Option<Channel>,
}

/// The two clients agree on everything but the channel.
pub open spec fn same_config(a: &Client, b: &Client) -> bool {
    &&& a.host == b.host
    &&& a.port == b.port
    &&& a.username == b.username
    &&& a.auth == b.auth
    &&& a.output_limit == b.output_limit
}

impl Client {
    /// The session invariant: a stored channel is well formed and carries
    /// the configured output cap.
    pub open spec fn wf(&self) -> bool {
        self.channel matches Some(c) ==> c.wf() && c.limit == self.output_limit
    }

    /// A new session: no network I/O, no channel yet.
    pub fn new(host: Host, port: usize, username: String, auth: AuthMethod) -> (c: Client)
        ensures
            c.wf(),
            c.host == host,
            c.port == port,
            c.username == username,
            c.auth == auth,
            c.output_limit == DEFAULT_OUTPUT_LIMIT,
            c.channel is None,
    {
        Client { host, port, username, auth, output_limit: DEFAULT_OUTPUT_LIMIT, channel: None }
    }

    /// Reconfigures the output cap, before any channel is open.
    pub fn set_output_limit(&mut self, limit: usize)
        requires
            old(self).wf(),
            old(self).channel is None,
        ensures
            final(self).wf(),
            final(self).channel is None,
            final(self).output_limit == limit,
            final(self).host == old(self).host,
            final(self).port == old(self).port,
            final(self).username == old(self).username,
            final(self).auth == old(self).auth,
    {
        self.output_limit = limit;
    }

    /// Whether a channel is open, that is, whether `connect` succeeded
    /// and the connection has not been lost since.
    pub fn is_connected(&self) -> (r: bool)
        ensures
            r == (self.channel is Some),
    {
        self.channel.is_some()
    }

    /// The `host:port` address the transport dials.
    pub fn address(&self) -> (r: String)
        ensures
            r@ == address_text(self.host, self.port as nat),
    {
        let mut out = self.host.to_text();
        out.append(":");
        push_decimal(&mut out, self.port);
        proof {
            reveal_strlit(":");
            assert(":"@ =~= seq![':']);
            assert(out@ =~= address_text(self.host, self.port as nat));
        }
        out
    }

    /// One step of the connect sequence: given where it stands and what
    /// the transport reported, the next phase and the next action. Pure
    /// decision; the caller performs the action and hands back the event.
    pub fn connect_step(&self, phase: ConnectPhase, event: ConnectEvent) -> (r: (
        ConnectPhase,
        ConnectAction,
    ))
        requires
            phase_accepts(phase, event),
        ensures
            (phase is Start && event is Begin) ==> r.0 is Dialing && (r.1 matches
                ConnectAction::Dial(a) && a@ == address_text(self.host, self.port as nat)),
            (phase is Dialing && event is TransportUp) ==> r.0 is Authenticating && (r.1 matches
                ConnectAction::Authenticate(u, p) && u == self.username && (self.auth matches
                AuthMethod::Password(pw) && p == pw)),
            (phase is Dialing && event is TransportDown) ==> r.0 is Failed && r.1
                == ConnectAction::Fail(SshError::ConnectionError),
            (phase is Authenticating && event is AuthAccepted) ==> r.0 is OpeningChannel && r.1
                is OpenChannel,
            (phase is Authenticating && event is AuthRejected) ==> r.0 is Failed && r.1
                == ConnectAction::Fail(SshError::AuthenticationFailed),
            (phase is Authenticating && event is AuthDown) ==> r.0 is Failed && r.1
                == ConnectAction::Fail(SshError::ConnectionError),
            (phase is OpeningChannel && event is ChannelUp) ==> r.0 is Connected && r.1 is Succeed,
            (phase is OpeningChannel && event is ChannelDown) ==> r.0 is Failed && r.1
                == ConnectAction::Fail(SshError::ChannelOpenFailed),
    {
        match (phase, event) {
            (ConnectPhase::Start, ConnectEvent::Begin) => (
                ConnectPhase::Dialing,
                ConnectAction::Dial(self.address()),
            ),
            (ConnectPhase::Dialing, ConnectEvent::TransportUp) => {
                match &self.auth {
                    AuthMethod::Password(pw) => (
                        ConnectPhase::Authenticating,
                        ConnectAction::Authenticate(self.username.clone(), pw.clone()),
                    ),
                }
            },
            (ConnectPhase::Dialing, ConnectEvent::TransportDown) => (
                ConnectPhase::Failed,
                ConnectAction::Fail(SshError::ConnectionError),
            ),
            (ConnectPhase::Authenticating, ConnectEvent::AuthAccepted) => (
                ConnectPhase::OpeningChannel,
                ConnectAction::OpenChannel,
            ),
            (ConnectPhase::Authenticating, ConnectEvent::AuthRejected) => (
                ConnectPhase::Failed,
                ConnectAction::Fail(SshError::AuthenticationFailed),
            ),
            (ConnectPhase::Authenticating, ConnectEvent::AuthDown) => (
                ConnectPhase::Failed,
                ConnectAction::Fail(SshError::ConnectionError),
            ),
            (ConnectPhase::OpeningChannel, ConnectEvent::ChannelUp) => (
                ConnectPhase::Connected,
                ConnectAction::Succeed,
            ),
            (ConnectPhase::OpeningChannel, ConnectEvent::ChannelDown) => (
                ConnectPhase::Failed,
                ConnectAction::Fail(SshError::ChannelOpenFailed),
            ),
            _ => (ConnectPhase::Failed, ConnectAction::Fail(SshError::ConnectionError)),
        }
    }

    /// Whether this event is meaningful in this phase.
    pub fn event_expected(phase: ConnectPhase, event: ConnectEvent) -> (r: bool)
        ensures
            r == phase_accepts(phase, event),
    {
        match (phase, event) {
            (ConnectPhase::Start, ConnectEvent::Begin) => true,
            (ConnectPhase::Dialing, ConnectEvent::TransportUp) => true,
            (ConnectPhase::Dialing, ConnectEvent::TransportDown) => true,
            (ConnectPhase::Authenticating, ConnectEvent::AuthAccepted) => true,
            (ConnectPhase::Authenticating, ConnectEvent::AuthRejected) => true,
            (ConnectPhase::Authenticating, ConnectEvent::AuthDown) => true,
            (ConnectPhase::OpeningChannel, ConnectEvent::ChannelUp) => true,
            (ConnectPhase::OpeningChannel, ConnectEvent::ChannelDown) => true,
            _ => false,
        }
    }

    /// Runs the connect sequence against a given sequence of transport
    /// events (the deterministic core of connecting: the dial has been
    /// initiated, and `events` are the transport's answers, in order).
    /// On success exactly one fresh channel is stored, replacing any
    /// prior one; on failure the session keeps its previous channel.
    pub fn connect(&mut self, events: &Vec<ConnectEvent>) -> (r: Result<(), SshError>)
        requires
            old(self).wf(),
        ensures
            final(self).wf(),
            same_config(old(self), final(self)),
            r == script_result(ConnectPhase::Dialing, events@),
            r matches Ok(u) ==> final(self).channel matches Some(c) && c.state is Open
                && c.output@.len() == 0 && c.exit_status is None && !c.overflowed && c.limit
                == old(self).output_limit,
            r is Err ==> final(self).channel == old(self).channel,
    {
        let mut phase = ConnectPhase::Dialing;
        let mut j: usize = 0;
        proof {
            assert(events@.skip(0) =~= events@);
        }
        while j < events.len()
            invariant
                old(self).wf(),
                *self == *old(self),
                j <= events.len(),
                phase is Dialing || phase is Authenticating || phase is OpeningChannel,
                script_result(ConnectPhase::Dialing, events@) == script_result(
                    phase,
                    events@.skip(j as int),
                ),
            decreases events.len() - j,
        {
            let e = events[j];
            proof {
                assert(events@.skip(j as int)[0] == events@[j as int]);
                assert(events@.skip(j as int).drop_first() =~= events@.skip(j as int + 1));
            }
            if !Self::event_expected(phase, e) {
                return Err(SshError::ConnectionError);
            }
            let step = self.connect_step(phase, e);
            match step.1 {
                ConnectAction::Fail(err) => {
                    return Err(err);
                },
                ConnectAction::Succeed => {
                    self.on_channel_opened();
                    return Ok(());
                },
                _ => {
                    phase = step.0;
                },
            }
            j += 1;
        }
        Err(SshError::ConnectionError)
    }

    /// The channel is open: store it, replacing (and thereby closing) any
    /// prior one.
    pub fn on_channel_opened(&mut self)
        requires
            old(self).wf(),
        ensures
            final(self).wf(),
            same_config(old(self), final(self)),
            final(self).channel matches Some(c) && c.state is Open && c.output@.len() == 0
                && c.exit_status is None && !c.overflowed && c.limit == old(self).output_limit,
    {
        self.channel = Some(Channel::new(self.output_limit));
    }

    /// A configured deadline expired while awaiting the transport: the
    /// session closes, and `Timeout` is the failure to surface for the
    /// interrupted call.
    pub fn on_timeout(&mut self) -> (e: SshError)
        requires
            old(self).wf(),
        ensures
            final(self).wf(),
            same_config(old(self), final(self)),
            final(self).channel is None,
            e == SshError::Timeout,
    {
        self.channel = None;
        SshError::Timeout
    }

    /// The transport is gone (connection loss, or a cancelled call):
    /// drop the channel, so that later calls fail with `NotConnected`
    /// rather than hang.
    pub fn on_transport_lost(&mut self)
        requires
            old(self).wf(),
        ensures
            final(self).wf(),
            same_config(old(self), final(self)),
            final(self).channel is None,
    {
        self.channel = None;
    }

    /// Starts one execution: requires a prior successful connect (a
    /// channel); replaces the channel with a fresh empty one, so that no
    /// earlier call's output leaks into this one, and yields the exec
    /// request to transmit, carrying the literal command.
    pub fn begin_execute(&mut self, command: &str) -> (r: Result<ExecRequest, SshError>)
        requires
            old(self).wf(),
        ensures
            final(self).wf(),
            same_config(old(self), final(self)),
            old(self).channel is None ==> r == Err::<ExecRequest, SshError>(
                SshError::NotConnected,
            ) && final(self).channel is None,
            old(self).channel is Some ==> (r matches Ok(q) && q.want_reply && q.command@
                == command@) && (final(self).channel matches Some(c) && c.state is Draining
                && c.output@.len() == 0 && c.exit_status is None && !c.overflowed && c.limit
                == old(self).output_limit),
    {
        if self.channel.is_none() {
            return Err(SshError::NotConnected);
        }
        let mut ch = Channel::new(self.output_limit);
        ch.exec_requested();
        self.channel = Some(ch);
        Ok(ExecRequest { want_reply: true, command: command.to_owned() })
    }

    /// Feeds one inbound frame to the draining channel; returns whether
    /// the channel is now closed (terminal frame seen, or cap exceeded).
    pub fn on_frame(&mut self, frame: &Frame) -> (done: bool)
        requires
            old(self).wf(),
            old(self).channel matches Some(c) && c.state is Draining,
        ensures
            final(self).wf(),
            same_config(old(self), final(self)),
            final(self).channel is Some,
            final(self).channel->0.limit == old(self).channel->0.limit,
            done == (final(self).channel->0.state is Closed),
            (frame matches Frame::Data(d) && old(self).channel->0.output@.len() + d@.len()
                <= old(self).channel->0.limit) ==> {
                &&& final(self).channel->0.state is Draining
                &&& (frame matches Frame::Data(d) && final(self).channel->0.output@ == old(self).channel->0.output@ + d@)
                &&& final(self).channel->0.exit_status is None
                &&& !final(self).channel->0.overflowed
            },
            (frame matches Frame::Data(d) && old(self).channel->0.output@.len() + d@.len() > old(self).channel->0.limit) ==> {
                &&& final(self).channel->0.state is Closed
                &&& final(self).channel->0.output@ == old(self).channel->0.output@
                &&& final(self).channel->0.exit_status is None
                &&& final(self).channel->0.overflowed
            },
            frame matches Frame::ExitStatus(s) ==> {
                &&& final(self).channel->0.state is Closed
                &&& final(self).channel->0.output@ == old(self).channel->0.output@
                &&& final(self).channel->0.exit_status == Some(*s)
                &&& !final(self).channel->0.overflowed
            },
            frame is Other ==> final(self).channel->0 == old(self).channel->0,
    {
        let ch = self.channel.take();
        match ch {
            Some(mut c) => {
                let done = c.on_frame(frame);
                self.channel = Some(c);
                done
            },
            None => false,
        }
    }

    /// The connection closed while draining: close the channel without an
    /// exit status, never silently reporting success.
    pub fn on_channel_eof(&mut self)
        requires
            old(self).wf(),
            old(self).channel matches Some(c) && c.state is Draining,
        ensures
            final(self).wf(),
            same_config(old(self), final(self)),
            final(self).channel matches Some(c) && c.state is Closed && c.output@ == old(self).channel->0.output@ && c.exit_status is None && !c.overflowed && c.limit == old(self).channel->0.limit,
    {
        let ch = self.channel.take();
        match ch {
            Some(mut c) => {
                c.on_eof();
                self.channel = Some(c);
            },
            None => {},
        }
    }

    /// Finishes one execution on a closed channel. With an observed exit
    /// status this yields exactly one result — the accumulated output,
    /// lossily decoded, and that status — and re-opens a fresh channel
    /// for the next call. Without one it fails (`OutputTooLarge` if the
    /// cap was hit, `CommandIncomplete` otherwise) and drops the channel.
    pub fn finish_execute(&mut self) -> (r: Result<CommandExecutedResult, SshError>)
        requires
            old(self).wf(),
            old(self).channel matches Some(c) && c.state is Closed,
        ensures
            final(self).wf(),
            same_config(old(self), final(self)),
            old(self).channel->0.exit_status matches Some(s) ==> (r matches Ok(res) && res.output@
                == lossy_decode(old(self).channel->0.output@) && res.exit_status == s) && (final(self).channel matches Some(c) && c.state is Open && c.limit == old(self).channel->0.limit),
            (old(self).channel->0.exit_status is None && old(self).channel->0.overflowed) ==> (r
                matches Err(e) && e == SshError::OutputTooLarge) && final(self).channel is None,
            (old(self).channel->0.exit_status is None && !old(self).channel->0.overflowed) ==> (r
                matches Err(e) && e == SshError::CommandIncomplete) && final(self).channel is None,
    {
        let ch = self.channel.take();
        match ch {
            Some(c) => {
                match c.exit_status {
                    Some(s) => {
                        let out = utf8_lossy(&c.output);
                        self.channel = Some(Channel::new(c.limit));
                        Ok(CommandExecutedResult::new(out, s))
                    },
                    None => {
                        if c.overflowed {
                            Err(SshError::OutputTooLarge)
                        } else {
                            Err(SshError::CommandIncomplete)
                        }
                    },
                }
            },
            None => Err(SshError::NotConnected),
        }
    }

    /// Executes one command against a given sequence of inbound frames —
    /// the deterministic core of `execute`: begin, drain the frames until
    /// the terminal one, finish. Exactly one result or one error; a
    /// missing exit status is `CommandIncomplete`, never a truncated
    /// success.
    pub fn execute(&mut self, command: &str, frames: &Vec<Frame>) -> (r: Result<
        CommandExecutedResult,
        SshError,
    >)
        requires
            old(self).wf(),
        ensures
            final(self).wf(),
            same_config(old(self), final(self)),
            old(self).channel is None ==> (r matches Err(e) && e == SshError::NotConnected)
                && final(self).channel is None,
            old(self).channel is Some ==> ({
                let room = old(self).output_limit as nat;
                &&& (drain_spec(frames@, room) matches Some(p) ==> (r matches Ok(res)
                    && res.output@ == lossy_decode(p.0) && res.exit_status == p.1) && (final(self).channel matches Some(c) && c.state is Open))
                &&& (drain_spec(frames@, room) is None && drain_overflows(frames@, room) ==> (r
                    matches Err(e) && e == SshError::OutputTooLarge) && final(self).channel
                    is None)
                &&& (drain_spec(frames@, room) is None && !drain_overflows(frames@, room) ==> (r
                    matches Err(e) && e == SshError::CommandIncomplete) && final(self).channel
                    is None)
            }),
    {
        let ghost room: nat = old(self).output_limit as nat;
        match self.begin_execute(command) {
            Err(e) => {
                return Err(e);
            },
            Ok(_req) => {},
        }
        proof {
            assert(frames@.skip(0) =~= frames@);
            assert(self.channel->0.output@ =~= Seq::<u8>::empty());
            match drain_spec(frames@, room) {
                Some(p) => {
                    assert(Seq::<u8>::empty() + p.0 =~= p.0);
                },
                None => {},
            }
        }
        let mut i: usize = 0;
        let mut done = false;
        while i < frames.len() && !done
            invariant
                self.wf(),
                same_config(old(self), self),
                old(self).channel is Some,
                room == old(self).output_limit as nat,
                i <= frames.len(),
                self.channel is Some,
                self.channel->0.limit == old(self).output_limit,
                !done ==> ({
                    let c = self.channel->0;
                    &&& c.state is Draining
                    &&& drain_spec(frames@, room) == prepend_drain(
                        c.output@,
                        drain_spec(
                            frames@.skip(i as int),
                            (old(self).output_limit - c.output@.len()) as nat,
                        ),
                    )
                    &&& drain_overflows(frames@, room) == drain_overflows(
                        frames@.skip(i as int),
                        (old(self).output_limit - c.output@.len()) as nat,
                    )
                }),
                done ==> ({
                    let c = self.channel->0;
                    &&& c.state is Closed
                    &&& (c.exit_status matches Some(s) ==> drain_spec(frames@, room) == Some(
                        (c.output@, s),
                    ))
                    &&& (c.exit_status is None ==> c.overflowed && drain_spec(frames@, room)
                        is None && drain_overflows(frames@, room))
                }),
            decreases frames.len() - i,
        {
            let ghost cpre = self.channel->0;
            let ghost rest = frames@.skip(i as int);
            let ghost rm = (old(self).output_limit - cpre.output@.len()) as nat;
            proof {
                assert(rest[0] == frames@[i as int]);
                assert(rest.drop_first() =~= frames@.skip(i as int + 1));
            }
            let f = &frames[i];
            let d = self.on_frame(f);
            proof {
                let cpost = self.channel->0;
                match frames@[i as int] {
                    Frame::Data(dd) => {
                        if cpre.output@.len() + dd@.len() <= old(self).output_limit {
                            let rm2 = (rm - dd@.len()) as nat;
                            match drain_spec(rest.drop_first(), rm2) {
                                Some(p) => {
                                    assert(cpre.output@ + (dd@ + p.0) =~= (cpre.output@ + dd@)
                                        + p.0);
                                },
                                None => {},
                            }
                        }
                    },
                    Frame::ExitStatus(s) => {
                        assert(cpre.output@ + Seq::<u8>::empty() =~= cpre.output@);
                    },
                    Frame::Other => {},
                }
            }
            done = d;
            i += 1;
        }
        if !done {
            proof {
                assert(frames@.skip(frames@.len() as int) =~= Seq::<Frame>::empty());
            }
            self.on_channel_eof();
        }
        self.finish_execute()
    }
}

/// What a drain result looks like after bytes already accumulated are
/// put in front of it.
pub open spec fn prepend_drain(prefix: Seq<u8>, r: Option<(Seq<u8>, u32)>) -> Option<
    (Seq<u8>, u32),
> {
    match r {
        Some(p) => Some((prefix + p.0, p.1)),
        None => None,
    }
}

} // verus!
