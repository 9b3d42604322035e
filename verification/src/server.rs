//! The daemon's relay decisions.
//!
//! The daemon keeps the latest playback state reported by the extension,
//! hands it to each phone remote that connects, forwards playback commands
//! from the remotes to the extension and handles volume commands itself.
//! The sockets, channels and locks around these decisions belong to the
//! caller.

use vstd::prelude::*;
use crate::protocol::{Command, MediaState, is_default_media_state};

verus! {

/// What arrived on a WebSocket, with a text message already decoded into
/// the message type that the socket carries.
pub enum SocketEvent<T> {
    /// A text message that decoded into a message.
    Message(T),
    /// A text message that did not decode.
    Malformed,
    /// The peer closed the socket or the stream ended.
    Closed,
    /// Anything else (binary, ping, pong, transport error).
    Ignored,
}

/// What to do after an event on the extension's socket.
pub enum ExtensionAction {
    /// The new state was stored; send it to every connected remote.
    Broadcast(MediaState),
    /// Log that a message could not be decoded, and keep listening.
    WarnMalformed,
    /// Stop serving this socket.
    Disconnect,
    /// Keep listening.
    Continue,
}

/// A volume change that the daemon applies to the machine itself.
#[derive(Debug, Clone, Copy, PartialEq, Eq, Structural)]
pub enum VolumeRequest {
    Up,
    Down,
    SetLevel(u8),
}

/// What to do after an event on a phone remote's socket.
pub enum RemoteAction {
    /// Apply a volume change locally.
    Volume(VolumeRequest),
    /// Forward the command to the extension.
    Forward(Command),
    /// Log that a message could not be decoded, and keep listening.
    WarnMalformed,
    /// Stop serving this socket.
    Disconnect,
    /// Keep listening.
    Continue,
}

/// The daemon's shared state: the latest playback state from the extension.
pub struct AppState {
    pub media_state: MediaState,
}

/// Where a command goes: volume commands stay on this machine, every other
/// command goes to the extension unchanged.
pub open spec fn spec_route(cmd: Command) -> RemoteAction {
    match cmd {
        Command::VolumeUp => RemoteAction::Volume(VolumeRequest::Up),
        Command::VolumeDown => RemoteAction::Volume(VolumeRequest::Down),
        Command::SetVolume { level } => RemoteAction::Volume(VolumeRequest::SetLevel(level)),
        _ => RemoteAction::Forward(cmd),
    }
}

/// The action for an event on a remote's socket.
pub open spec fn spec_remote_action(event: SocketEvent<Command>) -> RemoteAction {
    match event {
        SocketEvent::Message(cmd) => spec_route(cmd),
        SocketEvent::Malformed => RemoteAction::WarnMalformed,
        SocketEvent::Closed => RemoteAction::Disconnect,
        SocketEvent::Ignored => RemoteAction::Continue,
    }
}

/// Whether a command is handled on this machine.
pub open spec fn is_volume_command(cmd: Command) -> bool {
    ||| cmd is VolumeUp
    ||| cmd is VolumeDown
    ||| cmd is SetVolume
}

/// Decide where a command from a phone remote goes.
pub fn route_command(cmd: Command) -> (action: RemoteAction)
    ensures
        action == spec_route(cmd),
{
    match cmd {
        Command::VolumeUp => RemoteAction::Volume(VolumeRequest::Up),
        Command::VolumeDown => RemoteAction::Volume(VolumeRequest::Down),
        Command::SetVolume { level } => RemoteAction::Volume(VolumeRequest::SetLevel(level)),
        other => RemoteAction::Forward(other),
    }
}

/// Decide what to do about an event on a phone remote's socket.
pub fn on_remote_event(event: SocketEvent<Command>) -> (action: RemoteAction)
    ensures
        action == spec_remote_action(event),
{
    match event {
        SocketEvent::Message(cmd) => route_command(cmd),
        SocketEvent::Malformed => RemoteAction::WarnMalformed,
        SocketEvent::Closed => RemoteAction::Disconnect,
        SocketEvent::Ignored => RemoteAction::Continue,
    }
}

impl AppState {
    /// Shared state before the extension has reported anything.
    pub fn new() -> (state: AppState)
        ensures
            is_default_media_state(state.media_state),
    {
        AppState { media_state: MediaState::default() }
    }

    /// The state to send to a phone remote as soon as it connects, so that
    /// its screen is not blank: the latest state stored.
    pub fn current_state(&self) -> (snapshot: MediaState)
        ensures
            snapshot == self.media_state,
    {
        self.media_state.duplicate()
    }

    /// Handle an event on the extension's socket: a decoded state replaces
    /// the stored one and is broadcast to the remotes; nothing else changes
    /// the stored state.
    pub fn on_extension_event(&mut self, event: SocketEvent<MediaState>) -> (action: ExtensionAction)
        ensures
            final(self).media_state == spec_stored_after(old(self).media_state, event),
            match event {
                SocketEvent::Message(s) => {
                    &&& final(self).media_state == s
                    &&& action == ExtensionAction::Broadcast(s)
                },
                SocketEvent::Malformed => {
                    &&& final(self).media_state == old(self).media_state
                    &&& action is WarnMalformed
                },
                SocketEvent::Closed => {
                    &&& final(self).media_state == old(self).media_state
                    &&& action is Disconnect
                },
                SocketEvent::Ignored => {
                    &&& final(self).media_state == old(self).media_state
                    &&& action is Continue
                },
            },
    {
        match event {
            SocketEvent::Message(s) => {
                self.media_state = s.duplicate();
                ExtensionAction::Broadcast(s)
            },
            SocketEvent::Malformed => ExtensionAction::WarnMalformed,
            SocketEvent::Closed => ExtensionAction::Disconnect,
            SocketEvent::Ignored => ExtensionAction::Continue,
        }
    }
}

/// The stored state after an extension event: the decoded state if the
/// event carried one, else the state before.
pub open spec fn spec_stored_after(before: MediaState, event: SocketEvent<MediaState>) -> MediaState {
    match event {
        SocketEvent::Message(s) => s,
        _ => before,
    }
}

/// The stored state after a run of extension events, taken in order by
/// `AppState::on_extension_event` (each step is `spec_stored_after`).
pub open spec fn spec_stored_after_run(start: MediaState, events: Seq<SocketEvent<MediaState>>) -> MediaState
    decreases events.len(),
{
    if events.len() == 0 {
        start
    } else {
        spec_stored_after(spec_stored_after_run(start, events.drop_last()), events.last())
    }
}

/// Whether event `i` of a run is the last one that carried a decoded state.
pub open spec fn is_last_report(events: Seq<SocketEvent<MediaState>>, i: int) -> bool {
    &&& 0 <= i < events.len()
    &&& events[i] is Message
    &&& forall|k: int| i < k < events.len() ==> !(#[trigger] events[k] is Message)
}

/// After any run of extension events, the state that `current_state` hands
/// to a newly connected remote is the last state the extension reported;
/// when the run holds no report, it is the state from before the run (the
/// default state right after `AppState::new`).
pub proof fn lemma_connect_sees_latest_report(start: MediaState, events: Seq<SocketEvent<MediaState>>)
    ensures
        (forall|i: int| 0 <= i < events.len() ==> !(#[trigger] events[i] is Message))
            ==> spec_stored_after_run(start, events) == start,
        forall|i: int| #[trigger] is_last_report(events, i) ==> (events[i] matches SocketEvent::Message(s)
            && spec_stored_after_run(start, events) == s),
    decreases events.len(),
{
    if events.len() > 0 {
        let prefix = events.drop_last();
        lemma_connect_sees_latest_report(start, prefix);
        let n = events.len() - 1;
        if events.last() is Message {
            assert forall|i: int| #[trigger] is_last_report(events, i) implies (events[i] matches SocketEvent::Message(s)
                && spec_stored_after_run(start, events) == s) by {
                if i < n {
                    assert(events[n] is Message);
                }
            }
        } else {
            assert forall|i: int| #[trigger] is_last_report(events, i) implies (events[i] matches SocketEvent::Message(s)
                && spec_stored_after_run(start, events) == s) by {
                assert(i < n);
                assert forall|k: int| i < k < prefix.len() implies !(#[trigger] prefix[k] is Message) by {
                    assert(!(events[k] is Message));
                }
                assert(is_last_report(prefix, i));
                assert(prefix[i] == events[i]);
            }
            assert((forall|i: int| 0 <= i < events.len() ==> !(#[trigger] events[i] is Message))
                ==> (forall|i: int| 0 <= i < prefix.len() ==> !(#[trigger] prefix[i] is Message))) by {
                if forall|i: int| 0 <= i < events.len() ==> !(#[trigger] events[i] is Message) {
                    assert forall|i: int| 0 <= i < prefix.len() implies !(#[trigger] prefix[i] is Message) by {
                        assert(!(events[i] is Message));
                    }
                }
            }
        }
    }
}

/// For every command a phone sends, the action taken is a local volume
/// change exactly for the three volume commands, each with its own request
/// and the level exactly as sent; every other command is forwarded to the
/// extension exactly as received, and no volume command is ever forwarded.
pub proof fn lemma_remote_commands_reach_the_right_place(cmd: Command, level: u8)
    ensures
        spec_remote_action(SocketEvent::Message(Command::VolumeUp)) == RemoteAction::Volume(VolumeRequest::Up),
        spec_remote_action(SocketEvent::Message(Command::VolumeDown)) == RemoteAction::Volume(VolumeRequest::Down),
        spec_remote_action(SocketEvent::Message(Command::SetVolume { level }))
            == RemoteAction::Volume(VolumeRequest::SetLevel(level)),
        (cmd is VolumeUp || cmd is VolumeDown || cmd is SetVolume)
            ==> !(spec_remote_action(SocketEvent::Message(cmd)) is Forward),
        !(cmd is VolumeUp || cmd is VolumeDown || cmd is SetVolume)
            ==> spec_remote_action(SocketEvent::Message(cmd)) == RemoteAction::Forward(cmd),
        spec_route(Command::SetVolume { level }) == RemoteAction::Volume(VolumeRequest::SetLevel(level)),
        (cmd is VolumeUp || cmd is VolumeDown || cmd is SetVolume) ==> !(spec_route(cmd) is Forward),
        !(cmd is VolumeUp || cmd is VolumeDown || cmd is SetVolume) ==> spec_route(cmd) == RemoteAction::Forward(cmd),
{
}

/// Volume commands are never forwarded to the extension, and every other
/// command is forwarded exactly as it was received.
pub proof fn lemma_routing_partitions_commands(cmd: Command)
    ensures
        is_volume_command(cmd) <==> spec_route(cmd) is Volume,
        !is_volume_command(cmd) <==> spec_route(cmd) == RemoteAction::Forward(cmd),
{
}

} // verus!
