//! The player: the audio bridge together with the control channel that
//! makes the device selectable as a playback target.
//!
//! Enabling and disabling are decided here and carried out elsewhere. Each
//! call takes what happened and answers with what is to be done; the
//! embedding program performs it and reports the outcome with the next call.
//! Calls for one player have to be made one after the other.

use crate::error::ConnectError;
use crate::frame::AudioFrame;
use crate::session::{fresh_device_id, is_lower_hex, PairingFlow, PairingState};
use crate::sink::EmittedSink;
use vstd::prelude::*;

verus! {

/// Milliseconds that a disconnect is given to settle.
pub const DISCONNECT_GRACE_MILLIS: u64 = 100;

/// Volume that a new control channel starts with: half of the scale.
pub const INITIAL_VOLUME: u16 = 32767;

/// Steps of the volume scale that a new control channel offers.
pub const VOLUME_STEPS: u16 = 64;

/// Audio quality asked of the remote service, in kilobits per second.
#[derive(Clone, Copy, Debug, PartialEq, Eq, Structural)]
pub enum Bitrate {
    Bitrate96,
    Bitrate160,
    Bitrate320,
}

/// The registration of the device as a playback target. A handle is named
/// by a number; two handles of one player with the same number are the same
/// handle.
#[derive(Clone, Copy, Debug, PartialEq, Eq, Structural)]
pub enum ControlChannel {
    /// There is no control channel.
    Absent,
    /// The channel is registered and its background task runs.
    Active(u64),
    /// The channel object exists and its background task has not been
    /// started. Passed through while a channel is built, and never left
    /// standing.
    Suspended(u64),
}

/// What the embedding program reports while the device is being enabled.
#[derive(Clone, Copy, Debug, PartialEq, Eq, Structural)]
pub enum ConnectEvent {
    /// The caller wants the device to be selectable.
    Requested,
    /// The existing channel was resumed.
    Reactivated,
    /// The existing channel could not be resumed.
    ReactivationFailed,
    /// A channel was constructed.
    Built,
    /// No channel could be constructed.
    BuildFailed,
    /// The background task of the constructed channel was started.
    Spawned,
}

/// What the embedding program is to do next to enable the device.
#[derive(Clone, Copy, Debug, PartialEq, Eq, Structural)]
pub enum ConnectAction {
    /// Resume the channel `handle`. The bridge was reset.
    Reactivate { handle: u64 },
    /// Drop any channel held and construct one, to be known as `handle`,
    /// on the session and credentials in use. The bridge was reset. `after`
    /// names the failure that made the construction necessary, if there
    /// was one; it is not a failure of the enabling.
    Build { handle: u64, after: Option<ConnectError> },
    /// Start the background task of the channel `handle`.
    Spawn { handle: u64 },
    /// The device is selectable. `rebuilt` tells whether a channel was
    /// constructed for it, after which the listeners of its events have to
    /// be attached anew.
    Done { rebuilt: bool },
    /// The device is not selectable, for this reason. Nothing is retried.
    Failed(ConnectError),
    /// The event does not belong to the state of the channel; nothing is to
    /// be done.
    Ignore,
}

/// The instruction to pause playback on a channel and take it off the
/// network, and how long to wait for that to settle.
#[derive(Clone, Copy, Debug, PartialEq, Eq, Structural)]
pub struct Disconnect {
    pub handle: u64,
    pub pause: bool,
    pub grace_millis: u64,
}

/// Kind of device that a control channel announces.
#[derive(Clone, Copy, Debug, PartialEq, Eq, Structural)]
pub enum DeviceKind {
    AudioDongle,
}

/// The settings that a control channel is constructed with.
pub struct ConnectSettings {
    pub name: String,
    pub device_type: DeviceKind,
    pub is_group: bool,
    pub initial_volume: u16,
    pub disable_volume: bool,
    pub volume_steps: u16,
}

/// The number after `handle`, starting over after the largest.
pub open spec fn next_handle(handle: u64) -> u64 {
    if handle == u64::MAX {
        0
    } else {
        (handle + 1) as u64
    }
}

/// Whether the bridge is reset when `event` arrives in state `channel`:
/// whenever a reactivation or a construction is about to begin, since a new
/// track may follow.
pub open spec fn resets_bridge(channel: ControlChannel, event: ConnectEvent) -> bool {
    match (channel, event) {
        (ControlChannel::Active(_), ConnectEvent::Requested) => true,
        (ControlChannel::Active(_), ConnectEvent::ReactivationFailed) => true,
        (ControlChannel::Absent, ConnectEvent::Requested) => true,
        _ => false,
    }
}

/// The transition of the control channel. `fresh` is the number that the
/// next constructed handle gets.
///
/// An active channel is resumed before anything is built; only where that
/// fails is the handle dropped and a new one constructed. A failed
/// construction leaves no channel and is reported; the next request starts
/// from scratch.
pub open spec fn connect_step(channel: ControlChannel, fresh: u64, event: ConnectEvent) -> (
    ControlChannel,
    ConnectAction,
) {
    match (channel, event) {
        (ControlChannel::Active(handle), ConnectEvent::Requested) => (
            channel,
            ConnectAction::Reactivate { handle },
        ),
        (ControlChannel::Active(_), ConnectEvent::Reactivated) => (
            channel,
            ConnectAction::Done { rebuilt: false },
        ),
        (ControlChannel::Active(_), ConnectEvent::ReactivationFailed) => (
            ControlChannel::Absent,
            ConnectAction::Build { handle: fresh, after: Some(ConnectError::ReactivationFailed) },
        ),
        (ControlChannel::Absent, ConnectEvent::Requested) => (
            ControlChannel::Absent,
            ConnectAction::Build { handle: fresh, after: None },
        ),
        (ControlChannel::Absent, ConnectEvent::Built) => (
            ControlChannel::Suspended(fresh),
            ConnectAction::Spawn { handle: fresh },
        ),
        (ControlChannel::Absent, ConnectEvent::BuildFailed) => (
            ControlChannel::Absent,
            ConnectAction::Failed(ConnectError::ControlChannelBuildFailed),
        ),
        (ControlChannel::Suspended(handle), ConnectEvent::Spawned) => (
            ControlChannel::Active(handle),
            ConnectAction::Done { rebuilt: true },
        ),
        _ => (channel, ConnectAction::Ignore),
    }
}

/// What disabling asks for in state `channel`: an active channel is paused
/// and disconnected, anything else is left alone.
pub open spec fn disconnect_of(channel: ControlChannel) -> Option<Disconnect> {
    match channel {
        ControlChannel::Active(handle) => Some(
            Disconnect { handle, pause: true, grace_millis: DISCONNECT_GRACE_MILLIS },
        ),
        _ => None,
    }
}

/// Whether the bridge is to be reset before `event` is handled in state
/// `channel`, see [`resets_bridge`].
pub fn needs_reset(channel: ControlChannel, event: ConnectEvent) -> (reset: bool)
    ensures
        reset == resets_bridge(channel, event),
{
    match (channel, event) {
        (ControlChannel::Active(_), ConnectEvent::Requested) => true,
        (ControlChannel::Active(_), ConnectEvent::ReactivationFailed) => true,
        (ControlChannel::Absent, ConnectEvent::Requested) => true,
        _ => false,
    }
}

/// Keeper of the control channel: which handle there is, if any, and which
/// number the next one gets.
pub struct ControlChannelManager {
    channel: ControlChannel,
    fresh: u64,
}

impl ControlChannelManager {
    /// The state of the control channel.
    pub closed spec fn channel(&self) -> ControlChannel {
        self.channel
    }

    /// The number that the next constructed handle gets.
    pub closed spec fn fresh(&self) -> u64 {
        self.fresh
    }

    /// The handle in use, if any, is the one constructed last.
    pub open spec fn wf(&self) -> bool {
        match self.channel() {
            ControlChannel::Absent => true,
            ControlChannel::Active(handle) => self.fresh() == next_handle(handle),
            ControlChannel::Suspended(handle) => self.fresh() == next_handle(handle),
        }
    }

    /// A manager without a channel.
    pub fn new() -> (manager: Self)
        ensures
            manager.wf(),
            manager.channel() == ControlChannel::Absent,
            manager.fresh() == 0,
    {
        ControlChannelManager { channel: ControlChannel::Absent, fresh: 0 }
    }

    /// The state of the control channel.
    pub fn current(&self) -> (channel: ControlChannel)
        ensures
            channel == self.channel(),
    {
        self.channel
    }

    /// Takes the next event of enabling the device and says what is to be
    /// done, see [`connect_step`]. A number is used up when a handle is
    /// constructed.
    pub fn step(&mut self, event: ConnectEvent) -> (action: ConnectAction)
        requires
            old(self).wf(),
        ensures
            final(self).wf(),
            (final(self).channel(), action) == connect_step(
                old(self).channel(),
                old(self).fresh(),
                event,
            ),
            final(self).fresh() == (if action is Spawn {
                next_handle(old(self).fresh())
            } else {
                old(self).fresh()
            }),
    {
        match (self.channel, event) {
            (ControlChannel::Active(handle), ConnectEvent::Requested) => ConnectAction::Reactivate {
                handle,
            },
            (ControlChannel::Active(_), ConnectEvent::Reactivated) => ConnectAction::Done {
                rebuilt: false,
            },
            (ControlChannel::Active(_), ConnectEvent::ReactivationFailed) => {
                self.channel = ControlChannel::Absent;
                ConnectAction::Build {
                    handle: self.fresh,
                    after: Some(ConnectError::ReactivationFailed),
                }
            },
            (ControlChannel::Absent, ConnectEvent::Requested) => ConnectAction::Build {
                handle: self.fresh,
                after: None,
            },
            (ControlChannel::Absent, ConnectEvent::Built) => {
                let handle = self.fresh;
                self.channel = ControlChannel::Suspended(handle);
                self.fresh = if handle == u64::MAX {
                    0
                } else {
                    handle + 1
                };
                ConnectAction::Spawn { handle }
            },
            (ControlChannel::Absent, ConnectEvent::BuildFailed) => ConnectAction::Failed(
                ConnectError::ControlChannelBuildFailed,
            ),
            (ControlChannel::Suspended(handle), ConnectEvent::Spawned) => {
                self.channel = ControlChannel::Active(handle);
                ConnectAction::Done { rebuilt: true }
            },
            _ => ConnectAction::Ignore,
        }
    }

    /// What disabling asks for, see [`disconnect_of`]. The handle stays.
    pub fn disconnect_order(&self) -> (order: Option<Disconnect>)
        ensures
            order == disconnect_of(self.channel()),
    {
        match self.channel {
            ControlChannel::Active(handle) => Some(
                Disconnect { handle, pause: true, grace_millis: DISCONNECT_GRACE_MILLIS },
            ),
            _ => None,
        }
    }
}

/// The player of one process.
pub struct SpotifyPlayer {
    /// The bridge that the decoder writes to and the transport reads from.
    pub emitted_sink: EmittedSink,
    /// The control channel of the device.
    pub spirc: ControlChannelManager,
    /// Whether playback continues with suggestions when a queue runs out.
    pub bot_autoplay: bool,
    /// Name under which the device shows up as a playback target.
    pub device_name: String,
    /// Directory of the credential and content cache, if any.
    pub cache_dir: Option<String>,
    /// Audio quality asked of the remote service.
    pub quality: Bitrate,
}

impl SpotifyPlayer {
    /// Bridge and control channel are in order.
    pub open spec fn wf(&self) -> bool {
        self.emitted_sink.wf() && self.spirc.wf()
    }

    /// A player without a control channel, with an empty bridge for a
    /// resampler that takes `frames_needed` frames at a time.
    pub fn new(
        quality: Bitrate,
        cache_dir: Option<String>,
        bot_autoplay: bool,
        device_name: String,
        frames_needed: usize,
    ) -> (player: Self)
        requires
            frames_needed > 0,
        ensures
            player.wf(),
            player.spirc.channel() == ControlChannel::Absent,
            player.spirc.fresh() == 0,
            player.quality == quality,
            player.cache_dir == cache_dir,
            player.bot_autoplay == bot_autoplay,
            player.device_name == device_name,
            player.emitted_sink.block_size() == frames_needed,
            player.emitted_sink.pending() == Seq::<AudioFrame>::empty(),
            player.emitted_sink.queued() == Seq::<AudioFrame>::empty(),
            player.emitted_sink.is_cold(),
    {
        SpotifyPlayer {
            emitted_sink: EmittedSink::new(frames_needed),
            spirc: ControlChannelManager::new(),
            bot_autoplay,
            device_name,
            cache_dir,
            quality,
        }
    }

    /// The settings that a control channel of this player is constructed
    /// with: the player's device name on an audio dongle that is no group,
    /// with volume control over 64 steps, starting at half volume.
    pub fn connect_settings(&self) -> (settings: ConnectSettings)
        ensures
            settings.name == self.device_name,
            settings.device_type == DeviceKind::AudioDongle,
            !settings.is_group,
            settings.initial_volume == u16::MAX / 2,
            !settings.disable_volume,
            settings.volume_steps == 64,
    {
        ConnectSettings {
            name: self.device_name.clone(),
            device_type: DeviceKind::AudioDongle,
            is_group: false,
            initial_volume: INITIAL_VOLUME,
            disable_volume: false,
            volume_steps: VOLUME_STEPS,
        }
    }

    /// Begins an interactive pairing for a device named `device_name`,
    /// under an identifier drawn for this pairing. The credentials are
    /// validated and stored where `cache_dir` is given.
    pub fn re_auth(cache_dir: Option<String>, device_name: &str) -> (flow: PairingFlow)
        ensures
            flow.state() == PairingState::Idle,
            flow.spec_cache_dir() == cache_dir,
            flow.persists() == cache_dir.is_some(),
            flow.spec_device_name() == device_name@,
            flow.spec_device_id().len() == 14,
            flow.spec_device_id().take(6) == "aoede-"@,
            forall|i: int| 6 <= i < 14 ==> is_lower_hex(#[trigger] flow.spec_device_id()[i]),
    {
        let device_id = fresh_device_id();
        PairingFlow::new(cache_dir, device_name.to_owned(), device_id)
    }

    /// Takes the next event of enabling the device and says what is to be
    /// done, see [`connect_step`]. The bridge is reset where
    /// [`resets_bridge`] says so and is not touched otherwise.
    pub fn enable_connect(&mut self, event: ConnectEvent) -> (action: ConnectAction)
        requires
            old(self).wf(),
        ensures
            final(self).wf(),
            (final(self).spirc.channel(), action) == connect_step(
                old(self).spirc.channel(),
                old(self).spirc.fresh(),
                event,
            ),
            final(self).spirc.fresh() == (if action is Spawn {
                next_handle(old(self).spirc.fresh())
            } else {
                old(self).spirc.fresh()
            }),
            final(self).emitted_sink.block_size() == old(self).emitted_sink.block_size(),
            final(self).emitted_sink.capacity() == old(self).emitted_sink.capacity(),
            resets_bridge(old(self).spirc.channel(), event) ==> {
                &&& final(self).emitted_sink.pending() == Seq::<AudioFrame>::empty()
                &&& final(self).emitted_sink.queued() == Seq::<AudioFrame>::empty()
                &&& final(self).emitted_sink.is_cold()
            },
            !resets_bridge(old(self).spirc.channel(), event) ==> final(self).emitted_sink == old(
                self,
            ).emitted_sink,
            final(self).bot_autoplay == old(self).bot_autoplay,
            final(self).device_name == old(self).device_name,
            final(self).cache_dir == old(self).cache_dir,
            final(self).quality == old(self).quality,
    {
        if needs_reset(self.spirc.current(), event) {
            self.emitted_sink.reset();
        }
        self.spirc.step(event)
    }

    /// Asks for the active channel to be paused and disconnected, and keeps
    /// its handle, so that the next enabling can resume it. Without an
    /// active channel nothing is asked for. The player stays as it is.
    pub fn disable_connect(&mut self) -> (order: Option<Disconnect>)
        requires
            old(self).wf(),
        ensures
            *final(self) == *old(self),
            order == disconnect_of(old(self).spirc.channel()),
    {
        self.spirc.disconnect_order()
    }
}

/// The control channel after the events `events`, each applied in turn,
/// with the number of the next handle.
pub open spec fn run_connect(channel: ControlChannel, fresh: u64, events: Seq<ConnectEvent>) -> (
    ControlChannel,
    u64,
)
    decreases events.len(),
{
    if events.len() == 0 {
        (channel, fresh)
    } else {
        let (before, number) = run_connect(channel, fresh, events.drop_last());
        let (after, action) = connect_step(before, number, events.last());
        (
            after,
            if action is Spawn {
                next_handle(number)
            } else {
                number
            },
        )
    }
}

/// Enabling an active channel whose reactivation succeeds keeps the handle,
/// however often it is done: nothing is dropped and nothing is built.
pub proof fn lemma_reactivation_keeps_the_handle(handle: u64, fresh: u64)
    ensures
        connect_step(ControlChannel::Active(handle), fresh, ConnectEvent::Requested) == (
            ControlChannel::Active(handle),
            ConnectAction::Reactivate { handle },
        ),
        connect_step(ControlChannel::Active(handle), fresh, ConnectEvent::Reactivated) == (
            ControlChannel::Active(handle),
            ConnectAction::Done { rebuilt: false },
        ),
        run_connect(
            ControlChannel::Active(handle),
            fresh,
            seq![
                ConnectEvent::Requested,
                ConnectEvent::Reactivated,
                ConnectEvent::Requested,
                ConnectEvent::Reactivated,
            ],
        ) == (ControlChannel::Active(handle), fresh),
{
    let events = seq![
        ConnectEvent::Requested,
        ConnectEvent::Reactivated,
        ConnectEvent::Requested,
        ConnectEvent::Reactivated,
    ];
    let start = ControlChannel::Active(handle);
    let three = events.drop_last();
    let two = three.drop_last();
    let one = two.drop_last();
    assert(one.drop_last().len() == 0);
    assert(run_connect(start, fresh, one.drop_last()) == (start, fresh));
    assert(one.last() == ConnectEvent::Requested);
    assert(run_connect(start, fresh, one) == (start, fresh));
    assert(two.last() == ConnectEvent::Reactivated);
    assert(run_connect(start, fresh, two) == (start, fresh));
    assert(three.last() == ConnectEvent::Requested);
    assert(run_connect(start, fresh, three) == (start, fresh));
    assert(events.last() == ConnectEvent::Reactivated);
}

/// Enabling an active channel whose reactivation fails drops the handle and
/// builds another: the channel that is active afterwards has a handle of
/// its own. Where the construction fails too, no channel is left.
pub proof fn lemma_failed_reactivation_rebuilds(handle: u64, fresh: u64)
    requires
        fresh == next_handle(handle),
    ensures
        run_connect(
            ControlChannel::Active(handle),
            fresh,
            seq![
                ConnectEvent::Requested,
                ConnectEvent::ReactivationFailed,
                ConnectEvent::Built,
                ConnectEvent::Spawned,
            ],
        ) == (ControlChannel::Active(fresh), next_handle(fresh)),
        fresh != handle,
        connect_step(ControlChannel::Active(handle), fresh, ConnectEvent::ReactivationFailed) == (
            ControlChannel::Absent,
            ConnectAction::Build { handle: fresh, after: Some(ConnectError::ReactivationFailed) },
        ),
        run_connect(
            ControlChannel::Active(handle),
            fresh,
            seq![
                ConnectEvent::Requested,
                ConnectEvent::ReactivationFailed,
                ConnectEvent::BuildFailed,
            ],
        ) == (ControlChannel::Absent, fresh),
{
    let start = ControlChannel::Active(handle);
    let events = seq![
        ConnectEvent::Requested,
        ConnectEvent::ReactivationFailed,
        ConnectEvent::Built,
        ConnectEvent::Spawned,
    ];
    let three = events.drop_last();
    let two = three.drop_last();
    let one = two.drop_last();
    assert(one.drop_last().len() == 0);
    assert(run_connect(start, fresh, one.drop_last()) == (start, fresh));
    assert(one.last() == ConnectEvent::Requested);
    assert(run_connect(start, fresh, one) == (start, fresh));
    assert(two.last() == ConnectEvent::ReactivationFailed);
    assert(run_connect(start, fresh, two) == (ControlChannel::Absent, fresh));
    assert(three.last() == ConnectEvent::Built);
    assert(run_connect(start, fresh, three) == (
        ControlChannel::Suspended(fresh),
        next_handle(fresh),
    ));
    assert(events.last() == ConnectEvent::Spawned);

    let failing = seq![
        ConnectEvent::Requested,
        ConnectEvent::ReactivationFailed,
        ConnectEvent::BuildFailed,
    ];
    assert(failing.drop_last() =~= two);
    assert(failing.last() == ConnectEvent::BuildFailed);
}

/// At most one handle exists at a time, and it is the one constructed last:
/// every step keeps the player in order.
pub proof fn lemma_step_keeps_one_handle(channel: ControlChannel, fresh: u64, event: ConnectEvent)
    requires
        channel matches ControlChannel::Active(handle) ==> fresh == next_handle(handle),
        channel matches ControlChannel::Suspended(handle) ==> fresh == next_handle(handle),
    ensures
        ({
            let (after, action) = connect_step(channel, fresh, event);
            let number = if action is Spawn {
                next_handle(fresh)
            } else {
                fresh
            };
            &&& after matches ControlChannel::Active(handle) ==> number == next_handle(handle)
            &&& after matches ControlChannel::Suspended(handle) ==> number == next_handle(handle)
            &&& action matches ConnectAction::Failed(error) ==> error
                == ConnectError::ControlChannelBuildFailed && after == ControlChannel::Absent
            &&& action matches ConnectAction::Done { rebuilt } ==> after is Active
        }),
{
}

/// Disabling never drops the handle: the channel is as it was, and an
/// active one is told to pause and disconnect.
pub proof fn lemma_disable_keeps_the_handle(channel: ControlChannel)
    ensures
        disconnect_of(channel) is Some <==> channel is Active,
        channel matches ControlChannel::Active(handle) ==> disconnect_of(channel) == Some(
            Disconnect { handle, pause: true, grace_millis: 100 },
        ),
{
}

} // verus!
