//! What the followed user's voice presence and the player's track events
//! call for. The embedding program talks to the chat service; the choices
//! are made here.

use vstd::prelude::*;
use vstd::string::*;

verus! {

/// Milliseconds that a fresh voice connection is given before audio is
/// played on it.
pub const JOIN_SETTLE_MILLIS: u64 = 1000;

/// Sample rate of the raw audio handed to the voice transport.
pub const TRANSPORT_SAMPLE_RATE: u32 = 48000;

/// Channels of the raw audio handed to the voice transport.
pub const TRANSPORT_CHANNELS: u32 = 2;

/// What a change of voice presence calls for.
#[derive(Clone, Copy, Debug, PartialEq, Eq, Structural)]
pub enum VoiceAction {
    /// Nothing.
    Nothing,
    /// Make the device selectable.
    Enable,
    /// Go invisible, disconnect the device and leave the voice channel.
    Disable,
}

/// The action for a change of voice presence. `previous` is the voice
/// state known before, with its channel if it had one; `channel` is the
/// channel of the new state.
///
/// Only the followed user counts. A user seen for the first time, or moving
/// from one channel to another, enables the device; a user leaving their
/// channel disables it.
pub open spec fn spec_voice_transition(
    followed: bool,
    previous: Option<Option<u64>>,
    channel: Option<u64>,
) -> VoiceAction {
    if !followed {
        VoiceAction::Nothing
    } else {
        match previous {
            None => VoiceAction::Enable,
            Some(None) => VoiceAction::Nothing,
            Some(Some(before)) => match channel {
                None => VoiceAction::Disable,
                Some(now) => if before != now {
                    VoiceAction::Enable
                } else {
                    VoiceAction::Nothing
                },
            },
        }
    }
}

/// Chooses the action for a change of voice presence, see
/// [`spec_voice_transition`].
pub fn voice_transition(followed: bool, previous: Option<Option<u64>>, channel: Option<u64>) -> (action:
    VoiceAction)
    ensures
        action == spec_voice_transition(followed, previous, channel),
{
    if !followed {
        return VoiceAction::Nothing;
    }
    match previous {
        None => VoiceAction::Enable,
        Some(None) => VoiceAction::Nothing,
        Some(Some(before)) => match channel {
            None => VoiceAction::Disable,
            Some(now) => {
                if before != now {
                    VoiceAction::Enable
                } else {
                    VoiceAction::Nothing
                }
            },
        },
    }
}

/// The followed user's voice state in one guild.
#[derive(Clone, Copy, Debug, PartialEq, Eq, Structural)]
pub struct GuildVoice {
    /// The guild.
    pub guild: u64,
    /// The voice channel that the user is in there, if any.
    pub channel: Option<u64>,
}

/// Index of the first guild in which the user is in a voice channel, or
/// the number of guilds where there is none.
pub open spec fn first_in_voice(guilds: Seq<GuildVoice>) -> int
    decreases guilds.len(),
{
    if guilds.len() == 0 {
        0
    } else if guilds[0].channel.is_some() {
        0
    } else {
        1 + first_in_voice(guilds.skip(1))
    }
}

/// `first_in_voice` points at the first guild with a channel, and past the
/// end exactly where no guild has one.
pub proof fn lemma_first_in_voice(guilds: Seq<GuildVoice>)
    ensures
        0 <= first_in_voice(guilds) <= guilds.len(),
        forall|i: int| 0 <= i < first_in_voice(guilds) ==> (#[trigger] guilds[i]).channel.is_none(),
        first_in_voice(guilds) < guilds.len() ==> guilds[first_in_voice(guilds)].channel.is_some(),
    decreases guilds.len(),
{
    if guilds.len() > 0 && guilds[0].channel.is_none() {
        let rest = guilds.skip(1);
        lemma_first_in_voice(rest);
        assert forall|i: int| 0 <= i < first_in_voice(guilds) implies (
        #[trigger] guilds[i]).channel.is_none() by {
            if i > 0 {
                assert(guilds[i] == rest[i - 1]);
            }
        }
        if first_in_voice(guilds) < guilds.len() {
            assert(guilds[first_in_voice(guilds)] == rest[first_in_voice(rest)]);
        }
    }
}

/// Where the user is to be found: guild and channel of the first guild, in
/// the given order, in which the user is in a voice channel.
pub fn find_user_channel(guilds: &Vec<GuildVoice>) -> (found: Option<(u64, u64)>)
    ensures
        found.is_some() == (first_in_voice(guilds@) < guilds@.len()),
        found matches Some((guild, channel)) ==> {
            &&& guilds@[first_in_voice(guilds@)].guild == guild
            &&& guilds@[first_in_voice(guilds@)].channel == Some(channel)
        },
{
    proof {
        lemma_first_in_voice(guilds@);
    }
    let mut i: usize = 0;
    while i < guilds.len()
        invariant
            i <= guilds@.len(),
            i <= first_in_voice(guilds@),
            first_in_voice(guilds@) <= guilds@.len(),
            forall|k: int|
                0 <= k < first_in_voice(guilds@) ==> (#[trigger] guilds@[k]).channel.is_none(),
            first_in_voice(guilds@) < guilds@.len() ==> guilds@[first_in_voice(
                guilds@,
            )].channel.is_some(),
        decreases guilds@.len() - i,
    {
        let entry = guilds[i];
        match entry.channel {
            Some(channel) => {
                assert(i == first_in_voice(guilds@));
                return Some((entry.guild, channel));
            },
            None => {},
        }
        i += 1;
    }
    None
}

/// Whether the user is in a voice channel of any of the guilds.
pub fn user_in_voice(guilds: &Vec<GuildVoice>) -> (present: bool)
    ensures
        present == exists|i: int| 0 <= i < guilds@.len() && (#[trigger] guilds@[i]).channel.is_some(),
{
    proof {
        lemma_first_in_voice(guilds@);
    }
    let found = find_user_channel(guilds);
    proof {
        if found.is_some() {
            assert(guilds@[first_in_voice(guilds@)].channel.is_some());
        }
    }
    found.is_some()
}

/// Whether the bot has to join `target`: not when it is there already.
pub fn should_join(current: Option<u64>, target: u64) -> (join: bool)
    ensures
        join == (current != Some(target)),
{
    match current {
        Some(channel) => channel != target,
        None => true,
    }
}

/// The track events of the player that matter here.
#[derive(Clone, Copy, Debug, PartialEq, Eq, Structural)]
pub enum TrackEvent {
    /// A track is being loaded.
    Loading,
    /// A track plays.
    Playing,
    /// Playback is paused.
    Paused,
    /// Playback has stopped.
    Stopped,
    /// Any other event.
    Other,
}

/// What a track event calls for.
#[derive(Clone, Copy, Debug, PartialEq, Eq, Structural)]
pub enum TrackPlan {
    /// Nothing.
    Nothing,
    /// Reset the bridge, since a new track begins, then find the user's
    /// voice channel, join it where needed and play the bridge there.
    ResetAndPlay,
    /// Show artist and title of the track as the bot's activity.
    ShowTrack,
    /// Clear the bot's activity.
    ClearActivity,
    /// Clear the bot's activity and leave the voice channels of all guilds.
    ClearActivityAndLeave,
}

/// The plan for a track event.
pub open spec fn spec_on_track_event(event: TrackEvent) -> TrackPlan {
    match event {
        TrackEvent::Loading => TrackPlan::ResetAndPlay,
        TrackEvent::Playing => TrackPlan::ShowTrack,
        TrackEvent::Paused => TrackPlan::ClearActivity,
        TrackEvent::Stopped => TrackPlan::ClearActivityAndLeave,
        TrackEvent::Other => TrackPlan::Nothing,
    }
}

/// Chooses the plan for a track event, see [`spec_on_track_event`]. The
/// bridge is reset for a track that loads, and for nothing else.
pub fn on_track_event(event: TrackEvent) -> (plan: TrackPlan)
    ensures
        plan == spec_on_track_event(event),
        plan == TrackPlan::ResetAndPlay <==> event == TrackEvent::Loading,
{
    match event {
        TrackEvent::Loading => TrackPlan::ResetAndPlay,
        TrackEvent::Playing => TrackPlan::ShowTrack,
        TrackEvent::Paused => TrackPlan::ClearActivity,
        TrackEvent::Stopped => TrackPlan::ClearActivityAndLeave,
        TrackEvent::Other => TrackPlan::Nothing,
    }
}

/// The activity line for a track: artist, a colon and a space, title.
pub fn listening_to(artist: &str, title: &str) -> (line: String)
    ensures
        line@ == artist@ + ": "@ + title@,
{
    String::from_str(artist).concat(": ").concat(title)
}

} // verus!
