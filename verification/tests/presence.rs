use aoede::metrics::{BatchCounter, REPORT_EVERY};
use aoede::presence::{
    find_user_channel, listening_to, on_track_event, should_join, user_in_voice,
    voice_transition, GuildVoice, TrackEvent, TrackPlan, VoiceAction, JOIN_SETTLE_MILLIS,
    TRANSPORT_CHANNELS, TRANSPORT_SAMPLE_RATE,
};

#[test]
fn other_users_are_not_followed() {
    assert_eq!(voice_transition(false, None, Some(1)), VoiceAction::Nothing);
    assert_eq!(voice_transition(false, Some(Some(1)), None), VoiceAction::Nothing);
    assert_eq!(voice_transition(false, Some(Some(1)), Some(2)), VoiceAction::Nothing);
}

#[test]
fn joining_or_switching_enables() {
    assert_eq!(voice_transition(true, None, Some(1)), VoiceAction::Enable);
    assert_eq!(voice_transition(true, None, None), VoiceAction::Enable);
    assert_eq!(voice_transition(true, Some(Some(1)), Some(2)), VoiceAction::Enable);
}

#[test]
fn leaving_disables() {
    assert_eq!(voice_transition(true, Some(Some(1)), None), VoiceAction::Disable);
}

#[test]
fn staying_changes_nothing() {
    assert_eq!(voice_transition(true, Some(Some(1)), Some(1)), VoiceAction::Nothing);
    assert_eq!(voice_transition(true, Some(None), Some(1)), VoiceAction::Nothing);
    assert_eq!(voice_transition(true, Some(None), None), VoiceAction::Nothing);
}

#[test]
fn user_is_found_in_the_first_guild_with_a_channel() {
    let guilds = vec![
        GuildVoice { guild: 10, channel: None },
        GuildVoice { guild: 20, channel: Some(200) },
        GuildVoice { guild: 30, channel: Some(300) },
    ];
    assert_eq!(find_user_channel(&guilds), Some((20, 200)));
    assert!(user_in_voice(&guilds));
    let nowhere = vec![GuildVoice { guild: 10, channel: None }];
    assert_eq!(find_user_channel(&nowhere), None);
    assert!(!user_in_voice(&nowhere));
    assert_eq!(find_user_channel(&Vec::new()), None);
    assert!(!user_in_voice(&Vec::new()));
}

#[test]
fn bot_joins_unless_it_is_there() {
    assert!(should_join(None, 5));
    assert!(should_join(Some(4), 5));
    assert!(!should_join(Some(5), 5));
}

#[test]
fn track_events_have_their_plans() {
    assert_eq!(on_track_event(TrackEvent::Loading), TrackPlan::ResetAndPlay);
    assert_eq!(on_track_event(TrackEvent::Playing), TrackPlan::ShowTrack);
    assert_eq!(on_track_event(TrackEvent::Paused), TrackPlan::ClearActivity);
    assert_eq!(on_track_event(TrackEvent::Stopped), TrackPlan::ClearActivityAndLeave);
    assert_eq!(on_track_event(TrackEvent::Other), TrackPlan::Nothing);
}

#[test]
fn activity_line_names_artist_and_title() {
    assert_eq!(listening_to("Nina Simone", "Sinnerman"), "Nina Simone: Sinnerman");
    assert_eq!(listening_to("", ""), ": ");
}

#[test]
fn transport_constants() {
    assert_eq!(JOIN_SETTLE_MILLIS, 1000);
    assert_eq!(TRANSPORT_SAMPLE_RATE, 48000);
    assert_eq!(TRANSPORT_CHANNELS, 2);
}

#[test]
fn counter_reports_every_ten_thousandth_batch() {
    let mut counter = BatchCounter::new();
    assert_eq!(counter.count(), 0);
    let mut reports = Vec::new();
    for _ in 0..25_000 {
        if let Some(count) = counter.record() {
            reports.push(count);
        }
    }
    assert_eq!(REPORT_EVERY, 10_000);
    assert_eq!(reports, vec![10_000, 20_000]);
    assert_eq!(counter.count(), 25_000);
}
