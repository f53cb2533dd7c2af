use media_control::command::{
    next_command, pause_command, play_command, previous_command, seek_backward_command,
    seek_forward_command, toggle_command, volume_command, ExtAction, ExtProbe, MixerOutcome,
    SeekCapability,
};
use media_control::playback::{ExtPlayback, Mirror, Playback};

#[test]
fn play_twice_is_idempotent() {
    let mut mirror = Mirror::initial();
    let (first, act1) = play_command(&mut mirror);
    assert_eq!(mirror.playback, Playback::Playing { progress: None });
    let (second, act2) = play_command(&mut mirror);
    assert_eq!(mirror.playback, Playback::Playing { progress: None });
    assert_eq!(first.code, 200);
    assert_eq!(second.code, 200);
    assert_eq!(first.body, second.body);
    assert_eq!(first.body, "playing");
    assert_eq!(act1, ExtAction::Play);
    assert_eq!(act2, ExtAction::Play);
}

#[test]
fn pause_sets_paused() {
    let mut mirror = Mirror::initial();
    play_command(&mut mirror);
    let (reply, action) = pause_command(&mut mirror);
    assert_eq!(mirror.playback, Playback::Paused { progress: None });
    assert_eq!(reply.code, 200);
    assert_eq!(reply.body, "paused");
    assert_eq!(action, ExtAction::Pause);
}

#[test]
fn toggle_playing_then_paused() {
    let mut mirror = Mirror::initial();
    let (first, act1) = toggle_command(&mut mirror, ExtProbe::Reported(ExtPlayback::Playing));
    assert_eq!(first.code, 200);
    assert_eq!(first.body, "paused");
    assert_eq!(act1, Some(ExtAction::Pause));
    assert_eq!(mirror.playback, Playback::Paused { progress: None });
    let (second, act2) = toggle_command(&mut mirror, ExtProbe::Reported(ExtPlayback::Paused));
    assert_eq!(second.code, 200);
    assert_eq!(second.body, "playing");
    assert_eq!(act2, Some(ExtAction::Play));
    assert_eq!(mirror.playback, Playback::Playing { progress: None });
}

#[test]
fn toggle_of_stopped_player_plays() {
    let mut mirror = Mirror::initial();
    let (reply, action) = toggle_command(&mut mirror, ExtProbe::Reported(ExtPlayback::Stopped));
    assert_eq!(reply.code, 200);
    assert_eq!(reply.body, "playing");
    assert_eq!(action, Some(ExtAction::Play));
    assert_eq!(mirror.playback, Playback::Playing { progress: None });
}

#[test]
fn toggle_without_player_plays_degraded() {
    let mut mirror = Mirror::initial();
    let (reply, action) = toggle_command(&mut mirror, ExtProbe::NoPlayer);
    assert_eq!(reply.code, 200);
    assert_eq!(reply.body, "playing (no external player)");
    assert_eq!(action, None);
    assert_eq!(mirror.playback, Playback::Playing { progress: None });
}

#[test]
fn toggle_query_failure_is_surfaced_and_mutates_nothing() {
    let mut mirror = Mirror::initial();
    let (reply, action) = toggle_command(&mut mirror, ExtProbe::QueryFailed);
    assert_eq!(reply.code, 500);
    assert_eq!(reply.body, "couldn't read status");
    assert_eq!(action, None);
    assert_eq!(mirror.playback, Playback::Paused { progress: None });
}

#[test]
fn next_and_previous_with_player() {
    let (next, next_act) = next_command(true);
    assert_eq!(next.code, 200);
    assert_eq!(next.body, "skipped to next track");
    assert_eq!(next_act, Some(ExtAction::Next));
    let (prev, prev_act) = previous_command(true);
    assert_eq!(prev.code, 200);
    assert_eq!(prev.body, "skipped to previous track");
    assert_eq!(prev_act, Some(ExtAction::Previous));
}

#[test]
fn next_and_previous_without_player() {
    let (next, next_act) = next_command(false);
    assert_eq!(next.code, 404);
    assert_eq!(next.body, "no external player found");
    assert_eq!(next_act, None);
    let (prev, prev_act) = previous_command(false);
    assert_eq!(prev.code, 404);
    assert_eq!(prev.body, "no external player found");
    assert_eq!(prev_act, None);
}

#[test]
fn seek_refused_when_player_cannot_seek() {
    let (reply, action) = seek_forward_command(SeekCapability::CannotSeek);
    assert_eq!(reply.code, 400);
    assert_eq!(reply.body, "player cannot seek");
    assert_eq!(action, None);
}

#[test]
fn seek_fails_closed_on_capability_query_failure() {
    let (reply, action) = seek_forward_command(SeekCapability::QueryFailed);
    assert_eq!(reply.code, 400);
    assert_eq!(reply.body, "player cannot seek");
    assert_eq!(action, None);
    let (back, back_action) = seek_backward_command(SeekCapability::QueryFailed);
    assert_eq!(back.code, 400);
    assert_eq!(back.body, "player cannot seek");
    assert_eq!(back_action, None);
}

#[test]
fn seek_without_player_is_not_found() {
    let (reply, action) = seek_forward_command(SeekCapability::NoPlayer);
    assert_eq!(reply.code, 404);
    assert_eq!(reply.body, "no external player found");
    assert_eq!(action, None);
}

#[test]
fn seek_with_confirmed_capability() {
    let (fwd, fwd_action) = seek_forward_command(SeekCapability::CanSeek);
    assert_eq!(fwd.code, 200);
    assert_eq!(fwd.body, "seeked forward 30s");
    assert_eq!(fwd_action, Some(ExtAction::SeekForward(30)));
    let (back, back_action) = seek_backward_command(SeekCapability::CanSeek);
    assert_eq!(back.code, 200);
    assert_eq!(back.body, "seeked backward 30s");
    assert_eq!(back_action, Some(ExtAction::SeekBackward(30)));
}

#[test]
fn volume_success_bodies() {
    let up = volume_command(true, MixerOutcome::Success);
    assert_eq!(up.code, 200);
    assert_eq!(up.body, "system volume +5%");
    let down = volume_command(false, MixerOutcome::Success);
    assert_eq!(down.code, 200);
    assert_eq!(down.body, "system volume -5%");
}

#[test]
fn volume_failure_bodies() {
    let exited = volume_command(true, MixerOutcome::Exited("exit status: 1".to_string()));
    assert_eq!(exited.code, 500);
    assert_eq!(exited.body, "pactl exited with exit status: 1");
    let launch = volume_command(false, MixerOutcome::LaunchFailed("not found".to_string()));
    assert_eq!(launch.code, 500);
    assert_eq!(launch.body, "failed to launch pactl: not found");
}
