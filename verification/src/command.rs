//! The command reconciler: for each user-facing command, how the mirror
//! moves, what is attempted on the selected external player, and what the
//! caller is told.
//!
//! Unconditional transitions (play, pause) commit the mirror first and ask
//! for a best-effort external action: external failure never changes the
//! reply. The conditional toggle decides from the external player's reported
//! state. Transport controls (next, previous, seek) have no mirrored
//! counterpart and act on the external player alone; seeking is refused
//! unless the capability was positively confirmed (fail closed). Volume
//! replies render the mixer process's outcome.

use vstd::prelude::*;
use vstd::string::*;
use crate::playback::{ExtPlayback, Mirror, Playback};

verus! {

/// Seconds a single seek command moves within the current track.
pub const SEEK_OFFSET_SECS: u64 = 30;

/// What an endpoint replies: an HTTP status code and a short body.
#[derive(Debug)]
pub struct Reply {
    pub code: u16,
    pub body: String,
}

/// An action the caller should attempt, best-effort, on the selected
/// external player. Seek offsets are in seconds.
#[derive(Clone, Copy, Debug, PartialEq, Eq)]
pub enum ExtAction {
    Play,
    Pause,
    Next,
    Previous,
    SeekForward(u64),
    SeekBackward(u64),
}

/// What a live playback query against the selected external player came to.
#[derive(Clone, Copy, Debug, PartialEq, Eq)]
pub enum ExtProbe {
    /// No external player was selected.
    NoPlayer,
    /// The player answered with its playback state.
    Reported(ExtPlayback),
    /// A player was selected but the query failed.
    QueryFailed,
}

/// What a seek-capability query against the selected external player came
/// to. A failed query counts as "cannot seek": seeking is only attempted
/// when the capability was positively confirmed.
#[derive(Clone, Copy, Debug, PartialEq, Eq)]
pub enum SeekCapability {
    NoPlayer,
    CanSeek,
    CannotSeek,
    QueryFailed,
}

/// What running the system mixer command came to. The strings carry the
/// caller's rendering of the exit status or of the launch error.
#[derive(Debug)]
pub enum MixerOutcome {
    Success,
    Exited(String),
    LaunchFailed(String),
}

fn reply_with(code: u16, body: &str) -> (r: Reply)
    ensures
        r.code == code,
        r.body@ == body@,
{
    Reply { code, body: body.to_owned() }
}

/// Where the play command puts the mirror, whatever it held before.
pub open spec fn play_transition(m: Mirror) -> Mirror {
    Mirror { playback: Playback::Playing { progress: None }, metadata: m.metadata }
}

/// Where the pause command puts the mirror, whatever it held before.
pub open spec fn pause_transition(m: Mirror) -> Mirror {
    Mirror { playback: Playback::Paused { progress: None }, metadata: m.metadata }
}

/// The play command: commit Playing to the mirror, reply success, and ask
/// for a best-effort play on the external player if one is selected.
pub fn play_command(mirror: &mut Mirror) -> (r: (Reply, ExtAction))
    ensures
        *final(mirror) == play_transition(*old(mirror)),
        r.0.code == 200,
        r.0.body@ == "playing"@,
        r.1 == ExtAction::Play,
{
    mirror.set_playback(Playback::Playing { progress: None });
    (reply_with(200, "playing"), ExtAction::Play)
}

/// The pause command: commit Paused to the mirror, reply success, and ask
/// for a best-effort pause on the external player if one is selected.
pub fn pause_command(mirror: &mut Mirror) -> (r: (Reply, ExtAction))
    ensures
        *final(mirror) == pause_transition(*old(mirror)),
        r.0.code == 200,
        r.0.body@ == "paused"@,
        r.1 == ExtAction::Pause,
{
    mirror.set_playback(Playback::Paused { progress: None });
    (reply_with(200, "paused"), ExtAction::Pause)
}

/// Where the toggle command puts the mirrored playback, given what the
/// external player's live query came to. Only a failed query leaves the
/// mirror untouched.
pub open spec fn toggle_playback(cur: Playback, probe: ExtProbe) -> Playback {
    match probe {
        ExtProbe::NoPlayer => Playback::Playing { progress: None },
        ExtProbe::Reported(ExtPlayback::Playing) => Playback::Paused { progress: None },
        ExtProbe::Reported(_) => Playback::Playing { progress: None },
        ExtProbe::QueryFailed => cur,
    }
}

/// The toggle command: pause a playing external player, start a paused or
/// stopped one, mirror the same transition, and fall back to plain playing
/// when no external player exists. A failed live query is the one external
/// failure surfaced to the caller, because without it the target state is
/// unknowable.
pub fn toggle_command(mirror: &mut Mirror, probe: ExtProbe) -> (r: (Reply, Option<ExtAction>))
    ensures
        final(mirror).playback == toggle_playback(old(mirror).playback, probe),
        final(mirror).metadata == old(mirror).metadata,
        probe == ExtProbe::NoPlayer ==> r.0.code == 200 && r.0.body@ == "playing (no external player)"@
            && r.1 is None,
        probe == ExtProbe::Reported(ExtPlayback::Playing) ==> r.0.code == 200 && r.0.body@
            == "paused"@ && r.1 == Some(ExtAction::Pause),
        (probe == ExtProbe::Reported(ExtPlayback::Paused) || probe == ExtProbe::Reported(
            ExtPlayback::Stopped,
        )) ==> r.0.code == 200 && r.0.body@ == "playing"@ && r.1 == Some(ExtAction::Play),
        probe == ExtProbe::QueryFailed ==> r.0.code == 500 && r.0.body@ == "couldn't read status"@
            && r.1 is None,
{
    match probe {
        ExtProbe::NoPlayer => {
            mirror.set_playback(Playback::Playing { progress: None });
            (reply_with(200, "playing (no external player)"), None)
        },
        ExtProbe::Reported(ExtPlayback::Playing) => {
            mirror.set_playback(Playback::Paused { progress: None });
            (reply_with(200, "paused"), Some(ExtAction::Pause))
        },
        ExtProbe::Reported(_) => {
            mirror.set_playback(Playback::Playing { progress: None });
            (reply_with(200, "playing"), Some(ExtAction::Play))
        },
        ExtProbe::QueryFailed => (reply_with(500, "couldn't read status"), None),
    }
}

/// The next-track command: transport controls have no mirrored counterpart,
/// so absence of an external player is reported instead of worked around.
pub fn next_command(has_player: bool) -> (r: (Reply, Option<ExtAction>))
    ensures
        has_player ==> r.0.code == 200 && r.0.body@ == "skipped to next track"@ && r.1 == Some(
            ExtAction::Next,
        ),
        !has_player ==> r.0.code == 404 && r.0.body@ == "no external player found"@ && r.1 is None,
{
    if has_player {
        (reply_with(200, "skipped to next track"), Some(ExtAction::Next))
    } else {
        (reply_with(404, "no external player found"), None)
    }
}

/// The previous-track command; same shape as the next-track command.
pub fn previous_command(has_player: bool) -> (r: (Reply, Option<ExtAction>))
    ensures
        has_player ==> r.0.code == 200 && r.0.body@ == "skipped to previous track"@ && r.1 == Some(
            ExtAction::Previous,
        ),
        !has_player ==> r.0.code == 404 && r.0.body@ == "no external player found"@ && r.1 is None,
{
    if has_player {
        (reply_with(200, "skipped to previous track"), Some(ExtAction::Previous))
    } else {
        (reply_with(404, "no external player found"), None)
    }
}

/// The forward seek: refused without a player, refused unless the player
/// positively confirmed it can seek, and otherwise a fixed 30-second jump.
pub fn seek_forward_command(cap: SeekCapability) -> (r: (Reply, Option<ExtAction>))
    ensures
        cap == SeekCapability::NoPlayer ==> r.0.code == 404 && r.0.body@
            == "no external player found"@ && r.1 is None,
        cap == SeekCapability::CanSeek ==> r.0.code == 200 && r.0.body@ == "seeked forward 30s"@
            && r.1 == Some(ExtAction::SeekForward(SEEK_OFFSET_SECS)),
        (cap == SeekCapability::CannotSeek || cap == SeekCapability::QueryFailed) ==> r.0.code
            == 400 && r.0.body@ == "player cannot seek"@ && r.1 is None,
{
    match cap {
        SeekCapability::NoPlayer => (reply_with(404, "no external player found"), None),
        SeekCapability::CanSeek => (
            reply_with(200, "seeked forward 30s"),
            Some(ExtAction::SeekForward(SEEK_OFFSET_SECS)),
        ),
        _ => (reply_with(400, "player cannot seek"), None),
    }
}

/// The backward seek; same gating as the forward seek.
pub fn seek_backward_command(cap: SeekCapability) -> (r: (Reply, Option<ExtAction>))
    ensures
        cap == SeekCapability::NoPlayer ==> r.0.code == 404 && r.0.body@
            == "no external player found"@ && r.1 is None,
        cap == SeekCapability::CanSeek ==> r.0.code == 200 && r.0.body@ == "seeked backward 30s"@
            && r.1 == Some(ExtAction::SeekBackward(SEEK_OFFSET_SECS)),
        (cap == SeekCapability::CannotSeek || cap == SeekCapability::QueryFailed) ==> r.0.code
            == 400 && r.0.body@ == "player cannot seek"@ && r.1 is None,
{
    match cap {
        SeekCapability::NoPlayer => (reply_with(404, "no external player found"), None),
        SeekCapability::CanSeek => (
            reply_with(200, "seeked backward 30s"),
            Some(ExtAction::SeekBackward(SEEK_OFFSET_SECS)),
        ),
        _ => (reply_with(400, "player cannot seek"), None),
    }
}

/// The volume reply: success for a clean mixer exit, otherwise a diagnostic
/// internal-error body built from what the caller observed of the process.
pub fn volume_command(up: bool, outcome: MixerOutcome) -> (r: Reply)
    ensures
        outcome matches MixerOutcome::Success ==> r.code == 200 && r.body@ == (if up {
            "system volume +5%"@
        } else {
            "system volume -5%"@
        }),
        outcome matches MixerOutcome::Exited(s) ==> r.code == 500 && r.body@
            == "pactl exited with "@ + s@,
        outcome matches MixerOutcome::LaunchFailed(e) ==> r.code == 500 && r.body@
            == "failed to launch pactl: "@ + e@,
{
    match outcome {
        MixerOutcome::Success => {
            if up {
                reply_with(200, "system volume +5%")
            } else {
                reply_with(200, "system volume -5%")
            }
        },
        MixerOutcome::Exited(s) => Reply {
            code: 500,
            body: "pactl exited with ".to_owned().concat(s.as_str()),
        },
        MixerOutcome::LaunchFailed(e) => Reply {
            code: 500,
            body: "failed to launch pactl: ".to_owned().concat(e.as_str()),
        },
    }
}

/// A repeated play command is idempotent: a second play leaves the mirror
/// exactly where the first put it, whatever the mirror held before; the
/// reply is fixed by the command's contract and does not depend on the
/// mirror or on any external player at all.
pub proof fn lemma_play_idempotent(m: Mirror)
    ensures
        play_transition(play_transition(m)) == play_transition(m),
{
}

/// Toggling against an external player that reports Playing always moves
/// the mirror to Paused; toggling the result again while the player now
/// reports Paused moves it back to Playing.
pub proof fn lemma_toggle_alternates(pb: Playback)
    ensures
        toggle_playback(pb, ExtProbe::Reported(ExtPlayback::Playing)) == (Playback::Paused {
            progress: None,
        }),
        toggle_playback(
            toggle_playback(pb, ExtProbe::Reported(ExtPlayback::Playing)),
            ExtProbe::Reported(ExtPlayback::Paused),
        ) == (Playback::Playing { progress: None }),
{
}

} // verus!
