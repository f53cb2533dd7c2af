//! The virtual-player mirror: the playback state and metadata this process
//! last announced as its own player, together with the playback states a
//! real external player can report.

use vstd::prelude::*;

verus! {

/// Playback state of the process's own virtual player, as last announced.
/// A position, when one is known, is carried in microseconds.
#[derive(Clone, Copy, Debug, PartialEq, Eq)]
pub enum Playback {
    Playing { progress: Option<u64> },
    Paused { progress: Option<u64> },
    Stopped,
}

/// Playback state a real external player reports over the desktop bus.
#[derive(Clone, Copy, Debug, PartialEq, Eq)]
pub enum ExtPlayback {
    Playing,
    Paused,
    Stopped,
}

/// Track metadata the virtual player last announced.
#[derive(Debug)]
pub struct Metadata {
    pub title: Option<String>,
    pub artist: Option<String>,
    pub album: Option<String>,
}

/// The mirror: this process's local record of what it last broadcast as the
/// virtual player. Local state is the source of truth for status reports;
/// forwarding the same values to the desktop is best-effort and happens
/// outside the library.
#[derive(Debug)]
pub struct Mirror {
    pub playback: Playback,
    pub metadata: Metadata,
}

/// The string under which the mirror's playback is reported.
pub open spec fn playback_label(pb: Playback) -> Seq<char> {
    match pb {
        Playback::Playing { .. } => "Playing"@,
        Playback::Paused { .. } => "Paused"@,
        Playback::Stopped => "Stopped"@,
    }
}

/// The string under which an external player's reported playback is shown.
pub open spec fn ext_playback_label(pb: ExtPlayback) -> Seq<char> {
    match pb {
        ExtPlayback::Playing => "Playing"@,
        ExtPlayback::Paused => "Paused"@,
        ExtPlayback::Stopped => "Stopped"@,
    }
}

pub fn render_playback(pb: &Playback) -> (r: String)
    ensures
        r@ == playback_label(*pb),
{
    match pb {
        Playback::Playing { .. } => "Playing".to_owned(),
        Playback::Paused { .. } => "Paused".to_owned(),
        Playback::Stopped => "Stopped".to_owned(),
    }
}

pub fn render_ext_playback(pb: &ExtPlayback) -> (r: String)
    ensures
        r@ == ext_playback_label(*pb),
{
    match pb {
        ExtPlayback::Playing => "Playing".to_owned(),
        ExtPlayback::Paused => "Paused".to_owned(),
        ExtPlayback::Stopped => "Stopped".to_owned(),
    }
}

impl Mirror {
    pub fn new(metadata: Metadata, playback: Playback) -> (r: Mirror)
        ensures
            r.metadata == metadata,
            r.playback == playback,
    {
        Mirror { playback, metadata }
    }

    /// The fixed state the mirror holds at startup, before any command:
    /// a default track announced as paused.
    pub fn initial() -> (r: Mirror)
        ensures
            r.playback == (Playback::Paused { progress: None }),
            r.metadata.title matches Some(t) && t@ == "Souvlaki Space Station"@,
            r.metadata.artist matches Some(a) && a@ == "Slowdive"@,
            r.metadata.album matches Some(b) && b@ == "Souvlaki"@,
    {
        Mirror {
            playback: Playback::Paused { progress: None },
            metadata: Metadata {
                title: Some("Souvlaki Space Station".to_owned()),
                artist: Some("Slowdive".to_owned()),
                album: Some("Souvlaki".to_owned()),
            },
        }
    }

    pub fn get_playback(&self) -> (r: Playback)
        ensures
            r == self.playback,
    {
        self.playback
    }

    /// Replaces the mirrored playback value; the metadata is untouched.
    /// Forwarding the new value to the desktop is the caller's best-effort
    /// step and never rolls this update back.
    pub fn set_playback(&mut self, pb: Playback)
        ensures
            final(self).playback == pb,
            final(self).metadata == old(self).metadata,
    {
        self.playback = pb;
    }

    pub fn title(&self) -> (r: Option<String>)
        ensures
            r == self.metadata.title,
    {
        self.metadata.title.clone()
    }
}

} // verus!
