use media_control::playback::{ExtPlayback, Metadata, Mirror, Playback};
use media_control::status::{snapshot, status_json, ExtObservation};

#[test]
fn status_without_external_player() {
    let mirror = Mirror::initial();
    let report = snapshot(&mirror, None);
    assert_eq!(report.our_playback, "Paused");
    assert_eq!(report.title, Some("Souvlaki Space Station".to_string()));
    assert_eq!(report.other_playback, None);
    assert_eq!(report.controlled_player, None);
}

#[test]
fn status_with_external_player() {
    let mut mirror = Mirror::initial();
    mirror.set_playback(Playback::Playing { progress: None });
    let observed = ExtObservation {
        identity: "VLC".to_string(),
        playback: Some(ExtPlayback::Paused),
    };
    let report = snapshot(&mirror, Some(observed));
    assert_eq!(report.our_playback, "Playing");
    assert_eq!(report.other_playback, Some("Paused".to_string()));
    assert_eq!(report.controlled_player, Some("VLC".to_string()));
    assert_eq!(report.title, Some("Souvlaki Space Station".to_string()));
}

#[test]
fn status_with_failed_live_query() {
    let mirror = Mirror::initial();
    let observed = ExtObservation {
        identity: "Spotify".to_string(),
        playback: None,
    };
    let report = snapshot(&mirror, Some(observed));
    assert_eq!(report.other_playback, None);
    assert_eq!(report.controlled_player, Some("Spotify".to_string()));
}

#[test]
fn status_json_exact_shape() {
    let mirror = Mirror::initial();
    let report = snapshot(&mirror, None);
    assert_eq!(
        status_json(&report),
        "{\"our_playback\":\"Paused\",\"other_playback\":null,\
         \"title\":\"Souvlaki Space Station\",\"controlled_player\":null}"
    );
}

#[test]
fn status_json_with_player_exact_shape() {
    let mut mirror = Mirror::initial();
    mirror.set_playback(Playback::Playing { progress: None });
    let observed = ExtObservation {
        identity: "Chromium tab: X".to_string(),
        playback: Some(ExtPlayback::Playing),
    };
    let report = snapshot(&mirror, Some(observed));
    assert_eq!(
        status_json(&report),
        "{\"our_playback\":\"Playing\",\"other_playback\":\"Playing\",\
         \"title\":\"Souvlaki Space Station\",\"controlled_player\":\"Chromium tab: X\"}"
    );
}

#[test]
fn status_json_escapes_titles() {
    let mirror = Mirror::new(
        Metadata {
            title: Some("a\"b\\c\nd".to_string()),
            artist: None,
            album: None,
        },
        Playback::Stopped,
    );
    let report = snapshot(&mirror, None);
    assert_eq!(
        status_json(&report),
        "{\"our_playback\":\"Stopped\",\"other_playback\":null,\
         \"title\":\"a\\\"b\\\\c\\u000ad\",\"controlled_player\":null}"
    );
}
