use spotiamp::player_window::{
    get_player_settings, set_double_size, set_player_position, set_playlist_window_visible,
    set_volume, TrackMetadata, UNKNOWN_ARTIST,
};
use spotiamp::playlist_window::{
    add_uri, get_playlist_settings, set_playlist_inner_size, set_playlist_position,
};
use spotiamp::settings::{
    InnerWindowSize, OuterWindowPosition, Settings, SettingsFile, SettingsStore, MAX_VOLUME,
};

fn fresh_store() -> SettingsStore {
    let mut store = SettingsStore::Unloaded;
    Settings::_current(&mut store, SettingsFile::Missing);
    store
}

#[test]
fn track_metadata_keeps_what_it_is_given() {
    let track = TrackMetadata::new("spotify:track:x".to_string(), "Artist", "Title", 215000, true);
    assert_eq!(track.uri(), "spotify:track:x");
    assert_eq!(track.artist(), "Artist");
    assert_eq!(track.name(), "Title");
    assert_eq!(track.duration(), 215000);
    assert!(track.unavailable());
}

#[test]
fn track_metadata_takes_the_first_artist() {
    let artists = vec!["First".to_string(), "Second".to_string()];
    let track =
        TrackMetadata::from_track("spotify:track:x".to_string(), &artists, "T", 1000, false, false);
    assert_eq!(track.artist(), "First");
    assert_eq!(track.duration(), 1000);
    assert!(!track.unavailable());
}

#[test]
fn track_metadata_names_an_unknown_artist() {
    assert_eq!(UNKNOWN_ARTIST, "Unknown Artist");
    let track =
        TrackMetadata::from_track("spotify:track:x".to_string(), &Vec::new(), "T", 0, false, true);
    assert_eq!(track.artist(), "Unknown Artist");
}

#[test]
fn track_is_unavailable_when_restricted_without_alternative() {
    let of = |restricted: bool, alternatives: bool| {
        TrackMetadata::from_track("u".to_string(), &Vec::new(), "T", 0, restricted, alternatives)
            .unavailable()
    };
    assert!(of(true, false));
    assert!(!of(true, true));
    assert!(!of(false, false));
    assert!(!of(false, true));
}

#[test]
fn track_duration_is_read_as_unsigned() {
    let of = |duration: i32| {
        TrackMetadata::from_track("u".to_string(), &Vec::new(), "T", duration, false, false)
            .duration()
    };
    assert_eq!(of(0), 0);
    assert_eq!(of(i32::MAX), 2147483647);
    assert_eq!(of(-1), 4294967295);
    assert_eq!(of(i32::MIN), 2147483648);
}

#[test]
fn player_settings_are_read_from_a_ready_store() {
    let store = fresh_store();
    assert_eq!(get_player_settings(&store).unwrap().volume, 80);
    assert_eq!(get_player_settings(&SettingsStore::Unloaded), None);
    assert_eq!(get_player_settings(&SettingsStore::Lent), None);
}

#[test]
fn volume_change_is_saved_once() {
    let mut store = fresh_store();
    assert!(set_volume(&mut store, 50));
    assert_eq!(get_player_settings(&store).unwrap().volume, 50);
    assert!(!set_volume(&mut store, 50));
    assert_eq!(get_player_settings(&store).unwrap().volume, 50);
    assert_eq!(get_playlist_settings(&store).unwrap().uris.len(), 1);
}

#[test]
fn double_size_and_playlist_visibility_are_remembered() {
    let mut store = fresh_store();
    assert!(!set_double_size(&mut store, false));
    assert!(set_double_size(&mut store, true));
    assert!(get_player_settings(&store).unwrap().double_size_active);
    assert!(!set_playlist_window_visible(&mut store, true));
    assert!(set_playlist_window_visible(&mut store, false));
    let player = get_player_settings(&store).unwrap();
    assert!(!player.show_playlist);
    assert!(player.double_size_active);
    assert_eq!(player.volume, 80);
}

#[test]
fn player_position_is_remembered() {
    let mut store = fresh_store();
    assert!(set_player_position(&mut store, (120, -30)));
    assert!(!set_player_position(&mut store, (120, -30)));
    let player = get_player_settings(&store).unwrap();
    assert_eq!(player.window_state.outer_position, Some(OuterWindowPosition { x: 120, y: -30 }));
    assert_eq!(player.window_state.inner_size, None);
}

#[test]
fn playlist_grows_at_its_end() {
    let mut store = fresh_store();
    assert!(add_uri(&mut store, "spotify:track:second"));
    assert!(add_uri(&mut store, "spotify:track:second"));
    let playlist = get_playlist_settings(&store).unwrap();
    assert_eq!(
        playlist.uris,
        vec![
            "spotify:track:0DiWol3AO6WpXZgp0goxAV".to_string(),
            "spotify:track:second".to_string(),
            "spotify:track:second".to_string(),
        ]
    );
    assert_eq!(get_player_settings(&store).unwrap().volume, 80);
}

#[test]
fn playlist_geometry_is_remembered() {
    let mut store = fresh_store();
    assert!(set_playlist_inner_size(&mut store, 275, 300));
    assert!(!set_playlist_inner_size(&mut store, 275, 300));
    assert!(set_playlist_position(&mut store, 5, 6));
    let playlist = get_playlist_settings(&store).unwrap();
    assert_eq!(playlist.window_state.inner_size, Some(InnerWindowSize { width: 275, height: 300 }));
    assert_eq!(playlist.window_state.outer_position, Some(OuterWindowPosition { x: 5, y: 6 }));
    assert_eq!(playlist.uris.len(), 1);
}

#[test]
fn changes_leave_an_empty_or_lent_store_alone() {
    let mut store = SettingsStore::Unloaded;
    assert!(!set_volume(&mut store, 1));
    assert!(!add_uri(&mut store, "x"));
    assert!(matches!(store, SettingsStore::Unloaded));
    let mut store = SettingsStore::Lent;
    assert!(!set_double_size(&mut store, true));
    assert!(!set_playlist_inner_size(&mut store, 1, 1));
    assert!(matches!(store, SettingsStore::Lent));
    assert!(get_playlist_settings(&store).is_none());
}

#[test]
fn volume_above_the_loudest_is_remembered_as_the_loudest() {
    let mut store = fresh_store();
    assert!(set_volume(&mut store, 200));
    assert_eq!(get_player_settings(&store).unwrap().volume, 100);
    assert!(!set_volume(&mut store, 101));
    assert!(!set_volume(&mut store, u16::MAX));
    assert!(!set_volume(&mut store, 100));
    assert_eq!(get_player_settings(&store).unwrap().volume, MAX_VOLUME);
    assert!(set_volume(&mut store, 99));
    assert_eq!(get_player_settings(&store).unwrap().volume, 99);
}

#[test]
fn volume_in_range_is_remembered_as_given() {
    for volume in [0u16, 1, 50, 99, 100] {
        let mut store = fresh_store();
        set_volume(&mut store, volume);
        let player = get_player_settings(&store).unwrap();
        assert_eq!(player.volume, volume);
        assert!(player.show_playlist);
        assert!(!player.double_size_active);
    }
}

#[test]
fn other_changes_leave_the_volume_alone() {
    let mut store = fresh_store();
    set_volume(&mut store, 100);
    set_double_size(&mut store, true);
    set_playlist_window_visible(&mut store, false);
    set_player_position(&mut store, (1, 2));
    add_uri(&mut store, "spotify:track:x");
    set_playlist_inner_size(&mut store, 3, 4);
    set_playlist_position(&mut store, 5, 6);
    assert_eq!(get_player_settings(&store).unwrap().volume, 100);
}
