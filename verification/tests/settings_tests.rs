use spotiamp::settings::{
    clamp_volume, AutoSavingSettings, InnerWindowSize, OuterWindowPosition, PlayerSettings,
    PlaylistSettings, Settings, SettingsFile, SettingsStore, WindowState, MAX_VOLUME, SEED_URI,
    SETTINGS_FILE_NAME,
};

fn sample() -> Settings {
    Settings {
        player: PlayerSettings {
            window_state: WindowState {
                outer_position: Some(OuterWindowPosition { x: -12, y: 40 }),
                inner_size: Some(InnerWindowSize { width: 550, height: 232 }),
            },
            double_size_active: true,
            volume: 35,
            show_playlist: false,
        },
        playlist: PlaylistSettings {
            window_state: WindowState { outer_position: None, inner_size: None },
            uris: vec!["spotify:track:a".to_string(), "spotify:album:b".to_string()],
        },
    }
}

fn ready_store(settings: Settings) -> SettingsStore {
    let mut store = SettingsStore::Unloaded;
    Settings::_current(&mut store, SettingsFile::Parsed(settings));
    store
}

fn assert_seeded_defaults(settings: &Settings) {
    assert_eq!(settings.player.volume, 80);
    assert!(settings.player.show_playlist);
    assert!(!settings.player.double_size_active);
    assert_eq!(settings.player.window_state, WindowState { outer_position: None, inner_size: None });
    assert_eq!(
        settings.playlist.window_state,
        WindowState { outer_position: None, inner_size: None }
    );
    assert_eq!(settings.playlist.uris, vec!["spotify:track:0DiWol3AO6WpXZgp0goxAV".to_string()]);
}

#[test]
fn seed_and_file_name_are_as_documented() {
    assert_eq!(SEED_URI, "spotify:track:0DiWol3AO6WpXZgp0goxAV");
    assert_eq!(SETTINGS_FILE_NAME, "settings.yaml");
}

#[test]
fn load_of_missing_file_gives_seeded_defaults() {
    assert_seeded_defaults(&Settings::load(SettingsFile::Missing));
}

#[test]
fn load_of_corrupt_file_gives_seeded_defaults() {
    assert_seeded_defaults(&Settings::load(SettingsFile::Corrupt));
}

#[test]
fn load_of_parsed_file_keeps_every_field() {
    let loaded = Settings::load(SettingsFile::Parsed(sample()));
    assert_eq!(loaded.player, sample().player);
    assert_eq!(loaded.playlist.window_state, sample().playlist.window_state);
    assert_eq!(loaded.playlist.uris, sample().playlist.uris);
}

#[test]
fn load_of_parsed_file_with_empty_playlist_adds_no_seed() {
    let mut empty = sample();
    empty.playlist.uris.clear();
    let loaded = Settings::load(SettingsFile::Parsed(empty));
    assert!(loaded.playlist.uris.is_empty());
}

#[test]
fn defaults_are_as_documented() {
    assert_eq!(InnerWindowSize::default(), InnerWindowSize { width: 275, height: 116 });
    assert_eq!(OuterWindowPosition::default(), OuterWindowPosition { x: 0, y: 0 });
    assert_eq!(WindowState::default(), WindowState { outer_position: None, inner_size: None });
    let player = PlayerSettings::default();
    assert_eq!(player.volume, 80);
    assert!(player.show_playlist);
    assert!(!player.double_size_active);
    assert_eq!(player.window_state, WindowState::default());
    let settings = Settings::default();
    assert_eq!(settings.player, player);
    assert!(settings.playlist.uris.is_empty());
    assert!(PlaylistSettings::default().uris.is_empty());
}

#[test]
fn window_position_is_read_and_written() {
    let mut window = WindowState::default();
    assert_eq!(window.get_position(), None);
    window.inner_size = Some(InnerWindowSize { width: 1, height: 2 });
    window.set_position((-7, 9));
    assert_eq!(window.get_position(), Some((-7, 9)));
    assert_eq!(window.outer_position, Some(OuterWindowPosition { x: -7, y: 9 }));
    assert_eq!(window.inner_size, Some(InnerWindowSize { width: 1, height: 2 }));
}

#[test]
fn hash_is_equal_for_equal_content() {
    assert_eq!(sample().get_hash(), sample().get_hash());
    assert_eq!(
        Settings::load(SettingsFile::Missing).get_hash(),
        Settings::load(SettingsFile::Corrupt).get_hash()
    );
}

#[test]
fn hash_tells_each_field_apart() {
    let base = sample().get_hash();
    let mut changed = sample();
    changed.player.volume = 36;
    assert_ne!(changed.get_hash(), base);
    let mut changed = sample();
    changed.player.double_size_active = false;
    assert_ne!(changed.get_hash(), base);
    let mut changed = sample();
    changed.player.show_playlist = true;
    assert_ne!(changed.get_hash(), base);
    let mut changed = sample();
    changed.player.window_state.outer_position = Some(OuterWindowPosition { x: 40, y: -12 });
    assert_ne!(changed.get_hash(), base);
    let mut changed = sample();
    changed.player.window_state.outer_position = None;
    assert_ne!(changed.get_hash(), base);
    let mut changed = sample();
    changed.player.window_state.inner_size = Some(InnerWindowSize { width: 232, height: 550 });
    assert_ne!(changed.get_hash(), base);
    let mut changed = sample();
    changed.playlist.window_state.inner_size = Some(InnerWindowSize { width: 0, height: 0 });
    assert_ne!(changed.get_hash(), base);
    let mut changed = sample();
    changed.playlist.uris.swap(0, 1);
    assert_ne!(changed.get_hash(), base);
    let mut changed = sample();
    changed.playlist.uris.push(String::new());
    assert_ne!(changed.get_hash(), base);
}

#[test]
fn hash_tells_where_one_entry_ends() {
    let mut joined = sample();
    joined.playlist.uris = vec!["ab".to_string(), "c".to_string()];
    let mut split = sample();
    split.playlist.uris = vec!["a".to_string(), "bc".to_string()];
    let mut single = sample();
    single.playlist.uris = vec!["abc".to_string()];
    assert_ne!(joined.get_hash(), split.get_hash());
    assert_ne!(joined.get_hash(), single.get_hash());
    assert_ne!(split.get_hash(), single.get_hash());
}

#[test]
fn hash_takes_extreme_coordinates() {
    let mut low = sample();
    low.player.window_state.outer_position =
        Some(OuterWindowPosition { x: i32::MIN, y: i32::MAX });
    let mut high = sample();
    high.player.window_state.outer_position =
        Some(OuterWindowPosition { x: i32::MAX, y: i32::MIN });
    assert_ne!(low.get_hash(), high.get_hash());
}

#[test]
fn store_is_filled_on_first_access_only() {
    let mut store = SettingsStore::Unloaded;
    assert!(Settings::current(&store).is_none());
    Settings::_current(&mut store, SettingsFile::Missing);
    assert_seeded_defaults(Settings::current(&store).unwrap());
    Settings::_current(&mut store, SettingsFile::Parsed(sample()));
    assert_seeded_defaults(Settings::current(&store).unwrap());
}

#[test]
fn empty_store_lends_nothing() {
    let mut store = SettingsStore::Unloaded;
    assert!(Settings::current_mut(&mut store).is_none());
    assert!(matches!(store, SettingsStore::Unloaded));
}

#[test]
fn writer_excludes_readers_and_writers() {
    let mut store = ready_store(sample());
    let guard = Settings::current_mut(&mut store).unwrap();
    assert!(matches!(store, SettingsStore::Lent));
    assert!(Settings::current(&store).is_none());
    assert!(Settings::current_mut(&mut store).is_none());
    assert!(matches!(store, SettingsStore::Lent));
    Settings::_current(&mut store, SettingsFile::Missing);
    assert!(matches!(store, SettingsStore::Lent));
    assert!(!guard.release(&mut store));
    assert_eq!(Settings::current(&store).unwrap().player, sample().player);
}

#[test]
fn guard_without_change_needs_no_save() {
    let mut store = ready_store(Settings::load(SettingsFile::Missing));
    let guard = Settings::current_mut(&mut store).unwrap();
    assert_eq!(guard.deref().player.volume, 80);
    assert!(!guard.release(&mut store));
    assert_seeded_defaults(Settings::current(&store).unwrap());
}

#[test]
fn guard_with_volume_change_saves_exactly_once() {
    let mut store = ready_store(Settings::load(SettingsFile::Missing));
    let mut guard = Settings::current_mut(&mut store).unwrap();
    guard.deref_mut().player.volume = 50;
    assert!(guard.release(&mut store));
    assert_eq!(Settings::current(&store).unwrap().player.volume, 50);
    assert_eq!(
        Settings::current(&store).unwrap().playlist.uris,
        vec![SEED_URI.to_string()]
    );
    let guard = Settings::current_mut(&mut store).unwrap();
    assert!(!guard.release(&mut store));
    assert_eq!(Settings::current(&store).unwrap().player.volume, 50);
}

#[test]
fn guard_with_change_taken_back_needs_no_save() {
    let mut store = ready_store(sample());
    let mut guard = Settings::current_mut(&mut store).unwrap();
    guard.deref_mut().player.volume = 99;
    guard.deref_mut().playlist.uris.push("x".to_string());
    guard.deref_mut().player.volume = 35;
    guard.deref_mut().playlist.uris.pop();
    assert!(!guard.release(&mut store));
}

#[test]
fn each_guard_is_its_own_save_boundary() {
    let mut store = ready_store(sample());
    let mut first = Settings::current_mut(&mut store).unwrap();
    first.deref_mut().playlist.uris.push("spotify:track:c".to_string());
    assert!(first.release(&mut store));
    let mut second = Settings::current_mut(&mut store).unwrap();
    second.deref_mut().playlist.uris.push("spotify:track:d".to_string());
    assert!(second.release(&mut store));
    assert_eq!(Settings::current(&store).unwrap().playlist.uris.len(), 4);
}

#[test]
fn guard_made_by_hand_behaves_like_a_lent_one() {
    let mut store = SettingsStore::Unloaded;
    let mut guard = AutoSavingSettings::new(sample());
    assert_eq!(guard.deref().player.volume, 35);
    guard.deref_mut().player.show_playlist = true;
    assert!(guard.release(&mut store));
    assert!(Settings::current(&store).unwrap().player.show_playlist);
}

#[test]
fn volume_runs_from_zero_to_one_hundred() {
    assert_eq!(MAX_VOLUME, 100);
    assert_eq!(clamp_volume(0), 0);
    assert_eq!(clamp_volume(80), 80);
    assert_eq!(clamp_volume(100), 100);
    assert_eq!(clamp_volume(101), 100);
    assert_eq!(clamp_volume(u16::MAX), 100);
}

#[test]
fn load_of_parsed_file_brings_the_volume_into_range() {
    let mut loud = sample();
    loud.player.volume = 200;
    let loaded = Settings::load(SettingsFile::Parsed(loud));
    assert_eq!(loaded.player.volume, 100);
    assert_eq!(loaded.player.window_state, sample().player.window_state);
    assert_eq!(loaded.player.double_size_active, sample().player.double_size_active);
    assert_eq!(loaded.player.show_playlist, sample().player.show_playlist);
    assert_eq!(loaded.playlist.uris, sample().playlist.uris);
    assert_eq!(loaded.playlist.window_state, sample().playlist.window_state);
    let mut store = SettingsStore::Unloaded;
    let mut loud = sample();
    loud.player.volume = 101;
    Settings::_current(&mut store, SettingsFile::Parsed(loud));
    assert_eq!(Settings::current(&store).unwrap().player.volume, 100);
}

#[test]
fn load_of_parsed_file_keeps_a_volume_in_range() {
    for volume in [0u16, 1, 99, 100] {
        let mut given = sample();
        given.player.volume = volume;
        assert_eq!(Settings::load(SettingsFile::Parsed(given)).player.volume, volume);
    }
}
