//! What the player window shows of a track, and the settings that the player
//! window changes.

use crate::settings::{
    clamp_volume, settings_hash, volume_in_range, OuterWindowPosition, PlayerSettings, Settings,
    SettingsStore, WindowState, MAX_VOLUME,
};
use vstd::prelude::*;
use vstd::string::StringExecFns;

verus! {

/// The artist shown for a track that names none.
pub const UNKNOWN_ARTIST: &'static str = "Unknown Artist";

/// What the player window shows of one track.
#[derive(Debug, Clone)]
pub struct TrackMetadata {
    uri: String,
    artist: String,
    name: String,
    duration: u32,
    unavailable: bool,
}

/// Mathematical content of a [`TrackMetadata`].
pub struct TrackView {
    pub uri: Seq<char>,
    pub artist: Seq<char>,
    pub name: Seq<char>,
    pub duration: u32,
    pub unavailable: bool,
}

impl View for TrackMetadata {
    type V = TrackView;

    closed spec fn view(&self) -> TrackView {
        TrackView {
            uri: self.uri@,
            artist: self.artist@,
            name: self.name@,
            duration: self.duration,
            unavailable: self.unavailable,
        }
    }
}

/// The artist to show for a track with the given artists: the first, or a
/// stand-in where there is none.
pub open spec fn shown_artist(artists: Seq<String>) -> Seq<char> {
    if artists.len() > 0 {
        artists[0]@
    } else {
        UNKNOWN_ARTIST@
    }
}

/// A signed length in milliseconds read as an unsigned one, bit for bit.
pub open spec fn unsigned_duration(duration: i32) -> u32 {
    if duration >= 0 {
        duration as u32
    } else {
        (duration + 0x1_0000_0000) as u32
    }
}

impl TrackMetadata {
    /// The metadata of the track at `uri`.
    pub fn new(uri: String, artist: &str, name: &str, duration: u32, unavailable: bool) -> (track:
        Self)
        ensures
            track@ == (TrackView {
                uri: uri@,
                artist: artist@,
                name: name@,
                duration,
                unavailable,
            }),
    {
        TrackMetadata {
            unavailable,
            uri,
            artist: artist.to_owned(),
            name: name.to_owned(),
            duration,
        }
    }

    /// The metadata of a track as the catalogue describes it. The first
    /// artist stands for all; a track is unavailable where it is restricted
    /// and has no alternative.
    pub fn from_track(
        uri: String,
        artists: &Vec<String>,
        name: &str,
        duration: i32,
        restricted: bool,
        has_alternatives: bool,
    ) -> (track: Self)
        ensures
            track@ == (TrackView {
                uri: uri@,
                artist: shown_artist(artists@),
                name: name@,
                duration: unsigned_duration(duration),
                unavailable: restricted && !has_alternatives,
            }),
    {
        let length: u32 = if duration >= 0 {
            duration as u32
        } else {
            (duration as i64 + 0x1_0000_0000) as u32
        };
        if artists.len() > 0 {
            Self::new(uri, artists[0].as_str(), name, length, restricted && !has_alternatives)
        } else {
            Self::new(uri, UNKNOWN_ARTIST, name, length, restricted && !has_alternatives)
        }
    }

    /// The track's URI.
    pub fn uri(&self) -> (uri: &str)
        ensures
            uri@ == self@.uri,
    {
        self.uri.as_str()
    }

    /// The artist to show.
    pub fn artist(&self) -> (artist: &str)
        ensures
            artist@ == self@.artist,
    {
        self.artist.as_str()
    }

    /// The track's title.
    pub fn name(&self) -> (name: &str)
        ensures
            name@ == self@.name,
    {
        self.name.as_str()
    }

    /// The track's length in milliseconds.
    pub fn duration(&self) -> (duration: u32)
        ensures
            duration == self@.duration,
    {
        self.duration
    }

    /// Whether the track cannot be played.
    pub fn unavailable(&self) -> (unavailable: bool)
        ensures
            unavailable == self@.unavailable,
    {
        self.unavailable
    }
}

/// What a change of the player settings leaves in the store, and whether it
/// has to be written to disk: the settings with the new player part, saved
/// exactly when their content hash moved. A store that is empty or lent out
/// is left alone and nothing is saved.
pub open spec fn player_change_applied(
    before: SettingsStore,
    after: SettingsStore,
    player: spec_fn(PlayerSettings) -> PlayerSettings,
    save: bool,
) -> bool {
    match before {
        SettingsStore::Ready(old_settings) => {
            &&& after matches SettingsStore::Ready(new_settings)
            &&& new_settings.player == player(old_settings.player)
            &&& new_settings.playlist == old_settings.playlist
            &&& save == (settings_hash(new_settings@) != settings_hash(old_settings@))
        },
        _ => after == before && !save,
    }
}

/// The player settings, unless the store is empty or a writer holds it.
pub fn get_player_settings(store: &SettingsStore) -> (player: Option<PlayerSettings>)
    ensures
        player == match *store {
            SettingsStore::Ready(settings) => Some(settings.player),
            _ => None,
        },
{
    match Settings::current(store) {
        Some(settings) => Some(settings.player),
        None => None,
    }
}

/// Remembers the volume. A number above the loudest volume is remembered as
/// the loudest volume, so the volume in a store never leaves its range this
/// way. Tells whether the settings have to be saved.
pub fn set_volume(store: &mut SettingsStore, volume: u16) -> (save: bool)
    ensures
        player_change_applied(
            *old(store),
            *final(store),
            (|p: PlayerSettings| PlayerSettings { volume: volume_in_range(volume), ..p }),
            save,
        ),
        *final(store) matches SettingsStore::Ready(kept) ==> (*old(store) is Ready
            && kept.player.volume <= MAX_VOLUME),
{
    match Settings::current_mut(store) {
        Some(mut guard) => {
            let settings = guard.deref_mut();
            settings.player.volume = clamp_volume(volume);
            guard.release(store)
        },
        None => false,
    }
}

/// Remembers whether the player is shown at double size. Tells whether the
/// settings have to be saved.
pub fn set_double_size(store: &mut SettingsStore, active: bool) -> (save: bool)
    ensures
        player_change_applied(
            *old(store),
            *final(store),
            (|p: PlayerSettings| PlayerSettings { double_size_active: active, ..p }),
            save,
        ),
{
    match Settings::current_mut(store) {
        Some(mut guard) => {
            let settings = guard.deref_mut();
            settings.player.double_size_active = active;
            guard.release(store)
        },
        None => false,
    }
}

/// Remembers whether the playlist window is shown. Tells whether the settings
/// have to be saved.
pub fn set_playlist_window_visible(store: &mut SettingsStore, visible: bool) -> (save: bool)
    ensures
        player_change_applied(
            *old(store),
            *final(store),
            (|p: PlayerSettings| PlayerSettings { show_playlist: visible, ..p }),
            save,
        ),
{
    match Settings::current_mut(store) {
        Some(mut guard) => {
            let settings = guard.deref_mut();
            settings.player.show_playlist = visible;
            guard.release(store)
        },
        None => false,
    }
}

/// Remembers where the player window was moved to. Tells whether the settings
/// have to be saved.
pub fn set_player_position(store: &mut SettingsStore, position: (i32, i32)) -> (save: bool)
    ensures
        player_change_applied(
            *old(store),
            *final(store),
            (|p: PlayerSettings|
                PlayerSettings {
                    window_state: WindowState {
                        outer_position: Some(
                            OuterWindowPosition { x: position.0, y: position.1 },
                        ),
                        ..p.window_state
                    },
                    ..p
                }),
            save,
        ),
{
    match Settings::current_mut(store) {
        Some(mut guard) => {
            let settings = guard.deref_mut();
            settings.player.window_state.set_position(position);
            guard.release(store)
        },
        None => false,
    }
}

} // verus!
