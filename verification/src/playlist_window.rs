//! The settings that the playlist window reads and changes.

use crate::settings::{
    settings_hash, InnerWindowSize, OuterWindowPosition, PlaylistSettings, PlaylistSettingsView,
    Settings, SettingsStore, WindowState,
};
use crate::text::texts;
use vstd::prelude::*;

verus! {

/// What a change of the playlist settings leaves in the store, and whether it
/// has to be written to disk: the settings with the new playlist part, saved
/// exactly when their content hash moved. A store that is empty or lent out
/// is left alone and nothing is saved.
pub open spec fn playlist_change_applied(
    before: SettingsStore,
    after: SettingsStore,
    playlist: spec_fn(PlaylistSettingsView) -> PlaylistSettingsView,
    save: bool,
) -> bool {
    match before {
        SettingsStore::Ready(old_settings) => {
            &&& after matches SettingsStore::Ready(new_settings)
            &&& new_settings.player == old_settings.player
            &&& new_settings.playlist@ == playlist(old_settings.playlist@)
            &&& save == (settings_hash(new_settings@) != settings_hash(old_settings@))
        },
        _ => after == before && !save,
    }
}

/// A copy of a list of texts.
fn copy_texts(items: &Vec<String>) -> (copy: Vec<String>)
    ensures
        texts(copy@) == texts(items@),
{
    let mut copy: Vec<String> = Vec::new();
    let mut i: usize = 0;
    while i < items.len()
        invariant
            0 <= i <= items.len(),
            copy@.len() == i,
            forall|j: int| 0 <= j < i ==> copy@[j]@ == items@[j]@,
        decreases items.len() - i,
    {
        copy.push(items[i].clone());
        i += 1;
    }
    assert(texts(copy@) =~= texts(items@));
    copy
}

/// A copy of the playlist settings, unless the store is empty or a writer
/// holds it.
pub fn get_playlist_settings(store: &SettingsStore) -> (playlist: Option<PlaylistSettings>)
    ensures
        match *store {
            SettingsStore::Ready(settings) => playlist matches Some(copy) && copy@
                == settings.playlist@,
            _ => playlist is None,
        },
{
    match Settings::current(store) {
        Some(settings) => Some(
            PlaylistSettings {
                window_state: settings.playlist.window_state,
                uris: copy_texts(&settings.playlist.uris),
            },
        ),
        None => None,
    }
}

/// Puts `uri` at the end of the playlist. Tells whether the settings have to
/// be saved.
pub fn add_uri(store: &mut SettingsStore, uri: &str) -> (save: bool)
    ensures
        playlist_change_applied(
            *old(store),
            *final(store),
            (|p: PlaylistSettingsView| PlaylistSettingsView { uris: p.uris.push(uri@), ..p }),
            save,
        ),
{
    match Settings::current_mut(store) {
        Some(mut guard) => {
            let settings = guard.deref_mut();
            let ghost before = texts(settings.playlist.uris@);
            settings.playlist.uris.push(uri.to_owned());
            assert(texts(settings.playlist.uris@) =~= before.push(uri@));
            guard.release(store)
        },
        None => false,
    }
}

/// Remembers the size of the playlist window. Tells whether the settings have
/// to be saved.
pub fn set_playlist_inner_size(store: &mut SettingsStore, width: u32, height: u32) -> (save: bool)
    ensures
        playlist_change_applied(
            *old(store),
            *final(store),
            (|p: PlaylistSettingsView|
                PlaylistSettingsView {
                    window_state: WindowState {
                        inner_size: Some(InnerWindowSize { width, height }),
                        ..p.window_state
                    },
                    ..p
                }),
            save,
        ),
{
    match Settings::current_mut(store) {
        Some(mut guard) => {
            let settings = guard.deref_mut();
            settings.playlist.window_state.inner_size = Some(InnerWindowSize { width, height });
            guard.release(store)
        },
        None => false,
    }
}

/// Remembers where the playlist window was moved to. Tells whether the
/// settings have to be saved.
pub fn set_playlist_position(store: &mut SettingsStore, x: i32, y: i32) -> (save: bool)
    ensures
        playlist_change_applied(
            *old(store),
            *final(store),
            (|p: PlaylistSettingsView|
                PlaylistSettingsView {
                    window_state: WindowState {
                        outer_position: Some(OuterWindowPosition { x, y }),
                        ..p.window_state
                    },
                    ..p
                }),
            save,
        ),
{
    match Settings::current_mut(store) {
        Some(mut guard) => {
            let settings = guard.deref_mut();
            settings.playlist.window_state.outer_position = Some(OuterWindowPosition { x, y });
            guard.release(store)
        },
        None => false,
    }
}

} // verus!
