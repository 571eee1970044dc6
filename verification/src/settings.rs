//! Application settings: window geometry, volume and playlist contents, the
//! store that holds the one live copy, and the scoped handle that tells its
//! owner to persist the settings exactly when their content changed.

use crate::text::texts;
use std::collections::hash_map::DefaultHasher;
use std::hash::Hasher;
use vstd::bytes::{
    lemma_auto_spec_u16_to_from_le_bytes, lemma_auto_spec_u32_to_from_le_bytes,
    spec_u16_from_le_bytes, spec_u16_to_le_bytes, spec_u32_from_le_bytes, spec_u32_to_le_bytes,
    spec_u64_to_le_bytes, u16_to_le_bytes, u32_to_le_bytes, u64_to_le_bytes,
};
use vstd::prelude::*;
use vstd::std_specs::hash::DefaultHasherAdditionalSpecFns;
use vstd::string::StringSliceAdditionalSpecFns;

verus! {

/// The playlist entry that a fresh installation starts with.
pub const SEED_URI: &'static str = "spotify:track:0DiWol3AO6WpXZgp0goxAV";

/// Name of the settings file inside the configuration directory.
pub const SETTINGS_FILE_NAME: &'static str = "settings.yaml";

/// The loudest volume there is. Volumes run from 0 to this.
pub const MAX_VOLUME: u16 = 100;

/// Where a window's top-left corner sits on the desktop, in logical pixels.
#[derive(Debug, Clone, Copy, PartialEq, Eq, Structural)]
pub struct OuterWindowPosition {
    pub x: i32,
    pub y: i32,
}

/// Size of a window's content area, in logical pixels.
#[derive(Debug, Clone, Copy, PartialEq, Eq, Structural)]
pub struct InnerWindowSize {
    pub width: u32,
    pub height: u32,
}

/// Remembered geometry of one window. Either part is absent until the window
/// has been moved or resized once.
#[derive(Debug, Clone, Copy, PartialEq, Eq, Structural)]
pub struct WindowState {
    pub outer_position: Option<OuterWindowPosition>,
    pub inner_size: Option<InnerWindowSize>,
}

/// Settings of the player window.
#[derive(Debug, Clone, Copy, PartialEq, Eq, Structural)]
pub struct PlayerSettings {
    pub window_state: WindowState,
    pub double_size_active: bool,
    pub volume: u16,
    pub show_playlist: bool,
}

/// Settings of the playlist window, with the playlist itself.
#[derive(Debug, Clone)]
pub struct PlaylistSettings {
    pub window_state: WindowState,
    pub uris: Vec<String>,
}

/// The whole settings tree.
#[derive(Debug, Clone)]
pub struct Settings {
    pub player: PlayerSettings,
    pub playlist: PlaylistSettings,
}

/// The one live copy of the settings and who may touch it. It starts empty,
/// is filled on first access, and is lent out whole to one writer at a time.
#[derive(Debug)]
pub enum SettingsStore {
    /// Nothing was read from disk yet.
    Unloaded,
    /// The settings are here, open to readers and to the next writer.
    Ready(Settings),
    /// A writer holds the settings; nobody else sees them until it is done.
    Lent,
}

/// A writer's exclusive hold on the settings. It remembers the content hash
/// from the moment it was handed out, and on release tells whether the content
/// has to be written to disk.
#[derive(Debug)]
pub struct AutoSavingSettings {
    inner: Settings,
    hash_before: u64,
}

/// Mathematical content of [`PlaylistSettings`].
pub struct PlaylistSettingsView {
    pub window_state: WindowState,
    pub uris: Seq<Seq<char>>,
}

/// Mathematical content of [`Settings`].
pub struct SettingsView {
    pub player: PlayerSettings,
    pub playlist: PlaylistSettingsView,
}

impl View for PlaylistSettings {
    type V = PlaylistSettingsView;

    open spec fn view(&self) -> PlaylistSettingsView {
        PlaylistSettingsView { window_state: self.window_state, uris: texts(self.uris@) }
    }
}

impl View for Settings {
    type V = SettingsView;

    open spec fn view(&self) -> SettingsView {
        SettingsView { player: self.player, playlist: self.playlist@ }
    }
}

/// Window geometry before the window was ever moved or resized.
pub open spec fn blank_window_state() -> WindowState {
    WindowState { outer_position: None, inner_size: None }
}

/// Player settings of a fresh installation.
pub open spec fn default_player_settings() -> PlayerSettings {
    PlayerSettings {
        window_state: blank_window_state(),
        double_size_active: false,
        volume: 80,
        show_playlist: true,
    }
}

/// Settings with every field at its default and the given playlist.
pub open spec fn default_settings_with(uris: Seq<Seq<char>>) -> SettingsView {
    SettingsView {
        player: default_player_settings(),
        playlist: PlaylistSettingsView { window_state: blank_window_state(), uris },
    }
}

/// What reading the settings file came to.
#[derive(Debug, Clone)]
pub enum SettingsFile {
    /// There is no file, or it could not be opened.
    Missing,
    /// There is a file, and its content is not a settings tree.
    Corrupt,
    /// The settings tree that the file holds.
    Parsed(Settings),
}

/// The volume that a number stands for: itself up to the loudest volume, and
/// the loudest volume for anything above.
pub open spec fn volume_in_range(volume: u16) -> u16 {
    if volume > MAX_VOLUME {
        MAX_VOLUME
    } else {
        volume
    }
}

/// Player settings with their volume brought into range and nothing else
/// changed.
pub open spec fn player_in_range(player: PlayerSettings) -> PlayerSettings {
    PlayerSettings { volume: volume_in_range(player.volume), ..player }
}

/// What [`Settings::load`] yields for what was found on disk: the parsed
/// settings with their volume brought into range, or the defaults with the
/// one seed entry in the playlist.
pub open spec fn loaded_settings(file: SettingsFile) -> SettingsView {
    match file {
        SettingsFile::Parsed(found) => SettingsView {
            player: player_in_range(found.player),
            playlist: found.playlist@,
        },
        _ => default_settings_with(seq![SEED_URI@]),
    }
}

/// The volume that a number stands for: a number above the loudest volume
/// counts as the loudest volume.
pub fn clamp_volume(volume: u16) -> (clamped: u16)
    ensures
        clamped == volume_in_range(volume),
        clamped <= MAX_VOLUME,
{
    if volume > MAX_VOLUME {
        MAX_VOLUME
    } else {
        volume
    }
}

impl Default for OuterWindowPosition {
    fn default() -> (r: Self)
        ensures
            r == (OuterWindowPosition { x: 0, y: 0 }),
    {
        OuterWindowPosition { x: 0, y: 0 }
    }
}

impl Default for InnerWindowSize {
    fn default() -> (r: Self)
        ensures
            r == (InnerWindowSize { width: 275, height: 116 }),
    {
        InnerWindowSize { width: 275, height: 116 }
    }
}

impl Default for WindowState {
    fn default() -> (r: Self)
        ensures
            r == blank_window_state(),
    {
        WindowState { outer_position: None, inner_size: None }
    }
}

impl Default for PlayerSettings {
    fn default() -> (r: Self)
        ensures
            r == default_player_settings(),
    {
        PlayerSettings {
            window_state: WindowState::default(),
            double_size_active: false,
            volume: 80,
            show_playlist: true,
        }
    }
}

impl Default for PlaylistSettings {
    fn default() -> (r: Self)
        ensures
            r@ == (PlaylistSettingsView {
                window_state: blank_window_state(),
                uris: Seq::empty(),
            }),
    {
        let r = PlaylistSettings { window_state: WindowState::default(), uris: Vec::new() };
        assert(texts(r.uris@) =~= Seq::<Seq<char>>::empty());
        r
    }
}

impl Default for Settings {
    fn default() -> (r: Self)
        ensures
            r@ == default_settings_with(Seq::empty()),
    {
        Settings { player: PlayerSettings::default(), playlist: PlaylistSettings::default() }
    }
}

impl WindowState {
    /// The remembered position as an `(x, y)` pair, if there is one.
    pub fn get_position(&self) -> (position: Option<(i32, i32)>)
        ensures
            position == match self.outer_position {
                Some(p) => Some((p.x, p.y)),
                None => None,
            },
    {
        match self.outer_position {
            Some(p) => Some((p.x, p.y)),
            None => None,
        }
    }

    /// Remembers `position`, an `(x, y)` pair, and leaves the size alone.
    pub fn set_position(&mut self, position: (i32, i32))
        ensures
            final(self).outer_position == Some(
                OuterWindowPosition { x: position.0, y: position.1 },
            ),
            final(self).inner_size == old(self).inner_size,
    {
        self.outer_position = Some(OuterWindowPosition { x: position.0, y: position.1 });
    }
}

/// One byte that tells `true` from `false`.
pub open spec fn flag_bytes(flag: bool) -> Seq<u8> {
    seq![if flag { 1u8 } else { 0u8 }]
}

/// Four bytes for a signed coordinate: the coordinate moved into the unsigned
/// range, least significant byte first.
pub open spec fn coordinate_bytes(value: i32) -> Seq<u8> {
    spec_u32_to_le_bytes((value + 0x8000_0000) as u32)
}

/// The byte strings that stand for an optional window position.
pub open spec fn position_writes(position: Option<OuterWindowPosition>) -> Seq<Seq<u8>> {
    match position {
        None => seq![flag_bytes(false)],
        Some(p) => seq![flag_bytes(true), coordinate_bytes(p.x), coordinate_bytes(p.y)],
    }
}

/// The byte strings that stand for an optional window size.
pub open spec fn size_writes(size: Option<InnerWindowSize>) -> Seq<Seq<u8>> {
    match size {
        None => seq![flag_bytes(false)],
        Some(s) => seq![
            flag_bytes(true),
            spec_u32_to_le_bytes(s.width),
            spec_u32_to_le_bytes(s.height),
        ],
    }
}

/// The byte strings that stand for a window's geometry.
pub open spec fn window_writes(window: WindowState) -> Seq<Seq<u8>> {
    position_writes(window.outer_position) + size_writes(window.inner_size)
}

/// The byte strings that stand for the player settings.
pub open spec fn player_writes(player: PlayerSettings) -> Seq<Seq<u8>> {
    window_writes(player.window_state) + seq![
        flag_bytes(player.double_size_active),
        spec_u16_to_le_bytes(player.volume),
        flag_bytes(player.show_playlist),
    ]
}

/// The byte strings that stand for one text: the length of its UTF-8 form,
/// then that form.
pub open spec fn text_writes(text: Seq<char>) -> Seq<Seq<u8>> {
    seq![
        spec_u64_to_le_bytes(vstd::utf8::encode_utf8(text).len() as u64),
        vstd::utf8::encode_utf8(text),
    ]
}

/// The byte strings that stand for the playlist entries, first entry first.
pub open spec fn uris_writes(uris: Seq<Seq<char>>) -> Seq<Seq<u8>>
    decreases uris.len(),
{
    if uris.len() == 0 {
        Seq::empty()
    } else {
        uris_writes(uris.drop_last()) + text_writes(uris.last())
    }
}

/// The byte strings that stand for the playlist settings.
pub open spec fn playlist_writes(playlist: PlaylistSettingsView) -> Seq<Seq<u8>> {
    window_writes(playlist.window_state) + seq![
        spec_u64_to_le_bytes(playlist.uris.len() as u64),
    ] + uris_writes(playlist.uris)
}

/// Everything that is fed to the hasher for a settings tree, in order.
pub open spec fn settings_writes(settings: SettingsView) -> Seq<Seq<u8>> {
    player_writes(settings.player) + playlist_writes(settings.playlist)
}

/// The content hash of a settings tree: what the standard hasher makes of
/// [`settings_writes`]. Trees with the same content have the same hash.
pub open spec fn settings_hash(settings: SettingsView) -> u64 {
    DefaultHasher::spec_finish(settings_writes(settings))
}

fn write_flag(hasher: &mut DefaultHasher, flag: bool)
    ensures
        final(hasher)@ == old(hasher)@.push(flag_bytes(flag)),
{
    let byte: [u8; 1] = [if flag { 1u8 } else { 0u8 }];
    assert(byte@ =~= flag_bytes(flag));
    hasher.write(&byte);
}

fn write_u16(hasher: &mut DefaultHasher, value: u16)
    ensures
        final(hasher)@ == old(hasher)@.push(spec_u16_to_le_bytes(value)),
{
    let bytes = u16_to_le_bytes(value);
    hasher.write(bytes.as_slice());
}

fn write_u32(hasher: &mut DefaultHasher, value: u32)
    ensures
        final(hasher)@ == old(hasher)@.push(spec_u32_to_le_bytes(value)),
{
    let bytes = u32_to_le_bytes(value);
    hasher.write(bytes.as_slice());
}

fn write_u64(hasher: &mut DefaultHasher, value: u64)
    ensures
        final(hasher)@ == old(hasher)@.push(spec_u64_to_le_bytes(value)),
{
    let bytes = u64_to_le_bytes(value);
    hasher.write(bytes.as_slice());
}

fn write_coordinate(hasher: &mut DefaultHasher, value: i32)
    ensures
        final(hasher)@ == old(hasher)@.push(coordinate_bytes(value)),
{
    let shifted: i64 = value as i64 + 0x8000_0000;
    write_u32(hasher, shifted as u32);
}

fn write_window(hasher: &mut DefaultHasher, window: &WindowState)
    ensures
        final(hasher)@ == old(hasher)@ + window_writes(*window),
{
    match window.outer_position {
        None => {
            write_flag(hasher, false);
        },
        Some(p) => {
            write_flag(hasher, true);
            write_coordinate(hasher, p.x);
            write_coordinate(hasher, p.y);
        },
    }
    assert(hasher@ =~= old(hasher)@ + position_writes(window.outer_position));
    match window.inner_size {
        None => {
            write_flag(hasher, false);
        },
        Some(s) => {
            write_flag(hasher, true);
            write_u32(hasher, s.width);
            write_u32(hasher, s.height);
        },
    }
    assert(hasher@ =~= old(hasher)@ + window_writes(*window));
}

fn write_text(hasher: &mut DefaultHasher, text: &str)
    ensures
        final(hasher)@ == old(hasher)@ + text_writes(text@),
{
    let bytes = text.as_bytes();
    write_u64(hasher, bytes.len() as u64);
    hasher.write(bytes);
    assert(hasher@ =~= old(hasher)@ + text_writes(text@));
}

fn write_uris(hasher: &mut DefaultHasher, uris: &Vec<String>)
    ensures
        final(hasher)@ == old(hasher)@ + uris_writes(texts(uris@)),
{
    let ghost all = texts(uris@);
    assert(all.take(0) =~= Seq::<Seq<char>>::empty());
    let mut i: usize = 0;
    while i < uris.len()
        invariant
            0 <= i <= uris.len(),
            all == texts(uris@),
            hasher@ == old(hasher)@ + uris_writes(all.take(i as int)),
        decreases uris.len() - i,
    {
        write_text(hasher, uris[i].as_str());
        proof {
            let longer = all.take(i + 1);
            assert(longer.drop_last() =~= all.take(i as int));
            assert(longer.last() == uris@[i as int]@);
            assert(hasher@ =~= old(hasher)@ + uris_writes(longer));
        }
        i += 1;
    }
    assert(all.take(uris.len() as int) =~= all);
}

impl Settings {
    /// The settings to start with, given what reading the settings file came
    /// to: the tree that the file holds, or, where the file is missing or
    /// corrupt, the defaults with the seed entry as the whole playlist. A
    /// volume above the loudest that the file may hold counts as the loudest;
    /// the rest of such a tree is kept.
    pub fn load(file: SettingsFile) -> (settings: Settings)
        ensures
            settings@ == loaded_settings(file),
            settings.player.volume <= MAX_VOLUME,
            file matches SettingsFile::Parsed(found) ==> settings.player == player_in_range(
                found.player,
            ) && settings.playlist == found.playlist,
    {
        match file {
            SettingsFile::Parsed(found) => {
                let mut found = found;
                found.player.volume = clamp_volume(found.player.volume);
                found
            },
            _ => {
                let mut fresh = Settings::default();
                fresh.playlist.uris.push(SEED_URI.to_owned());
                assert(texts(fresh.playlist.uris@) =~= seq![SEED_URI@]);
                fresh
            },
        }
    }

    /// The content hash: equal for equal content, and with overwhelming
    /// likelihood different for different content.
    pub fn get_hash(&self) -> (hash: u64)
        ensures
            hash == settings_hash(self@),
    {
        let mut hasher = DefaultHasher::new();
        write_window(&mut hasher, &self.player.window_state);
        write_flag(&mut hasher, self.player.double_size_active);
        write_u16(&mut hasher, self.player.volume);
        write_flag(&mut hasher, self.player.show_playlist);
        assert(hasher@ =~= player_writes(self.player));
        write_window(&mut hasher, &self.playlist.window_state);
        write_u64(&mut hasher, self.playlist.uris.len() as u64);
        write_uris(&mut hasher, &self.playlist.uris);
        assert(hasher@ =~= settings_writes(self@));
        hasher.finish()
    }
}

impl Settings {
    /// Fills the store on first access. An empty store takes the settings that
    /// [`Settings::load`] yields for `file`; a store that was filled before
    /// stays as it is, so the settings are loaded once.
    pub fn _current(store: &mut SettingsStore, file: SettingsFile)
        ensures
            *old(store) is Unloaded ==> (*final(store) matches SettingsStore::Ready(settings)
                && settings@ == loaded_settings(file) && settings.player.volume <= MAX_VOLUME),
            !(*old(store) is Unloaded) ==> *final(store) == *old(store),
    {
        if let SettingsStore::Unloaded = store {
            *store = SettingsStore::Ready(Settings::load(file));
        }
    }

    /// Read access: the settings, unless the store is empty or a writer holds
    /// them.
    pub fn current(store: &SettingsStore) -> (settings: Option<&Settings>)
        ensures
            settings == match *store {
                SettingsStore::Ready(held) => Some(&held),
                _ => None,
            },
    {
        match store {
            SettingsStore::Ready(held) => Some(held),
            _ => None,
        }
    }

    /// Write access: takes the settings out of the store and hands them to one
    /// writer, with their content hash. Gives nothing, and changes nothing,
    /// where the store is empty or another writer holds the settings.
    pub fn current_mut(store: &mut SettingsStore) -> (guard: Option<AutoSavingSettings>)
        ensures
            match *old(store) {
                SettingsStore::Ready(held) => {
                    &&& guard matches Some(g)
                    &&& g.current() == held
                    &&& g.hash_before() == settings_hash(held@)
                    &&& *final(store) == SettingsStore::Lent
                },
                _ => guard is None && *final(store) == *old(store),
            },
    {
        let mut taken = SettingsStore::Lent;
        std::mem::swap(store, &mut taken);
        match taken {
            SettingsStore::Ready(held) => Some(AutoSavingSettings::new(held)),
            other => {
                *store = other;
                None
            },
        }
    }
}

impl AutoSavingSettings {
    /// The settings as the writer has them now.
    pub closed spec fn current(&self) -> Settings {
        self.inner
    }

    /// The content hash from the moment the settings were handed out.
    pub closed spec fn hash_before(&self) -> u64 {
        self.hash_before
    }

    /// Whether releasing now asks for a write to disk: exactly when the
    /// content hash is no longer the one from the start.
    pub open spec fn must_save(&self) -> bool {
        settings_hash(self.current()@) != self.hash_before()
    }

    /// Takes hold of `inner` and notes its content hash.
    pub fn new(inner: Settings) -> (guard: Self)
        ensures
            guard.current() == inner,
            guard.hash_before() == settings_hash(inner@),
            !guard.must_save(),
    {
        let hash_before = inner.get_hash();
        AutoSavingSettings { inner, hash_before }
    }

    /// The settings, to read.
    pub fn deref(&self) -> (settings: &Settings)
        ensures
            *settings == self.current(),
    {
        &self.inner
    }

    /// The settings, to change. What the caller leaves behind the reference
    /// is what the writer holds afterwards; the noted hash stays.
    pub fn deref_mut(&mut self) -> (settings: &mut Settings)
        ensures
            *settings == old(self).current(),
            final(self).current() == *final(settings),
            final(self).hash_before() == old(self).hash_before(),
    {
        &mut self.inner
    }

    /// Ends the hold: puts the settings, as they are now, back into the store
    /// for readers and the next writer, and tells whether they have to be
    /// written to disk.
    pub fn release(self, store: &mut SettingsStore) -> (save: bool)
        ensures
            *final(store) == SettingsStore::Ready(self.current()),
            save == self.must_save(),
    {
        let save = self.inner.get_hash() != self.hash_before;
        *store = SettingsStore::Ready(self.inner);
        save
    }
}

/// A writer that leaves the content as it found it causes no write to disk.
pub proof fn lemma_unchanged_content_is_not_saved(guard: AutoSavingSettings, before: Settings)
    requires
        guard.hash_before() == settings_hash(before@),
        guard.current()@ == before@,
    ensures
        !guard.must_save(),
{
}

proof fn lemma_flag_bytes_differ(a: bool, b: bool)
    requires
        flag_bytes(a) == flag_bytes(b),
    ensures
        a == b,
{
    assert(flag_bytes(a)[0] == if a { 1u8 } else { 0u8 });
    assert(flag_bytes(b)[0] == if b { 1u8 } else { 0u8 });
}

proof fn lemma_u16_bytes_differ(a: u16, b: u16)
    requires
        spec_u16_to_le_bytes(a) == spec_u16_to_le_bytes(b),
    ensures
        a == b,
{
    lemma_auto_spec_u16_to_from_le_bytes();
    assert(spec_u16_to_le_bytes(a).len() == 2);
    assert(spec_u16_to_le_bytes(b).len() == 2);
    assert(spec_u16_from_le_bytes(spec_u16_to_le_bytes(a)) == a);
    assert(spec_u16_from_le_bytes(spec_u16_to_le_bytes(b)) == b);
}

proof fn lemma_u32_bytes_differ(a: u32, b: u32)
    requires
        spec_u32_to_le_bytes(a) == spec_u32_to_le_bytes(b),
    ensures
        a == b,
{
    lemma_auto_spec_u32_to_from_le_bytes();
    assert(spec_u32_to_le_bytes(a).len() == 4);
    assert(spec_u32_to_le_bytes(b).len() == 4);
    assert(spec_u32_from_le_bytes(spec_u32_to_le_bytes(a)) == a);
    assert(spec_u32_from_le_bytes(spec_u32_to_le_bytes(b)) == b);
}

proof fn lemma_coordinate_bytes_differ(a: i32, b: i32)
    requires
        coordinate_bytes(a) == coordinate_bytes(b),
    ensures
        a == b,
{
    lemma_u32_bytes_differ((a + 0x8000_0000) as u32, (b + 0x8000_0000) as u32);
}

proof fn lemma_text_bytes_differ(a: Seq<char>, b: Seq<char>)
    requires
        vstd::utf8::encode_utf8(a) == vstd::utf8::encode_utf8(b),
    ensures
        a == b,
{
    vstd::utf8::encode_utf8_decode_utf8(a);
    vstd::utf8::encode_utf8_decode_utf8(b);
}

/// What follows the byte strings of a window position is found again behind
/// them, and so is the position.
proof fn lemma_position_writes_end(
    a: Option<OuterWindowPosition>,
    after_a: Seq<Seq<u8>>,
    b: Option<OuterWindowPosition>,
    after_b: Seq<Seq<u8>>,
)
    requires
        position_writes(a) + after_a == position_writes(b) + after_b,
    ensures
        a == b,
        after_a == after_b,
{
    let all_a = position_writes(a) + after_a;
    let all_b = position_writes(b) + after_b;
    assert(all_a[0] == position_writes(a)[0]);
    assert(all_b[0] == position_writes(b)[0]);
    lemma_flag_bytes_differ(a is Some, b is Some);
    match (a, b) {
        (Some(p), Some(q)) => {
            assert(all_a[1] == position_writes(a)[1]);
            assert(all_b[1] == position_writes(b)[1]);
            assert(all_a[2] == position_writes(a)[2]);
            assert(all_b[2] == position_writes(b)[2]);
            lemma_coordinate_bytes_differ(p.x, q.x);
            lemma_coordinate_bytes_differ(p.y, q.y);
            assert(after_a =~= all_a.subrange(3, all_a.len() as int));
            assert(after_b =~= all_b.subrange(3, all_b.len() as int));
        },
        _ => {
            assert(after_a =~= all_a.subrange(1, all_a.len() as int));
            assert(after_b =~= all_b.subrange(1, all_b.len() as int));
        },
    }
}

/// What follows the byte strings of a window size is found again behind them,
/// and so is the size.
proof fn lemma_size_writes_end(
    a: Option<InnerWindowSize>,
    after_a: Seq<Seq<u8>>,
    b: Option<InnerWindowSize>,
    after_b: Seq<Seq<u8>>,
)
    requires
        size_writes(a) + after_a == size_writes(b) + after_b,
    ensures
        a == b,
        after_a == after_b,
{
    let all_a = size_writes(a) + after_a;
    let all_b = size_writes(b) + after_b;
    assert(all_a[0] == size_writes(a)[0]);
    assert(all_b[0] == size_writes(b)[0]);
    lemma_flag_bytes_differ(a is Some, b is Some);
    match (a, b) {
        (Some(p), Some(q)) => {
            assert(all_a[1] == size_writes(a)[1]);
            assert(all_b[1] == size_writes(b)[1]);
            assert(all_a[2] == size_writes(a)[2]);
            assert(all_b[2] == size_writes(b)[2]);
            lemma_u32_bytes_differ(p.width, q.width);
            lemma_u32_bytes_differ(p.height, q.height);
            assert(after_a =~= all_a.subrange(3, all_a.len() as int));
            assert(after_b =~= all_b.subrange(3, all_b.len() as int));
        },
        _ => {
            assert(after_a =~= all_a.subrange(1, all_a.len() as int));
            assert(after_b =~= all_b.subrange(1, all_b.len() as int));
        },
    }
}

/// What follows the byte strings of a window's geometry is found again behind
/// them, and so is the geometry.
proof fn lemma_window_writes_end(
    a: WindowState,
    after_a: Seq<Seq<u8>>,
    b: WindowState,
    after_b: Seq<Seq<u8>>,
)
    requires
        window_writes(a) + after_a == window_writes(b) + after_b,
    ensures
        a == b,
        after_a == after_b,
{
    let tail_a = size_writes(a.inner_size) + after_a;
    let tail_b = size_writes(b.inner_size) + after_b;
    assert(window_writes(a) + after_a =~= position_writes(a.outer_position) + tail_a);
    assert(window_writes(b) + after_b =~= position_writes(b.outer_position) + tail_b);
    lemma_position_writes_end(a.outer_position, tail_a, b.outer_position, tail_b);
    lemma_size_writes_end(a.inner_size, after_a, b.inner_size, after_b);
}

proof fn lemma_uris_writes_len(uris: Seq<Seq<char>>)
    ensures
        uris_writes(uris).len() == 2 * uris.len(),
    decreases uris.len(),
{
    if uris.len() > 0 {
        lemma_uris_writes_len(uris.drop_last());
    }
}

proof fn lemma_uris_writes_differ(a: Seq<Seq<char>>, b: Seq<Seq<char>>)
    requires
        uris_writes(a) == uris_writes(b),
    ensures
        a == b,
    decreases a.len(),
{
    lemma_uris_writes_len(a);
    lemma_uris_writes_len(b);
    if a.len() == 0 {
        assert(a =~= b);
    } else {
        let all = uris_writes(a);
        let front_a = uris_writes(a.drop_last());
        let front_b = uris_writes(b.drop_last());
        lemma_uris_writes_len(a.drop_last());
        lemma_uris_writes_len(b.drop_last());
        assert(all == front_a + text_writes(a.last()));
        assert(all == front_b + text_writes(b.last()));
        assert(all[all.len() - 1] == text_writes(a.last())[1]);
        assert(all[all.len() - 1] == text_writes(b.last())[1]);
        lemma_text_bytes_differ(a.last(), b.last());
        assert(front_a =~= all.subrange(0, all.len() - 2));
        assert(front_b =~= all.subrange(0, all.len() - 2));
        lemma_uris_writes_differ(a.drop_last(), b.drop_last());
        assert(a =~= a.drop_last().push(a.last()));
        assert(b =~= b.drop_last().push(b.last()));
    }
}

/// Settings that differ in content are hashed from different input. So a
/// change goes unsaved only where the hasher itself maps two inputs to one
/// value.
pub proof fn lemma_content_decides_hash_input(a: SettingsView, b: SettingsView)
    requires
        settings_writes(a) == settings_writes(b),
    ensures
        a == b,
{
    let fields_a = seq![
        flag_bytes(a.player.double_size_active),
        spec_u16_to_le_bytes(a.player.volume),
        flag_bytes(a.player.show_playlist),
    ];
    let fields_b = seq![
        flag_bytes(b.player.double_size_active),
        spec_u16_to_le_bytes(b.player.volume),
        flag_bytes(b.player.show_playlist),
    ];
    let after_a = fields_a + playlist_writes(a.playlist);
    let after_b = fields_b + playlist_writes(b.playlist);
    assert(settings_writes(a) =~= window_writes(a.player.window_state) + after_a);
    assert(settings_writes(b) =~= window_writes(b.player.window_state) + after_b);
    lemma_window_writes_end(a.player.window_state, after_a, b.player.window_state, after_b);
    assert(after_a[0] == fields_a[0] && after_b[0] == fields_b[0]);
    assert(after_a[1] == fields_a[1] && after_b[1] == fields_b[1]);
    assert(after_a[2] == fields_a[2] && after_b[2] == fields_b[2]);
    lemma_flag_bytes_differ(a.player.double_size_active, b.player.double_size_active);
    lemma_u16_bytes_differ(a.player.volume, b.player.volume);
    lemma_flag_bytes_differ(a.player.show_playlist, b.player.show_playlist);
    assert(playlist_writes(a.playlist) =~= after_a.subrange(3, after_a.len() as int));
    assert(playlist_writes(b.playlist) =~= after_b.subrange(3, after_b.len() as int));
    let list_a = seq![spec_u64_to_le_bytes(a.playlist.uris.len() as u64)] + uris_writes(
        a.playlist.uris,
    );
    let list_b = seq![spec_u64_to_le_bytes(b.playlist.uris.len() as u64)] + uris_writes(
        b.playlist.uris,
    );
    assert(playlist_writes(a.playlist) =~= window_writes(a.playlist.window_state) + list_a);
    assert(playlist_writes(b.playlist) =~= window_writes(b.playlist.window_state) + list_b);
    lemma_window_writes_end(a.playlist.window_state, list_a, b.playlist.window_state, list_b);
    assert(uris_writes(a.playlist.uris) =~= list_a.subrange(1, list_a.len() as int));
    assert(uris_writes(b.playlist.uris) =~= list_b.subrange(1, list_b.len() as int));
    lemma_uris_writes_differ(a.playlist.uris, b.playlist.uris);
}

/// A writer that changed the content and is still told not to save has hit a
/// collision of the hasher: two different inputs with one hash. Nothing else
/// lets a change go unsaved.
pub proof fn lemma_unsaved_change_is_a_collision(guard: AutoSavingSettings, before: Settings)
    requires
        guard.hash_before() == settings_hash(before@),
        guard.current()@ != before@,
        !guard.must_save(),
    ensures
        settings_writes(guard.current()@) != settings_writes(before@),
        DefaultHasher::spec_finish(settings_writes(guard.current()@)) == DefaultHasher::spec_finish(
            settings_writes(before@),
        ),
{
    if settings_writes(guard.current()@) == settings_writes(before@) {
        lemma_content_decides_hash_input(guard.current()@, before@);
    }
}

} // verus!
