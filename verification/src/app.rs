//! The top-level state holder.
//!
//! Every field the core logic reads is held here as a plain value; the
//! remote playback API, the terminal, the filesystem cache and the clock
//! are outside collaborators, and each operation takes what they produced
//! (a fetched device list, a fetched snapshot, the monotonic time in
//! milliseconds) as an argument.

use vstd::prelude::*;

use crate::playback::estimate;
use crate::playback::spec_estimate;
use crate::playback::spec_should_poll;
use crate::playback::PlaybackSnapshot;
use crate::playback::PollState;

verus! {

/// The minimum spacing between two remote playback polls, in milliseconds.
pub const DEFAULT_POLL_INTERVAL_MS: u128 = 5000;

/// Which pane of the search results is being pointed at.
#[derive(PartialEq, Debug)]
pub enum SearchResultBlock {
    AlbumSearch,
    SongSearch,
    ArtistSearch,
    PlaylistSearch,
    Empty,
}

/// Which block of the interface currently has focus.
#[derive(Clone, Copy, PartialEq, Debug)]
pub enum ActiveBlock {
    Error,
    HelpMenu,
    Home,
    Input,
    MyPlaylists,
    SelectDevice,
    SearchResultBlock,
    SongTable,
}

/// Where the song table's rows came from.
#[derive(PartialEq, Debug)]
pub enum SongTableContext {
    MyPlaylists,
    AlbumSearch,
    SongSearch,
    ArtistSearch,
    PlaylistSearch,
}

/// Selection state of the search results view.
pub struct SearchResult {
    pub selected_album_index: Option<usize>,
    pub selected_artists_index: Option<usize>,
    pub selected_playlists_index: Option<usize>,
    pub selected_tracks_index: Option<usize>,
    pub hovered_block: SearchResultBlock,
    pub selected_block: SearchResultBlock,
}

/// The application state: interface bookkeeping, the last playback
/// snapshot, and the poll gate.  Remote fetch results and the monotonic
/// clock are handed in by the caller.
pub struct App {
    pub large_search_limit: u32,
    pub small_search_limit: u32,
    pub active_block: ActiveBlock,
    pub api_error: String,
    pub current_playing_context: Option<PlaybackSnapshot>,
    pub device_id: Option<String>,
    pub devices: Option<Vec<String>>,
    pub input: String,
    pub search_results: SearchResult,
    pub song_table_context: Option<SongTableContext>,
    pub select_song_index: usize,
    pub selected_device_index: Option<usize>,
    pub selected_playlist_index: Option<usize>,
    pub song_progress_ms: u128,
    pub poll: PollState,
    pub poll_interval_ms: u128,
}

impl App {
    /// A fresh application state, with the poll gate started at `now_ms`.
    pub fn new(now_ms: u128) -> (r: App)
        ensures
            r.large_search_limit == 20,
            r.small_search_limit == 4,
            r.active_block == ActiveBlock::MyPlaylists,
            r.api_error@ == Seq::<char>::empty(),
            r.current_playing_context is None,
            r.device_id is None,
            r.devices is None,
            r.input@ == Seq::<char>::empty(),
            r.search_results.hovered_block == SearchResultBlock::SongSearch,
            r.search_results.selected_block == SearchResultBlock::Empty,
            r.search_results.selected_album_index is None,
            r.search_results.selected_artists_index is None,
            r.search_results.selected_playlists_index is None,
            r.search_results.selected_tracks_index is None,
            r.song_table_context is None,
            r.select_song_index == 0,
            r.selected_device_index is None,
            r.selected_playlist_index is None,
            r.song_progress_ms == 0,
            r.poll.last_poll_at_ms == now_ms,
            r.poll_interval_ms == DEFAULT_POLL_INTERVAL_MS,
    {
        App {
            large_search_limit: 20,
            small_search_limit: 4,
            active_block: ActiveBlock::MyPlaylists,
            api_error: String::new(),
            current_playing_context: None,
            device_id: None,
            devices: None,
            input: String::new(),
            search_results: SearchResult {
                hovered_block: SearchResultBlock::SongSearch,
                selected_block: SearchResultBlock::Empty,
                selected_album_index: None,
                selected_artists_index: None,
                selected_playlists_index: None,
                selected_tracks_index: None,
            },
            song_table_context: None,
            select_song_index: 0,
            selected_device_index: None,
            selected_playlist_index: None,
            song_progress_ms: 0,
            poll: PollState::new(now_ms),
            poll_interval_ms: DEFAULT_POLL_INTERVAL_MS,
        }
    }

    /// Applies the outcome of a "list devices" fetch.  A successful fetch
    /// focuses the device pane; a non-empty list is stored with its first
    /// device selected; a failed fetch (`None`) changes nothing.
    pub fn handle_get_devices(&mut self, fetched: Option<Vec<String>>)
        ensures
            fetched is None ==> *final(self) == *old(self),
            fetched matches Some(ids) ==> {
                &&& ids@.len() == 0 ==> *final(self) == (App {
                    active_block: ActiveBlock::SelectDevice,
                    ..*old(self)
                })
                &&& ids@.len() > 0 ==> *final(self) == (App {
                    active_block: ActiveBlock::SelectDevice,
                    devices: Some(ids),
                    selected_device_index: Some(0usize),
                    ..*old(self)
                })
            },
    {
        if let Some(ids) = fetched {
            self.active_block = ActiveBlock::SelectDevice;
            if ids.len() > 0 {
                self.devices = Some(ids);
                self.selected_device_index = Some(0);
            }
        }
    }

    /// Applies the outcome of a "current playback" fetch: a snapshot that
    /// is playing replaces the stored one; a failed fetch, or one with
    /// nothing playing, changes nothing.  Snapshots arrive in fetch order,
    /// so their fetch times never decrease across replacements.
    pub fn get_currently_playing(&mut self, fetched: Option<PlaybackSnapshot>)
        requires
            fetched matches Some(s) ==> (old(self).current_playing_context matches Some(c) ==> (
            s.is_playing ==> c.fetched_at_ms <= s.fetched_at_ms)),
        ensures
            fetched is None ==> *final(self) == *old(self),
            fetched matches Some(s) ==> {
                &&& s.is_playing ==> *final(self) == (App {
                    current_playing_context: Some(s),
                    ..*old(self)
                })
                &&& !s.is_playing ==> *final(self) == *old(self)
            },
    {
        if let Some(s) = fetched {
            if s.is_playing {
                self.current_playing_context = Some(s);
            }
        }
    }

    /// The elapsed-time gate: when a full `poll_interval_ms` has passed
    /// since the last poll, records the new poll time and reports that a
    /// fresh remote fetch is due.
    pub fn poll_currently_playing(&mut self, now_ms: u128) -> (due: bool)
        ensures
            due == spec_should_poll(
                old(self).poll.last_poll_at_ms,
                now_ms,
                old(self).poll_interval_ms,
            ),
            due ==> *final(self) == (App {
                poll: PollState { last_poll_at_ms: now_ms },
                ..*old(self)
            }),
            !due ==> *final(self) == *old(self),
    {
        let due = self.poll.should_poll(now_ms, self.poll_interval_ms);
        if due {
            self.poll.record_poll(now_ms);
        }
        due
    }

    /// Advances the displayed progress from the stored snapshot: while it
    /// is playing, the time elapsed since it was fetched, clamped to the
    /// track's duration; while paused, or with no snapshot stored, the
    /// display is left untouched.
    pub fn update_on_tick(&mut self, now_ms: u128)
        requires
            old(self).current_playing_context matches Some(c) ==> (c.is_playing
                ==> c.fetched_at_ms <= now_ms),
        ensures
            old(self).current_playing_context matches Some(c) ==> *final(self) == (App {
                song_progress_ms: spec_estimate(c, now_ms, old(self).song_progress_ms),
                ..*old(self)
            }),
            old(self).current_playing_context is None ==> *final(self) == *old(self),
    {
        if let Some(c) = self.current_playing_context {
            let progress = estimate(&c, now_ms, self.song_progress_ms);
            self.song_progress_ms = progress;
        }
    }
}

} // verus!
