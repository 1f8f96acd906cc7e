//! The media source: the decisions of its worker and the render loop's
//! cache of the newest track.

use vstd::prelude::*;

use crate::block::{BlockError, BlockState, ClickEvent, Icon};
use crate::text::{join, join_with, views};

verus! {

/// What the active player reports as playing.
#[derive(Debug)]
pub struct NowPlaying {
    pub artist: String,
    pub title: String,
}

impl View for NowPlaying {
    type V = (Seq<char>, Seq<char>);

    open spec fn view(&self) -> (Seq<char>, Seq<char>) {
        (self.artist@, self.title@)
    }
}

/// The text shown for a track: a music glyph, then `artist - title`.
pub open spec fn media_text(np: (Seq<char>, Seq<char>)) -> Seq<char> {
    Icon::Music.spec_label(np.0 + " - "@ + np.1)
}

/// What a player's metadata gives, where it names both the artists and the
/// title: the artists joined by `, `, and the title.
pub fn now_playing_from(artists: Option<Vec<String>>, title: Option<String>) -> (r: Option<NowPlaying>)
    ensures
        r is Some <==> artists is Some && title is Some,
        r matches Some(np) ==> (np.artist@ == join_with(views(artists->Some_0@), ", "@)
            && np.title@ == title->Some_0@),
{
    match (artists, title) {
        (Some(a), Some(t)) => Some(NowPlaying { artist: join(&a, ", "), title: t }),
        _ => None,
    }
}

/// A command to the media worker.
#[derive(Debug, Copy, Clone, PartialEq, Eq, Structural)]
pub enum MediaRequest {
    Quit,
    TogglePause,
}

/// What the media worker's timed wait for a command ended with.
#[derive(Debug, Copy, Clone, PartialEq, Eq, Structural)]
pub enum WorkerInput {
    Request(MediaRequest),
    /// No command came within the wait.
    Timeout,
    /// The source that sends commands is gone.
    Disconnected,
}

/// What the media worker found on the bus this round.
#[derive(Debug)]
pub enum PlayerProbe {
    /// No active player.
    NotFound,
    /// An active player, with what it plays where its metadata says so.
    Found(Option<NowPlaying>),
}

/// What the media worker does after one round.
#[derive(Debug)]
pub struct WorkerStep {
    /// Sent to the render loop.
    pub publish: Option<NowPlaying>,
    /// Whether to toggle play and pause on the player.
    pub play_pause: bool,
    /// Whether the worker ends.
    pub stop: bool,
}

/// One round of the media worker: it publishes what the player plays,
/// toggles pause on request where there is a player, and ends on `Quit` or
/// when no command can come any more.
pub fn worker_step(input: WorkerInput, probe: PlayerProbe) -> (r: WorkerStep)
    ensures
        r.stop <==> (input == WorkerInput::Request(MediaRequest::Quit) || input == WorkerInput::Disconnected),
        r.play_pause <==> (input == WorkerInput::Request(MediaRequest::TogglePause) && probe is Found),
        r.publish is Some <==> (probe matches PlayerProbe::Found(Some(_))),
        probe matches PlayerProbe::Found(Some(np)) ==> r.publish == Some(np),
{
    let stop = match input {
        WorkerInput::Request(MediaRequest::Quit) => true,
        WorkerInput::Disconnected => true,
        _ => false,
    };
    let toggle = match input {
        WorkerInput::Request(MediaRequest::TogglePause) => true,
        _ => false,
    };
    match probe {
        PlayerProbe::NotFound => WorkerStep { publish: None, play_pause: false, stop },
        PlayerProbe::Found(np) => WorkerStep { publish: np, play_pause: toggle, stop },
    }
}

/// The command that a click on the media slot sends: any button toggles pause.
pub fn click_request(_event: &ClickEvent) -> (r: MediaRequest)
    ensures
        r == MediaRequest::TogglePause,
{
    MediaRequest::TogglePause
}

/// The render loop's side of the media source: the text of the newest track
/// that the worker reported, if any.
pub struct MediaState {
    current: Option<String>,
    seen: Ghost<Seq<(Seq<char>, Seq<char>)>>,
}

impl MediaState {
    /// Every track reported so far, oldest first.
    pub closed spec fn spec_seen(&self) -> Seq<(Seq<char>, Seq<char>)> {
        self.seen@
    }

    pub closed spec fn wf(&self) -> bool {
        &&& self.seen@.len() == 0 ==> self.current is None
        &&& self.seen@.len() > 0 ==> (self.current matches Some(t) && t@ == media_text(self.seen@.last()))
    }

    /// Nothing reported yet.
    pub fn new() -> (r: Self)
        ensures
            r.wf(),
            r.spec_seen().len() == 0,
    {
        MediaState { current: None, seen: Ghost(Seq::empty()) }
    }

    /// Takes the reports that arrived since the last tick (oldest first) and
    /// shows the newest track reported so far; a failure until one is known.
    pub fn current_state(&mut self, reports: Vec<NowPlaying>) -> (r: Result<BlockState, BlockError>)
        requires
            old(self).wf(),
        ensures
            final(self).wf(),
            final(self).spec_seen() == old(self).spec_seen() + reports@.map_values(|n: NowPlaying| n@),
            r is Ok <==> final(self).spec_seen().len() > 0,
            r matches Ok(st) ==> (st@ == media_text(final(self).spec_seen().last()) && st@.len() > 0),
            old(self).spec_seen().len() > 0 ==> r is Ok,
    {
        let ghost added = reports@.map_values(|n: NowPlaying| n@);
        let mut reports = reports;
        match reports.pop() {
            Some(np) => {
                let mut text = String::from_str(" - ");
                let mut line = np.artist;
                line.append(text.as_str());
                line.append(np.title.as_str());
                text = Icon::Music.label(line.as_str());
                self.current = Some(text);
                assert(added.last() == np@);
            },
            None => {},
        }
        self.seen = Ghost(old(self).seen@ + added);
        assert(added.len() > 0 ==> self.seen@.last() == added.last());
        match &self.current {
            Some(t) => {
                proof {
                    assert(t@.len() > 0);
                }
                Ok(BlockState::new(t.clone()))
            },
            None => Err(BlockError::new(String::from_str("Unknown state"))),
        }
    }
}

} // verus!
