use vstd::prelude::*;
use crate::cursor::{
    Direction, names, advance_target, select_target, step_index, find_position, index_after,
    lemma_position_of_distinct,
};
use crate::pipeline::Generations;
use crate::search::{matching, filter_playlist, path_matches};
use crate::seek::{forward_target, backward_target, forward_position, backward_position};

verus! {

/// Whether keys go to the transport or to the search box.
#[derive(Clone, Copy, PartialEq, Eq, Structural, Debug)]
pub enum InputMode {
    Normal,
    Editing,
}

/// What the output device is told by a play/pause toggle.
#[derive(Clone, Copy, PartialEq, Eq, Structural, Debug)]
pub enum SinkCommand {
    Play,
    Pause,
}

/// Relies on `String::push`: appends one character.
#[verifier::external_body]
fn push_char(s: &mut String, c: char)
    ensures
        final(s)@ == old(s)@.push(c),
{
    s.push(c)
}

/// Relies on `String::pop`: removes and returns the last character, `None` when empty.
#[verifier::external_body]
fn pop_char(s: &mut String) -> (r: Option<char>)
    ensures
        old(s)@.len() == 0 ==> r is None && final(s)@ == old(s)@,
        old(s)@.len() > 0 ==> r == Some(old(s)@.last()) && final(s)@ == old(s)@.drop_last(),
{
    s.pop()
}

/// The playback controller: the catalog, the search results, the selection cursor,
/// the now-playing song and the generation of the running pipeline.
pub struct App {
    pub input: String,
    pub input_mode: InputMode,
    pub playlist: Vec<String>,
    pub search_results: Vec<String>,
    pub current_song_path: Option<String>,
    pub selected_song_index: Option<usize>,
    pub is_playing: bool,
    pub generations: Generations,
}

/// The controller once the running generation is retired.
pub open spec fn retired(a: App) -> App {
    App { generations: Generations { live: None, issued: a.generations.issued }, ..a }
}

/// The controller once entry `index` of the active list has started playing.
pub open spec fn started(a: App, index: int) -> App {
    if a.generations.issued < u64::MAX {
        App {
            current_song_path: Some(a.active_list()[index]),
            selected_song_index: Some(index as usize),
            is_playing: true,
            generations: Generations {
                live: Some(a.generations.issued),
                issued: (a.generations.issued + 1) as u64,
            },
            ..a
        }
    } else {
        a
    }
}

impl App {
    /// The active list: the whole catalog while the search box is empty, else the
    /// search results.
    pub open spec fn active_list(&self) -> Seq<String> {
        if self.input@.len() == 0 {
            self.playlist@
        } else {
            self.search_results@
        }
    }

    pub open spec fn active_names(&self) -> Seq<Seq<char>> {
        names(self.active_list())
    }

    pub open spec fn current_name(&self) -> Option<Seq<char>> {
        match self.current_song_path {
            Some(p) => Some(p@),
            None => None,
        }
    }

    /// The cursor points at an entry of the active list, and is absent only when that
    /// list is empty.
    pub open spec fn cursor_valid(&self) -> bool {
        match self.selected_song_index {
            Some(i) => (i as int) < self.active_list().len(),
            None => self.active_list().len() == 0,
        }
    }

    /// The generations are well formed, and neither the catalog nor the search results
    /// hold the same song twice.
    pub open spec fn lists_wf(&self) -> bool {
        &&& self.generations.wf()
        &&& names(self.playlist@).no_duplicates()
        &&& names(self.search_results@).no_duplicates()
    }

    pub open spec fn wf(&self) -> bool {
        &&& self.lists_wf()
        &&& self.cursor_valid()
    }

    /// Everything but the cursor is as in `other`.
    pub open spec fn same_but_cursor(&self, other: &App) -> bool {
        &&& self.input == other.input
        &&& self.input_mode == other.input_mode
        &&& self.playlist == other.playlist
        &&& self.search_results == other.search_results
        &&& self.current_song_path == other.current_song_path
        &&& self.is_playing == other.is_playing
        &&& self.generations == other.generations
    }

    /// A controller over `playlist`, idle, with the cursor on the first song if there is one.
    pub fn new(playlist: Vec<String>) -> (r: App)
        requires
            names(playlist@).no_duplicates(),
        ensures
            r.wf(),
            r.playlist@ == playlist@,
            r.input@.len() == 0,
            r.input_mode == InputMode::Normal,
            r.search_results@.len() == 0,
            r.current_song_path is None,
            r.selected_song_index == (if playlist@.len() == 0 { None } else { Some(0usize) }),
            !r.is_playing,
            r.generations.live is None,
            r.generations.issued == 0,
    {
        let selected_song_index = if playlist.len() == 0 { None } else { Some(0) };
        App {
            input: String::new(),
            input_mode: InputMode::Normal,
            playlist,
            search_results: Vec::new(),
            current_song_path: None,
            selected_song_index,
            is_playing: false,
            generations: Generations::new(),
        }
    }

    fn active(&self) -> (r: &Vec<String>)
        ensures
            r@ == self.active_list(),
    {
        if self.input.as_str().is_empty() {
            &self.playlist
        } else {
            &self.search_results
        }
    }

    /// Number of entries in the active list.
    pub fn active_len(&self) -> (r: usize)
        ensures
            r == self.active_list().len(),
    {
        self.active().len()
    }

    /// Entry `index` of the active list, if there is one.
    pub fn active_song(&self, index: usize) -> (r: Option<String>)
        ensures
            index < self.active_list().len() ==> r == Some(self.active_list()[index as int]),
            index >= self.active_list().len() ==> r is None,
    {
        let list = self.active();
        if index < list.len() {
            Some(list[index].clone())
        } else {
            None
        }
    }

    /// Toggles between playing and paused. `sink_paused` is whether the output device is
    /// paused, `None` when there is no device. With no device or no song loaded nothing
    /// changes.
    pub fn play_pause(&mut self, sink_paused: Option<bool>) -> (r: Option<SinkCommand>)
        ensures
            (sink_paused is None || old(self).current_song_path is None) ==> r is None && *final(self)
                == *old(self),
            old(self).current_song_path is Some && sink_paused == Some(true) ==> r == Some(
                SinkCommand::Play,
            ) && final(self).is_playing,
            old(self).current_song_path is Some && sink_paused == Some(false) ==> r == Some(
                SinkCommand::Pause,
            ) && !final(self).is_playing,
            *final(self) == (App { is_playing: final(self).is_playing, ..*old(self) }),
    {
        if self.current_song_path.is_none() {
            return None;
        }
        match sink_paused {
            Some(true) => {
                self.is_playing = true;
                Some(SinkCommand::Play)
            },
            Some(false) => {
                self.is_playing = false;
                Some(SinkCommand::Pause)
            },
            None => None,
        }
    }

    /// Whether a tick should move on to the next song by itself: a song is playing and
    /// the output device (`sink_empty`, `None` when there is none) has drained.
    pub fn should_auto_advance(&self, sink_empty: Option<bool>) -> (r: bool)
        ensures
            r == (self.is_playing && self.current_song_path is Some && sink_empty == Some(true)),
    {
        self.is_playing && self.current_song_path.is_some() && sink_empty == Some(true)
    }

    /// Seeking is possible when an output device exists and still has audio queued;
    /// `sink_empty` is whether it has none, `None` when there is no device.
    pub fn is_seekable(&self, sink_empty: Option<bool>) -> (r: bool)
        ensures
            r == (sink_empty == Some(false)),
    {
        match sink_empty {
            Some(e) => !e,
            None => false,
        }
    }

    /// The position, in nanoseconds, that a forward seek from `pos_ns` asks for, if seekable.
    pub fn seek_forward(&self, sink_empty: Option<bool>, pos_ns: u64) -> (r: Option<u64>)
        ensures
            sink_empty == Some(false) ==> r == Some(forward_target(pos_ns as int) as u64),
            sink_empty != Some(false) ==> r is None,
    {
        if self.is_seekable(sink_empty) {
            Some(forward_position(pos_ns))
        } else {
            None
        }
    }

    /// The position, in nanoseconds, that a backward seek from `pos_ns` asks for, if
    /// seekable; never before the start of the stream.
    pub fn seek_backward(&self, sink_empty: Option<bool>, pos_ns: u64) -> (r: Option<u64>)
        ensures
            sink_empty == Some(false) ==> r == Some(backward_target(pos_ns as int) as u64),
            sink_empty != Some(false) ==> r is None,
    {
        if self.is_seekable(sink_empty) {
            Some(backward_position(pos_ns))
        } else {
            None
        }
    }

    /// The index of the active list that the cursor points at, if it points at an entry.
    pub fn play_selected_song(&self) -> (r: Option<usize>)
        ensures
            r == (match self.selected_song_index {
                Some(i) if (i as int) < self.active_list().len() => Some(i),
                _ => None,
            }),
    {
        match self.selected_song_index {
            Some(i) => if i < self.active_len() { Some(i) } else { None },
            None => None,
        }
    }

    /// The index of the active list that `advance` in direction `dir` plays.
    pub fn advance(&self, dir: Direction) -> (r: Option<usize>)
        ensures
            match r {
                Some(i) => advance_target(self.active_names(), self.current_name(), dir) == Some(i as int)
                    && (i as int) < self.active_list().len(),
                None => advance_target(self.active_names(), self.current_name(), dir) is None,
            },
    {
        let list = self.active();
        let n = list.len();
        if n == 0 {
            return None;
        }
        match &self.current_song_path {
            Some(p) => match find_position(list, p) {
                Some(i) => Some(step_index(i, n, dir)),
                None => Some(0),
            },
            None => Some(0),
        }
    }

    /// The index of the active list that comes after the now-playing song.
    pub fn next_song(&self) -> (r: Option<usize>)
        ensures
            match r {
                Some(i) => advance_target(self.active_names(), self.current_name(), Direction::Next)
                    == Some(i as int) && (i as int) < self.active_list().len(),
                None => self.active_list().len() == 0,
            },
    {
        self.advance(Direction::Next)
    }

    /// The index of the active list that comes before the now-playing song.
    pub fn previous_song(&self) -> (r: Option<usize>)
        ensures
            match r {
                Some(i) => advance_target(self.active_names(), self.current_name(), Direction::Previous)
                    == Some(i as int) && (i as int) < self.active_list().len(),
                None => self.active_list().len() == 0,
            },
    {
        self.advance(Direction::Previous)
    }

    fn move_cursor(&mut self, dir: Direction)
        requires
            old(self).wf(),
        ensures
            final(self).wf(),
            final(self).selected_song_index == select_target(
                old(self).selected_song_index,
                old(self).active_list().len() as int,
                dir,
            ),
            final(self).same_but_cursor(&*old(self)),
    {
        let n = self.active_len();
        if n == 0 {
            return;
        }
        let i = match self.selected_song_index {
            Some(i) => if i < n { step_index(i, n, dir) } else { 0 },
            None => 0,
        };
        self.selected_song_index = Some(i);
    }

    /// Moves the cursor one entry down the active list, wrapping to the top.
    pub fn select_next(&mut self)
        requires
            old(self).wf(),
        ensures
            final(self).wf(),
            final(self).selected_song_index == select_target(
                old(self).selected_song_index,
                old(self).active_list().len() as int,
                Direction::Next,
            ),
            final(self).same_but_cursor(&*old(self)),
    {
        self.move_cursor(Direction::Next)
    }

    /// Moves the cursor one entry up the active list, wrapping to the bottom.
    pub fn select_previous(&mut self)
        requires
            old(self).wf(),
        ensures
            final(self).wf(),
            final(self).selected_song_index == select_target(
                old(self).selected_song_index,
                old(self).active_list().len() as int,
                Direction::Previous,
            ),
            final(self).same_but_cursor(&*old(self)),
    {
        self.move_cursor(Direction::Previous)
    }

    /// First step of playing a song: retires the running generation and returns it,
    /// so that its workers are cancelled and joined before anything new starts.
    pub fn begin_play(&mut self) -> (r: Option<u64>)
        requires
            old(self).wf(),
        ensures
            r == old(self).generations.live,
            *final(self) == retired(*old(self)),
            final(self).wf(),
    {
        self.generations.retire()
    }

    /// Last step of playing entry `index` of the active list, once its stream is open:
    /// it becomes the now-playing song under a fresh generation, which is returned.
    /// `None`, with nothing changed, only when generation identifiers are used up.
    pub fn finish_play(&mut self, index: usize) -> (r: Option<u64>)
        requires
            old(self).wf(),
            old(self).generations.live is None,
            index < old(self).active_list().len(),
        ensures
            *final(self) == started(*old(self), index as int),
            final(self).wf(),
            r == final(self).generations.live,
            r is None <==> old(self).generations.issued == u64::MAX,
    {
        let song = self.active()[index].clone();
        match self.generations.launch() {
            Some(g) => {
                self.current_song_path = Some(song);
                self.selected_song_index = Some(index);
                self.is_playing = true;
                Some(g)
            },
            None => None,
        }
    }

    /// A song that could not be opened leaves the controller idle.
    pub fn abort_play(&mut self)
        requires
            old(self).generations.live is None,
        ensures
            *final(self) == (App { current_song_path: None, is_playing: false, ..*old(self) }),
    {
        self.current_song_path = None;
        self.is_playing = false;
    }

    /// Keys go to the search box from now on.
    pub fn start_editing(&mut self)
        ensures
            *final(self) == (App { input_mode: InputMode::Editing, ..*old(self) }),
    {
        self.input_mode = InputMode::Editing;
    }

    /// Keys go to the transport again; the search box keeps its text.
    pub fn stop_editing(&mut self)
        ensures
            *final(self) == (App { input_mode: InputMode::Normal, ..*old(self) }),
    {
        self.input_mode = InputMode::Normal;
    }

    /// Puts the cursor back on the first entry when it no longer points into the
    /// active list; a cursor that still does stays where it is.
    fn repair_cursor(&mut self)
        requires
            old(self).lists_wf(),
        ensures
            final(self).wf(),
            old(self).cursor_valid() ==> *final(self) == *old(self),
            !old(self).cursor_valid() ==> *final(self) == (App {
                selected_song_index: if old(self).active_list().len() == 0 {
                    None
                } else {
                    Some(0usize)
                },
                ..*old(self)
            }),
    {
        let n = self.active_len();
        let valid = match self.selected_song_index {
            Some(i) => i < n,
            None => n == 0,
        };
        if !valid {
            self.selected_song_index = if n == 0 { None } else { Some(0) };
        }
    }

    /// Appends a character to the search box; the cursor is repaired if the active list
    /// changed under it.
    pub fn type_char(&mut self, c: char)
        requires
            old(self).wf(),
        ensures
            final(self).wf(),
            final(self).input@ == old(self).input@.push(c),
            *final(self) == (App {
                input: final(self).input,
                selected_song_index: final(self).selected_song_index,
                ..*old(self)
            }),
            (match old(self).selected_song_index {
                Some(i) => (i as int) < final(self).active_list().len(),
                None => final(self).active_list().len() == 0,
            }) ==> final(self).selected_song_index == old(self).selected_song_index,
            !(match old(self).selected_song_index {
                Some(i) => (i as int) < final(self).active_list().len(),
                None => final(self).active_list().len() == 0,
            }) ==> final(self).selected_song_index == (if final(self).active_list().len() == 0 {
                None
            } else {
                Some(0usize)
            }),
    {
        push_char(&mut self.input, c);
        self.repair_cursor();
    }

    /// Removes the last character of the search box, if any; the cursor is repaired if
    /// the active list changed under it.
    pub fn erase_char(&mut self)
        requires
            old(self).wf(),
        ensures
            final(self).wf(),
            old(self).input@.len() == 0 ==> final(self).input@ == old(self).input@,
            old(self).input@.len() > 0 ==> final(self).input@ == old(self).input@.drop_last(),
            *final(self) == (App {
                input: final(self).input,
                selected_song_index: final(self).selected_song_index,
                ..*old(self)
            }),
            (match old(self).selected_song_index {
                Some(i) => (i as int) < final(self).active_list().len(),
                None => final(self).active_list().len() == 0,
            }) ==> final(self).selected_song_index == old(self).selected_song_index,
            !(match old(self).selected_song_index {
                Some(i) => (i as int) < final(self).active_list().len(),
                None => final(self).active_list().len() == 0,
            }) ==> final(self).selected_song_index == (if final(self).active_list().len() == 0 {
                None
            } else {
                Some(0usize)
            }),
    {
        let _ = pop_char(&mut self.input);
        self.repair_cursor();
    }

    /// Runs the search: the results are the catalog entries that hold the query, ignoring
    /// case, in catalog order; the cursor goes to the first entry of the active list, and
    /// keys to the transport.
    pub fn submit_search(&mut self)
        requires
            old(self).wf(),
        ensures
            final(self).wf(),
            names(final(self).search_results@) == matching(names(old(self).playlist@), old(self).input@),
            final(self).selected_song_index == (if final(self).active_list().len() == 0 {
                None
            } else {
                Some(0usize)
            }),
            final(self).selected_song_index == (if final(self).search_results@.len() == 0 {
                None
            } else {
                Some(0usize)
            }),
            final(self).input_mode == InputMode::Normal,
            final(self).input == old(self).input,
            final(self).playlist == old(self).playlist,
            final(self).current_song_path == old(self).current_song_path,
            final(self).is_playing == old(self).is_playing,
            final(self).generations == old(self).generations,
    {
        self.search_results = filter_playlist(&self.playlist, &self.input);
        proof {
            lemma_matching_keeps_distinct(names(self.playlist@), self.input@);
        }
        self.selected_song_index = if self.active_len() == 0 { None } else { Some(0) };
        self.input_mode = InputMode::Normal;
    }

    /// Empties the search box and its results; the cursor goes back to the first song.
    pub fn clear_search(&mut self)
        requires
            old(self).wf(),
        ensures
            final(self).wf(),
            final(self).input@.len() == 0,
            final(self).search_results@.len() == 0,
            final(self).selected_song_index == (if old(self).playlist@.len() == 0 {
                None
            } else {
                Some(0usize)
            }),
            final(self).input_mode == old(self).input_mode,
            final(self).playlist == old(self).playlist,
            final(self).current_song_path == old(self).current_song_path,
            final(self).is_playing == old(self).is_playing,
            final(self).generations == old(self).generations,
    {
        self.input = String::new();
        self.search_results = Vec::new();
        self.selected_song_index = if self.playlist.len() == 0 { None } else { Some(0) };
    }
}

proof fn lemma_matching_keeps_distinct(s: Seq<Seq<char>>, q: Seq<char>)
    requires
        s.no_duplicates(),
    ensures
        matching(s, q).no_duplicates(),
        forall|x| matching(s, q).contains(x) ==> s.contains(x),
    decreases s.len(),
{
    if s.len() > 0 {
        let init = s.drop_last();
        assert(init.no_duplicates());
        lemma_matching_keeps_distinct(init, q);
        assert forall|x| init.contains(x) implies s.contains(x) by {
            let j = choose|j: int| 0 <= j < init.len() && init[j] == x;
            assert(s[j] == x);
        }
        if path_matches(s.last(), q) {
            assert(!init.contains(s.last())) by {
                if init.contains(s.last()) {
                    let j = choose|j: int| 0 <= j < init.len() && init[j] == s.last();
                    assert(s[j] == s[s.len() - 1]);
                }
            }
            let m = matching(init, q);
            assert forall|x| m.push(s.last()).contains(x) implies s.contains(x) by {
                let j = choose|j: int| 0 <= j < m.push(s.last()).len() && m.push(s.last())[j] == x;
                if j == m.len() {
                    assert(s[s.len() - 1] == x);
                } else {
                    assert(m.contains(x));
                }
            }
        }
    }
}

/// The controller after one `advance` in direction `dir` has started its song: what
/// `advance` followed by `begin_play` and `finish_play` makes of it.
pub open spec fn advanced(a: App, dir: Direction) -> App {
    match advance_target(a.active_names(), a.current_name(), dir) {
        Some(i) => started(retired(a), i),
        None => a,
    }
}

/// The controller after `m` advances in direction `dir`.
pub open spec fn advanced_times(a: App, dir: Direction, m: nat) -> App
    decreases m,
{
    if m == 0 {
        a
    } else {
        advanced(advanced_times(a, dir, (m - 1) as nat), dir)
    }
}

/// Playing the index that `advance` returns, by `begin_play` and then `finish_play`,
/// gives the controller `advanced` describes.
pub proof fn lemma_advance_then_play(a: App, dir: Direction, i: int)
    requires
        advance_target(a.active_names(), a.current_name(), dir) == Some(i),
    ensures
        started(retired(a), i) == advanced(a, dir),
{
}

proof fn lemma_advanced_times_closed(a: App, k: int, dir: Direction, m: nat)
    requires
        a.wf(),
        0 <= k < a.active_list().len(),
        a.current_song_path == Some(a.active_list()[k]),
        m <= a.active_list().len(),
        a.generations.issued + m < u64::MAX,
    ensures
        0 <= index_after(k, a.active_list().len() as int, dir, m as int) < a.active_list().len(),
        advanced_times(a, dir, m).active_list() == a.active_list(),
        advanced_times(a, dir, m).wf(),
        advanced_times(a, dir, m).current_song_path == Some(
            a.active_list()[index_after(k, a.active_list().len() as int, dir, m as int)],
        ),
        advanced_times(a, dir, m).generations.issued == a.generations.issued + m,
        m > 0 ==> advanced_times(a, dir, m).selected_song_index == Some(
            index_after(k, a.active_list().len() as int, dir, m as int) as usize,
        ),
    decreases m,
{
    if m > 0 {
        lemma_advanced_times_closed(a, k, dir, (m - 1) as nat);
        let b = advanced_times(a, dir, (m - 1) as nat);
        let j = index_after(k, a.active_list().len() as int, dir, m - 1);
        assert(b.active_names() == a.active_names());
        assert(a.active_names()[j] == a.active_list()[j]@);
        lemma_position_of_distinct(a.active_names(), j, 0);
    }
}

/// Advancing through the active list as many times as it has entries, in either
/// direction and playing each song in turn, brings back the song that was playing and
/// puts the cursor on it again.
pub proof fn lemma_advance_round_trip(a: App, k: int, dir: Direction)
    requires
        a.wf(),
        0 <= k < a.active_list().len(),
        a.current_song_path == Some(a.active_list()[k]),
        a.generations.issued + a.active_list().len() < u64::MAX,
    ensures
        advanced_times(a, dir, a.active_list().len()).current_song_path == Some(a.active_list()[k]),
        advanced_times(a, dir, a.active_list().len()).selected_song_index == Some(k as usize),
{
    lemma_advanced_times_closed(a, k, dir, a.active_list().len());
}

/// Playing a song retires the generation that ran before it: the song becomes the
/// now-playing one under a new generation, and no earlier generation is live.
pub proof fn lemma_play_retires_previous(a: App, index: int)
    requires
        a.wf(),
        0 <= index < a.active_list().len(),
        a.generations.issued < u64::MAX,
    ensures
        started(retired(a), index).current_song_path == Some(a.active_list()[index]),
        started(retired(a), index).is_playing,
        started(retired(a), index).generations.live == Some(a.generations.issued),
        a.generations.live is Some ==> started(retired(a), index).generations.live != a.generations.live,
        started(retired(a), index).wf(),
{
}

} // verus!
