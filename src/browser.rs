use vstd::prelude::*;
use crate::playback::{
    after_open, after_play, after_set_volume, play_commands, toggle_command, toggled,
    volume_command, AudioCommand, OpenError, PlaybackSession, Slot, DEFAULT_VOLUME,
};
use crate::selection::{clamp_index, stepped, Direction, RowLayout, RowRange, SelectionState};

verus! {

/// The commands that a single optional command makes.
pub open spec fn commands_of(cmd: Option<AudioCommand>) -> Seq<AudioCommand> {
    match cmd {
        Some(c) => seq![c],
        None => Seq::empty(),
    }
}

/// The application core: the result list with its selection, and the playback
/// slot. Each input event changes them and returns the commands for the audio
/// device, to be carried out in order.
#[derive(Clone, Debug)]
pub struct Browser {
    pub selection: SelectionState,
    pub session: PlaybackSession,
}

impl Browser {
    pub open spec fn wf(&self) -> bool {
        self.selection.wf() && self.session.wf()
    }

    pub fn new() -> (r: Browser)
        ensures
            r.wf(),
            r.selection.results@.len() == 0,
            r.selection.selected_index == 0,
            !r.selection.pending_scroll,
            r.session.slot == Slot::Idle,
            r.session.active_path is None,
            r.session.volume == DEFAULT_VOLUME,
            r.session.last_error is None,
    {
        Browser { selection: SelectionState::new(), session: PlaybackSession::new() }
    }

    fn start(&mut self, path: String) -> (cmds: Vec<AudioCommand>)
        ensures
            cmds@ == play_commands(old(self).session, path),
            final(self).session == after_play(old(self).session, path),
            final(self).selection == old(self).selection,
            old(self).wf() ==> final(self).wf(),
    {
        self.session.play(path)
    }

    /// Takes the paths that the search provider returned for a submitted query.
    /// The first row becomes current; nothing is played or scrolled.
    pub fn submit_results(&mut self, results: Vec<String>)
        ensures
            final(self).selection.results@ == results@,
            final(self).selection.selected_index == 0,
            final(self).selection.pending_scroll == old(self).selection.pending_scroll,
            final(self).session == old(self).session,
            old(self).wf() ==> final(self).wf(),
    {
        self.selection.replace_results(results);
    }

    /// Up or Down: steps the selection, clamped at the ends, asks for a scroll to
    /// it and (re)starts its track. Ignored while there are no results.
    pub fn navigate(&mut self, dir: Direction) -> (cmds: Vec<AudioCommand>)
        ensures
            old(self).selection.results@.len() == 0 ==> cmds@.len() == 0 && *final(self) == *old(self),
            old(self).selection.results@.len() > 0 ==> {
                let i = stepped(
                    old(self).selection.selected_index as int,
                    old(self).selection.results@.len() as int,
                    dir,
                );
                let path = old(self).selection.results@[i];
                &&& final(self).selection.selected_index as int == i
                &&& final(self).selection.pending_scroll
                &&& cmds@ == play_commands(old(self).session, path)
                &&& final(self).session == after_play(old(self).session, path)
            },
            final(self).selection.results@ == old(self).selection.results@,
            final(self).selection.wf(),
            old(self).wf() ==> final(self).wf(),
    {
        match self.selection.move_selection(dir) {
            Some(path) => self.start(path),
            None => Vec::new(),
        }
    }

    pub fn key_up(&mut self) -> (cmds: Vec<AudioCommand>)
        ensures
            old(self).selection.results@.len() == 0 ==> cmds@.len() == 0 && *final(self) == *old(self),
            old(self).selection.results@.len() > 0 ==> {
                let i = stepped(
                    old(self).selection.selected_index as int,
                    old(self).selection.results@.len() as int,
                    Direction::Up,
                );
                let path = old(self).selection.results@[i];
                &&& final(self).selection.selected_index as int == i
                &&& final(self).selection.pending_scroll
                &&& cmds@ == play_commands(old(self).session, path)
                &&& final(self).session == after_play(old(self).session, path)
            },
            final(self).selection.results@ == old(self).selection.results@,
            old(self).wf() ==> final(self).wf(),
    {
        self.navigate(Direction::Up)
    }

    pub fn key_down(&mut self) -> (cmds: Vec<AudioCommand>)
        ensures
            old(self).selection.results@.len() == 0 ==> cmds@.len() == 0 && *final(self) == *old(self),
            old(self).selection.results@.len() > 0 ==> {
                let i = stepped(
                    old(self).selection.selected_index as int,
                    old(self).selection.results@.len() as int,
                    Direction::Down,
                );
                let path = old(self).selection.results@[i];
                &&& final(self).selection.selected_index as int == i
                &&& final(self).selection.pending_scroll
                &&& cmds@ == play_commands(old(self).session, path)
                &&& final(self).session == after_play(old(self).session, path)
            },
            final(self).selection.results@ == old(self).selection.results@,
            old(self).wf() ==> final(self).wf(),
    {
        self.navigate(Direction::Down)
    }

    /// A click on a row: makes it current and (re)starts its track, even where it
    /// was current already. No scroll is asked for. An index past the end
    /// selects the last row; with no results the click is ignored.
    pub fn click_row(&mut self, index: usize) -> (cmds: Vec<AudioCommand>)
        ensures
            old(self).selection.results@.len() == 0 ==> cmds@.len() == 0 && *final(self) == *old(self),
            old(self).selection.results@.len() > 0 ==> {
                let i = clamp_index(index as int, old(self).selection.results@.len() as int);
                let path = old(self).selection.results@[i];
                &&& final(self).selection.selected_index as int == i
                &&& cmds@ == play_commands(old(self).session, path)
                &&& final(self).session == after_play(old(self).session, path)
            },
            final(self).selection.results@ == old(self).selection.results@,
            final(self).selection.pending_scroll == old(self).selection.pending_scroll,
            old(self).wf() ==> final(self).wf(),
    {
        match self.selection.select_by_click(index) {
            Some(path) => self.start(path),
            None => Vec::new(),
        }
    }

    /// Space: pauses a playing track or resumes a paused one.
    pub fn key_space(&mut self) -> (cmds: Vec<AudioCommand>)
        ensures
            cmds@ == commands_of(toggle_command(old(self).session.slot)),
            final(self).session.slot == toggled(old(self).session.slot),
            final(self).session.active_path == old(self).session.active_path,
            final(self).session.volume == old(self).session.volume,
            final(self).session.last_error == old(self).session.last_error,
            final(self).selection == old(self).selection,
            old(self).wf() ==> final(self).wf(),
    {
        let mut cmds: Vec<AudioCommand> = Vec::new();
        match self.session.toggle_pause() {
            Some(c) => {
                cmds.push(c);
            },
            None => {},
        }
        assert(cmds@ =~= commands_of(toggle_command(old(self).session.slot)));
        cmds
    }

    /// Right: (re)starts the current row's track, even if it is playing.
    /// Ignored while there are no results.
    pub fn key_right(&mut self) -> (cmds: Vec<AudioCommand>)
        ensures
            old(self).selection.results@.len() == 0 ==> cmds@.len() == 0 && *final(self) == *old(self),
            old(self).selection.results@.len() > 0 ==> {
                let path = old(self).selection.results@[clamp_index(
                    old(self).selection.selected_index as int,
                    old(self).selection.results@.len() as int,
                )];
                &&& cmds@ == play_commands(old(self).session, path)
                &&& final(self).session == after_play(old(self).session, path)
            },
            final(self).selection == old(self).selection,
            old(self).wf() ==> final(self).wf(),
    {
        match self.selection.current() {
            Some(path) => self.start(path),
            None => Vec::new(),
        }
    }

    /// The volume control moved: the level is kept for every later track, and
    /// applied at once where a track is held.
    pub fn volume_changed(&mut self, level: u32) -> (cmds: Vec<AudioCommand>)
        ensures
            cmds@ == commands_of(volume_command(old(self).session, level)),
            final(self).session == after_set_volume(old(self).session, level),
            final(self).selection == old(self).selection,
            old(self).wf() ==> final(self).wf(),
    {
        let mut cmds: Vec<AudioCommand> = Vec::new();
        match self.session.set_volume(level) {
            Some(c) => {
                cmds.push(c);
            },
            None => {},
        }
        assert(cmds@ =~= commands_of(volume_command(old(self).session, level)));
        cmds
    }

    /// The audio device reports how the requested open went.
    pub fn open_finished(&mut self, outcome: Result<(), OpenError>)
        ensures
            final(self).session == after_open(old(self).session, outcome),
            final(self).selection == old(self).selection,
            old(self).wf() ==> final(self).wf(),
    {
        self.session.open_finished(outcome);
    }

    /// The scroll directive owed for the current row, issued once per selection
    /// change made from the keyboard.
    pub fn take_scroll(&mut self, layout: RowLayout) -> (r: Option<RowRange>)
        ensures
            old(self).selection.pending_scroll && layout.row_height > 0 ==> {
                &&& r == Some(crate::selection::row_span(old(self).selection.selected_index as int, layout))
                &&& !final(self).selection.pending_scroll
            },
            !(old(self).selection.pending_scroll && layout.row_height > 0) ==> {
                &&& r is None
                &&& final(self).selection.pending_scroll == old(self).selection.pending_scroll
            },
            final(self).selection.results@ == old(self).selection.results@,
            final(self).selection.selected_index == old(self).selection.selected_index,
            final(self).session == old(self).session,
            old(self).wf() ==> final(self).wf(),
    {
        self.selection.take_scroll(layout)
    }
}

} // verus!
