use vstd::prelude::*;

verus! {

/// The largest volume level; levels are thousandths of full scale.
pub const MAX_VOLUME: u16 = 1000;

/// The volume a new session starts with.
pub const DEFAULT_VOLUME: u16 = 700;

/// Why the audio device could not open a track.
#[derive(Clone, Copy, Debug, PartialEq, Eq, Structural)]
pub enum OpenError {
    NotFound,
    UnsupportedFormat,
    DeviceUnavailable,
}

/// The state of the single playback slot.
#[derive(Clone, Copy, Debug, PartialEq, Eq, Structural)]
pub enum Slot {
    /// No handle is held.
    Idle,
    /// An open of the active path has been requested and its outcome is awaited.
    Opening,
    Playing,
    Paused,
}

/// What the audio device is asked to do, in order.
#[derive(Clone, Debug, PartialEq, Eq)]
pub enum AudioCommand {
    /// Stop and drop the handle currently held.
    Release,
    /// Open the file at the path and start it at the given volume.
    Open(String, u16),
    Pause,
    Resume,
    /// Apply a volume level to the handle currently held.
    SetVolume(u16),
}

/// The one playback slot of the application, and the volume shared by all tracks.
#[derive(Clone, Debug)]
pub struct PlaybackSession {
    pub active_path: Option<String>,
    pub slot: Slot,
    pub volume: u16,
    pub last_error: Option<OpenError>,
}

/// How many audio handles a slot state may hold.
pub open spec fn held(slot: Slot) -> int {
    if slot == Slot::Idle { 0 } else { 1 }
}

/// How many handles are open after the device carries out `cmds`, starting with `n`.
/// The slot holds one handle, so a release leaves none.
pub open spec fn handles_after(n: int, cmds: Seq<AudioCommand>) -> int
    decreases cmds.len(),
{
    if cmds.len() == 0 {
        n
    } else {
        let m = match cmds[0] {
            AudioCommand::Release => 0,
            AudioCommand::Open(_, _) => n + 1,
            _ => n,
        };
        handles_after(m, cmds.drop_first())
    }
}

/// The most handles open at once while the device carries out `cmds`, starting with `n`.
pub open spec fn peak_handles(n: int, cmds: Seq<AudioCommand>) -> int
    decreases cmds.len(),
{
    if cmds.len() == 0 {
        n
    } else {
        let m = match cmds[0] {
            AudioCommand::Release => 0,
            AudioCommand::Open(_, _) => n + 1,
            _ => n,
        };
        let rest = peak_handles(m, cmds.drop_first());
        if n > rest { n } else { rest }
    }
}

pub open spec fn clamp_volume(level: u32) -> u16 {
    if level > MAX_VOLUME as u32 { MAX_VOLUME } else { level as u16 }
}

/// The commands that start `path`: the held handle, if any, goes first.
pub open spec fn play_commands(s: PlaybackSession, path: String) -> Seq<AudioCommand> {
    if s.slot == Slot::Idle {
        seq![AudioCommand::Open(path, s.volume)]
    } else {
        seq![AudioCommand::Release, AudioCommand::Open(path, s.volume)]
    }
}

pub open spec fn after_play(s: PlaybackSession, path: String) -> PlaybackSession {
    PlaybackSession { active_path: Some(path), slot: Slot::Opening, volume: s.volume, last_error: None }
}

/// The session once the device has reported how the awaited open went.
pub open spec fn after_open(s: PlaybackSession, outcome: Result<(), OpenError>) -> PlaybackSession {
    if s.slot != Slot::Opening {
        s
    } else {
        match outcome {
            Ok(()) => PlaybackSession { slot: Slot::Playing, ..s },
            Err(e) => PlaybackSession {
                active_path: None,
                slot: Slot::Idle,
                volume: s.volume,
                last_error: Some(e),
            },
        }
    }
}

pub open spec fn toggled(slot: Slot) -> Slot {
    match slot {
        Slot::Playing => Slot::Paused,
        Slot::Paused => Slot::Playing,
        _ => slot,
    }
}

pub open spec fn toggle_command(slot: Slot) -> Option<AudioCommand> {
    match slot {
        Slot::Playing => Some(AudioCommand::Pause),
        Slot::Paused => Some(AudioCommand::Resume),
        _ => None,
    }
}

pub open spec fn after_set_volume(s: PlaybackSession, level: u32) -> PlaybackSession {
    PlaybackSession { volume: clamp_volume(level), ..s }
}

/// A new volume reaches the device only where a handle is held or being opened.
pub open spec fn volume_command(s: PlaybackSession, level: u32) -> Option<AudioCommand> {
    if s.slot == Slot::Idle {
        None
    } else {
        Some(AudioCommand::SetVolume(clamp_volume(level)))
    }
}

impl PlaybackSession {
    /// The volume is in range, and a path is active exactly when the slot is not idle.
    pub open spec fn wf(&self) -> bool {
        &&& self.volume <= MAX_VOLUME
        &&& (self.slot == Slot::Idle <==> self.active_path is None)
    }

    pub fn new() -> (r: PlaybackSession)
        ensures
            r.wf(),
            r.slot == Slot::Idle,
            r.active_path is None,
            r.volume == DEFAULT_VOLUME,
            r.last_error is None,
    {
        PlaybackSession { active_path: None, slot: Slot::Idle, volume: DEFAULT_VOLUME, last_error: None }
    }

    pub fn is_paused(&self) -> (r: bool)
        ensures
            r == (self.slot == Slot::Paused),
    {
        self.slot == Slot::Paused
    }

    /// Starts `path`: releases the handle held, if any, then asks for the new one
    /// at the session's volume. The slot then awaits the outcome of the open.
    pub fn play(&mut self, path: String) -> (cmds: Vec<AudioCommand>)
        ensures
            cmds@ == play_commands(*old(self), path),
            *final(self) == after_play(*old(self), path),
            old(self).wf() ==> final(self).wf(),
            peak_handles(held(old(self).slot), cmds@) <= 1,
            handles_after(held(old(self).slot), cmds@) == held(final(self).slot),
    {
        let mut cmds: Vec<AudioCommand> = Vec::new();
        if self.slot != Slot::Idle {
            cmds.push(AudioCommand::Release);
        }
        cmds.push(AudioCommand::Open(path.clone(), self.volume));
        proof {
            reveal_with_fuel(handles_after, 3);
            reveal_with_fuel(peak_handles, 3);
        }
        self.active_path = Some(path);
        self.slot = Slot::Opening;
        self.last_error = None;
        cmds
    }

    /// Takes the outcome of the open that `play` asked for. On failure the slot is
    /// left idle, with no path and the error kept for display; an outcome that
    /// arrives while no open is awaited changes nothing.
    pub fn open_finished(&mut self, outcome: Result<(), OpenError>)
        ensures
            *final(self) == after_open(*old(self), outcome),
            old(self).wf() ==> final(self).wf(),
            held(final(self).slot) <= held(old(self).slot),
    {
        if self.slot == Slot::Opening {
            match outcome {
                Ok(()) => {
                    self.slot = Slot::Playing;
                },
                Err(e) => {
                    self.active_path = None;
                    self.slot = Slot::Idle;
                    self.last_error = Some(e);
                },
            }
        }
    }

    /// Pauses a playing track or resumes a paused one; otherwise does nothing.
    pub fn toggle_pause(&mut self) -> (cmd: Option<AudioCommand>)
        ensures
            cmd == toggle_command(old(self).slot),
            final(self).slot == toggled(old(self).slot),
            final(self).active_path == old(self).active_path,
            final(self).volume == old(self).volume,
            final(self).last_error == old(self).last_error,
            old(self).wf() ==> final(self).wf(),
    {
        match self.slot {
            Slot::Playing => {
                self.slot = Slot::Paused;
                Some(AudioCommand::Pause)
            },
            Slot::Paused => {
                self.slot = Slot::Playing;
                Some(AudioCommand::Resume)
            },
            _ => None,
        }
    }

    /// Stores the level, clamped to the largest volume, and hands it to the
    /// device where a handle is held or being opened.
    pub fn set_volume(&mut self, level: u32) -> (cmd: Option<AudioCommand>)
        ensures
            cmd == volume_command(*old(self), level),
            *final(self) == after_set_volume(*old(self), level),
            final(self).volume <= MAX_VOLUME,
            old(self).wf() ==> final(self).wf(),
    {
        let v: u16 = if level > MAX_VOLUME as u32 { MAX_VOLUME } else { level as u16 };
        self.volume = v;
        if self.slot == Slot::Idle {
            None
        } else {
            Some(AudioCommand::SetVolume(v))
        }
    }
}

/// Carrying out two command lists one after the other: the handles left are
/// those the second leaves, and the peak is the larger of the two peaks.
pub proof fn lemma_commands_concat(n: int, a: Seq<AudioCommand>, b: Seq<AudioCommand>)
    ensures
        handles_after(n, a + b) == handles_after(handles_after(n, a), b),
        peak_handles(n, a + b) == if peak_handles(n, a) > peak_handles(handles_after(n, a), b) {
            peak_handles(n, a)
        } else {
            peak_handles(handles_after(n, a), b)
        },
    decreases a.len(),
{
    if a.len() == 0 {
        assert(a + b =~= b);
        lemma_peak_at_least_start(n, b);
    } else {
        let m = match a[0] {
            AudioCommand::Release => 0,
            AudioCommand::Open(_, _) => n + 1,
            _ => n,
        };
        assert((a + b).drop_first() =~= a.drop_first() + b);
        lemma_commands_concat(m, a.drop_first(), b);
    }
}

/// The peak is never below the count the device starts with.
pub proof fn lemma_peak_at_least_start(n: int, cmds: Seq<AudioCommand>)
    ensures
        peak_handles(n, cmds) >= n,
    decreases cmds.len(),
{
}

/// The commands of starting each path in turn, from session `s`.
pub open spec fn plays(s: PlaybackSession, paths: Seq<String>) -> Seq<AudioCommand>
    decreases paths.len(),
{
    if paths.len() == 0 {
        Seq::empty()
    } else {
        play_commands(s, paths[0]) + plays(after_play(s, paths[0]), paths.drop_first())
    }
}

/// The session after starting each path in turn.
pub open spec fn after_plays(s: PlaybackSession, paths: Seq<String>) -> PlaybackSession
    decreases paths.len(),
{
    if paths.len() == 0 {
        s
    } else {
        after_plays(after_play(s, paths[0]), paths.drop_first())
    }
}

proof fn lemma_one_play(s: PlaybackSession, path: String)
    ensures
        peak_handles(held(s.slot), play_commands(s, path)) <= 1,
        handles_after(held(s.slot), play_commands(s, path)) == 1,
{
    reveal_with_fuel(handles_after, 3);
    reveal_with_fuel(peak_handles, 3);
}

/// Whatever sequence of tracks is started, the device never holds more than one
/// open handle: each start releases the handle held before it opens the next.
pub proof fn lemma_single_stream(s: PlaybackSession, paths: Seq<String>)
    ensures
        peak_handles(held(s.slot), plays(s, paths)) <= 1,
        handles_after(held(s.slot), plays(s, paths)) == held(after_plays(s, paths).slot),
        held(after_plays(s, paths).slot) <= 1,
    decreases paths.len(),
{
    if paths.len() > 0 {
        let t = after_play(s, paths[0]);
        lemma_one_play(s, paths[0]);
        lemma_single_stream(t, paths.drop_first());
        lemma_commands_concat(held(s.slot), play_commands(s, paths[0]), plays(t, paths.drop_first()));
    }
}

/// Pausing then resuming (or the reverse) gives back the slot state it started
/// from, and neither step opens a file.
pub proof fn lemma_toggle_round_trip(slot: Slot)
    ensures
        toggled(toggled(slot)) == slot,
        !(toggle_command(slot) matches Some(AudioCommand::Open(_, _))),
        !(toggle_command(toggled(slot)) matches Some(AudioCommand::Open(_, _))),
{
}

/// A volume set while nothing plays is kept, and the next track opens at it.
pub proof fn lemma_volume_kept_for_next_play(s: PlaybackSession, level: u32, path: String)
    requires
        s.slot == Slot::Idle,
    ensures
        volume_command(s, level) is None,
        after_set_volume(s, level).volume == clamp_volume(level),
        play_commands(after_set_volume(s, level), path) == seq![AudioCommand::Open(path, clamp_volume(level))],
{
}

} // verus!
