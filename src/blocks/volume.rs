//! The volume source: the table of sink records that the mixer fills, and
//! what clicks ask of the mixer.

use vstd::prelude::*;

use crate::block::{BlockError, BlockState, MouseButton};

verus! {

/// The mixer's volume of silence (PulseAudio's `PA_VOLUME_MUTED`).
pub const VOLUME_MUTED: u32 = 0;

/// The mixer's nominal full volume (PulseAudio's `PA_VOLUME_NORM`).
pub const VOLUME_NORM: u32 = 0x10000;

/// How far one scroll moves the volume: a twentieth of the range.
pub const VOLUME_STEP: u32 = (VOLUME_NORM - VOLUME_MUTED) / 20;

/// The most channels a mixer volume has.
pub const CHANNELS_MAX: u8 = 32;

/// What the mixer last reported of a sink.
#[derive(Debug)]
pub struct VolumeRecord {
    /// The average volume as the mixer prints it.
    pub displayed: String,
    pub channels: u8,
    /// The average volume, held within `[VOLUME_MUTED, VOLUME_NORM]`.
    pub raw: u32,
    pub muted: bool,
}

impl View for VolumeRecord {
    type V = (Seq<char>, u8, u32, bool);

    open spec fn view(&self) -> (Seq<char>, u8, u32, bool) {
        (self.displayed@, self.channels, self.raw, self.muted)
    }
}

/// Whether a record's fields are within the mixer's ranges.
pub open spec fn record_wf(r: (Seq<char>, u8, u32, bool)) -> bool {
    &&& 1 <= r.1 <= CHANNELS_MAX
    &&& VOLUME_MUTED <= r.2 <= VOLUME_NORM
}

impl VolumeRecord {
    /// The record of a sink report: `None` where the channel count is not
    /// one the mixer allows. The mixer can report an average above full
    /// (over 100%); the record keeps the printed text as reported but holds
    /// the scalar that clicks start from at `VOLUME_NORM`, so that every
    /// record stays within `[VOLUME_MUTED, VOLUME_NORM]`.
    pub fn from_sink(displayed: String, channels: u8, average: u32, muted: bool) -> (r: Option<VolumeRecord>)
        ensures
            r is Some <==> 1 <= channels <= CHANNELS_MAX,
            r matches Some(rec) ==> (rec@ == (displayed@, channels, if average > VOLUME_NORM { VOLUME_NORM } else { average }, muted)
                && record_wf(rec@)),
    {
        if channels < 1 || channels > CHANNELS_MAX {
            return None;
        }
        let raw = if average > VOLUME_NORM { VOLUME_NORM } else { average };
        Some(VolumeRecord { displayed, channels, raw, muted })
    }
}

/// An instruction to the mixer.
#[derive(Debug, Copy, Clone, PartialEq, Eq, Structural)]
pub enum MixerCommand {
    SetMute(bool),
    /// Every one of `channels` channels at `volume`.
    SetVolume { channels: u8, volume: u32 },
}

/// The volume after one click of `button`, from `raw`: scrolling moves it by
/// a step, held within `[VOLUME_MUTED, VOLUME_NORM]`; other buttons keep it.
pub open spec fn scrolled_volume(raw: u32, button: MouseButton) -> u32 {
    match button {
        MouseButton::ScrollUp => if raw + VOLUME_STEP > VOLUME_NORM { VOLUME_NORM } else { (raw + VOLUME_STEP) as u32 },
        MouseButton::ScrollDown => if raw < VOLUME_MUTED + VOLUME_STEP { VOLUME_MUTED } else { (raw - VOLUME_STEP) as u32 },
        _ => raw,
    }
}

/// What a click of `button` asks of the mixer: the left button toggles
/// mute, the others set every channel to the new volume.
pub open spec fn spec_click_command(rec: (Seq<char>, u8, u32, bool), button: MouseButton) -> MixerCommand {
    if button == MouseButton::Left {
        MixerCommand::SetMute(!rec.3)
    } else {
        MixerCommand::SetVolume { channels: rec.1, volume: scrolled_volume(rec.2, button) }
    }
}

pub fn click_command(rec: &VolumeRecord, button: MouseButton) -> (r: MixerCommand)
    ensures
        r == spec_click_command(rec@, button),
{
    match button {
        MouseButton::Left => MixerCommand::SetMute(!rec.muted),
        MouseButton::ScrollUp => {
            let v = if rec.raw > VOLUME_NORM - VOLUME_STEP { VOLUME_NORM } else { rec.raw + VOLUME_STEP };
            MixerCommand::SetVolume { channels: rec.channels, volume: v }
        },
        MouseButton::ScrollDown => {
            let v = if rec.raw < VOLUME_MUTED + VOLUME_STEP { VOLUME_MUTED } else { rec.raw - VOLUME_STEP };
            MixerCommand::SetVolume { channels: rec.channels, volume: v }
        },
        _ => MixerCommand::SetVolume { channels: rec.channels, volume: rec.raw },
    }
}

/// The volume after a run of clicks, each applied to the volume the last one left.
pub open spec fn volume_after(raw: u32, buttons: Seq<MouseButton>) -> u32
    decreases buttons.len(),
{
    if buttons.len() == 0 {
        raw
    } else {
        scrolled_volume(volume_after(raw, buttons.drop_last()), buttons.last())
    }
}

/// However the wheel is turned, the volume stays within
/// `[VOLUME_MUTED, VOLUME_NORM]`.
pub proof fn lemma_volume_saturates(raw: u32, buttons: Seq<MouseButton>)
    requires
        VOLUME_MUTED <= raw <= VOLUME_NORM,
    ensures
        VOLUME_MUTED <= volume_after(raw, buttons) <= VOLUME_NORM,
    decreases buttons.len(),
{
    if buttons.len() > 0 {
        lemma_volume_saturates(raw, buttons.drop_last());
    }
}

/// At the ends of the range the wheel moves the volume no further.
pub proof fn lemma_volume_bounds_hold()
    ensures
        scrolled_volume(VOLUME_MUTED, MouseButton::ScrollDown) == VOLUME_MUTED,
        scrolled_volume(VOLUME_NORM, MouseButton::ScrollUp) == VOLUME_NORM,
{
}

/// The state of the mixer connection.
#[derive(Debug, Copy, Clone, PartialEq, Eq, Structural)]
pub enum ContextState {
    Unconnected,
    Connecting,
    Authorizing,
    SettingName,
    Ready,
    Failed,
    Terminated,
}

/// What waiting for the mixer connection should do next.
#[derive(Debug, Copy, Clone, PartialEq, Eq, Structural)]
pub enum ConnectProgress {
    KeepWaiting,
    Ready,
    Failed,
}

/// Ready once the connection is; failed once it failed or ended; else wait.
pub fn connect_progress(state: ContextState) -> (r: ConnectProgress)
    ensures
        r == ConnectProgress::Ready <==> state == ContextState::Ready,
        r == ConnectProgress::Failed <==> (state == ContextState::Failed || state == ContextState::Terminated),
{
    match state {
        ContextState::Ready => ConnectProgress::Ready,
        ContextState::Failed => ConnectProgress::Failed,
        ContextState::Terminated => ConnectProgress::Failed,
        _ => ConnectProgress::KeepWaiting,
    }
}

} // verus!

verus! {

/// The latest record of each sink, shared between the mixer's callbacks and
/// the render loop. It is a list of pairs with distinct sink names, read as a
/// map: Verus proves lookups in a `Vec` but not in a `HashMap` keyed by
/// `String`.
pub struct VolumeTable {
    entries: Vec<(String, VolumeRecord)>,
}

pub open spec fn entry_view(e: (String, VolumeRecord)) -> (Seq<char>, (Seq<char>, u8, u32, bool)) {
    (e.0@, e.1@)
}

impl VolumeTable {
    pub closed spec fn entries_view(&self) -> Seq<(Seq<char>, (Seq<char>, u8, u32, bool))> {
        self.entries@.map_values(|e: (String, VolumeRecord)| entry_view(e))
    }

    /// The record of each sink, by name.
    pub closed spec fn view(&self) -> Map<Seq<char>, (Seq<char>, u8, u32, bool)> {
        let e = self.entries_view();
        Map::new(
            |k: Seq<char>| exists|i: int| 0 <= i < e.len() && (#[trigger] e[i]).0 == k,
            |k: Seq<char>| e[choose|i: int| 0 <= i < e.len() && (#[trigger] e[i]).0 == k].1,
        )
    }

    pub closed spec fn wf(&self) -> bool {
        let e = self.entries_view();
        &&& forall|i: int, j: int| 0 <= i < j < e.len() ==> (#[trigger] e[i]).0 != (#[trigger] e[j]).0
        &&& forall|i: int| 0 <= i < e.len() ==> record_wf((#[trigger] e[i]).1)
    }

    /// No sink reported yet.
    pub fn new() -> (r: Self)
        ensures
            r.wf(),
            r.view() == Map::<Seq<char>, (Seq<char>, u8, u32, bool)>::empty(),
    {
        let r = VolumeTable { entries: Vec::new() };
        assert(r.view() =~= Map::<Seq<char>, (Seq<char>, u8, u32, bool)>::empty());
        r
    }

    fn find(&self, sink: &String) -> (r: Option<usize>)
        requires
            self.wf(),
        ensures
            r is None <==> !self.view().contains_key(sink@),
            r matches Some(i) ==> (i < self.entries_view().len() && self.entries_view()[i as int].0 == sink@),
    {
        let ghost e = self.entries_view();
        let mut i: usize = 0;
        while i < self.entries.len()
            invariant
                i <= self.entries.len(),
                e == self.entries_view(),
                forall|j: int| 0 <= j < i ==> (#[trigger] e[j]).0 != sink@,
            decreases self.entries.len() - i,
        {
            assert(e[i as int] == entry_view(self.entries@[i as int]));
            if self.entries[i].0 == *sink {
                return Some(i);
            }
            i = i + 1;
        }
        None
    }

    /// Keeps `rec` as the latest record of `sink`.
    pub fn record(&mut self, sink: String, rec: VolumeRecord)
        requires
            old(self).wf(),
            record_wf(rec@),
        ensures
            final(self).wf(),
            final(self).view() == old(self).view().insert(sink@, rec@),
    {
        let ghost k = sink@;
        let ghost v = rec@;
        let ghost m = old(self).view().insert(k, v);
        match self.find(&sink) {
            Some(i) => {
                let ghost e0 = self.entries_view();
                self.entries.set(i, (sink, rec));
                let ghost e1 = self.entries_view();
                assert(e1 =~= e0.update(i as int, (k, v)));
                assert forall|key: Seq<char>| #[trigger] self.view().contains_key(key) <==> m.contains_key(key) by {
                    if key != k && m.contains_key(key) {
                        let j = choose|j: int| 0 <= j < e0.len() && (#[trigger] e0[j]).0 == key;
                        assert(e1[j].0 == key);
                    }
                    if self.view().contains_key(key) && key != k {
                        let j = choose|j: int| 0 <= j < e1.len() && (#[trigger] e1[j]).0 == key;
                        assert(e0[j].0 == key);
                    }
                    if key == k {
                        assert(e1[i as int].0 == k);
                    }
                }
                assert forall|key: Seq<char>| #[trigger] m.contains_key(key) implies self.view()[key] == m[key] by {
                    let j1 = choose|j: int| 0 <= j < e1.len() && (#[trigger] e1[j]).0 == key;
                    if key == k {
                        assert(e1[i as int].0 == k);
                        assert(j1 == i);
                    } else {
                        let j0 = choose|j: int| 0 <= j < e0.len() && (#[trigger] e0[j]).0 == key;
                        assert(e1[j0].0 == key);
                        assert(j1 != i);
                        assert(j0 == j1);
                    }
                }
                assert(self.view() =~= m);
            },
            None => {
                let ghost e0 = self.entries_view();
                self.entries.push((sink, rec));
                let ghost e1 = self.entries_view();
                assert(e1 =~= e0.push((k, v)));
                assert forall|key: Seq<char>| #[trigger] self.view().contains_key(key) <==> m.contains_key(key) by {
                    if key != k && m.contains_key(key) {
                        let j = choose|j: int| 0 <= j < e0.len() && (#[trigger] e0[j]).0 == key;
                        assert(e1[j].0 == key);
                    }
                    if self.view().contains_key(key) && key != k {
                        let j = choose|j: int| 0 <= j < e1.len() && (#[trigger] e1[j]).0 == key;
                        assert(e0[j].0 == key);
                    }
                    if key == k {
                        assert(e1[e0.len() as int].0 == k);
                    }
                }
                assert forall|key: Seq<char>| #[trigger] m.contains_key(key) implies self.view()[key] == m[key] by {
                    let j1 = choose|j: int| 0 <= j < e1.len() && (#[trigger] e1[j]).0 == key;
                    if key == k {
                        assert(e1[e0.len() as int].0 == k);
                        assert(j1 == e0.len());
                    } else {
                        let j0 = choose|j: int| 0 <= j < e0.len() && (#[trigger] e0[j]).0 == key;
                        assert(e1[j0].0 == key);
                        assert(j0 == j1);
                    }
                }
                assert(self.view() =~= m);
            },
        }
    }

    /// The latest record of `sink`, if the mixer has reported it.
    pub fn get(&self, sink: &String) -> (r: Option<&VolumeRecord>)
        requires
            self.wf(),
        ensures
            r is None <==> !self.view().contains_key(sink@),
            r matches Some(rec) ==> (rec@ == self.view()[sink@] && record_wf(rec@)),
    {
        match self.find(sink) {
            Some(i) => {
                let ghost e = self.entries_view();
                proof {
                    let j = choose|j: int| 0 <= j < e.len() && (#[trigger] e[j]).0 == sink@;
                    assert(e[i as int].0 == sink@);
                    assert(j == i);
                    assert(e[i as int] == entry_view(self.entries@[i as int]));
                }
                Some(&self.entries[i].1)
            },
            None => None,
        }
    }

    /// The volume source's sample: the printed volume of `sink`, or a
    /// failure until the mixer has reported it.
    pub fn current_state(&self, sink: &String) -> (r: Result<BlockState, BlockError>)
        requires
            self.wf(),
        ensures
            r is Ok <==> self.view().contains_key(sink@),
            r matches Ok(st) ==> st@ == self.view()[sink@].0,
    {
        match self.get(sink) {
            Some(rec) => Ok(BlockState::new(rec.displayed.clone())),
            None => Err(BlockError::new(String::from_str("Unknown volume"))),
        }
    }

    /// What a click on the volume slot of `sink` asks of the mixer; nothing
    /// until the mixer has reported the sink.
    pub fn handle_click(&self, sink: &String, button: MouseButton) -> (r: Option<MixerCommand>)
        requires
            self.wf(),
        ensures
            r is Some <==> self.view().contains_key(sink@),
            r matches Some(c) ==> c == spec_click_command(self.view()[sink@], button),
    {
        match self.get(sink) {
            Some(rec) => Some(click_command(rec, button)),
            None => None,
        }
    }
}

} // verus!
