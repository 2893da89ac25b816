use vstd::prelude::*;

use crate::notes::{midi_to_note_name, note_name};

verus! {

/// The oscillator shapes the synth can play.
#[derive(Clone, Copy, Debug, PartialEq, Eq, Structural)]
pub enum Waveform {
    Sine,
    Square,
    Saw,
    Triangle,
}

impl Waveform {
    pub open spec fn spec_name(self) -> Seq<char> {
        match self {
            Waveform::Sine => "sine"@,
            Waveform::Square => "square"@,
            Waveform::Saw => "saw"@,
            Waveform::Triangle => "triangle"@,
        }
    }

    /// The label shown for this waveform.
    pub fn as_str(self) -> (s: &'static str)
        ensures
            s@ == self.spec_name(),
    {
        match self {
            Waveform::Sine => "sine",
            Waveform::Square => "square",
            Waveform::Saw => "saw",
            Waveform::Triangle => "triangle",
        }
    }

    pub open spec fn spec_color_index(self) -> usize {
        match self {
            Waveform::Sine => 0,
            Waveform::Square => 1,
            Waveform::Saw => 2,
            Waveform::Triangle => 3,
        }
    }

    /// The particle colour slot of this waveform.
    pub fn next_color_index(self) -> (index: usize)
        ensures
            index == self.spec_color_index(),
    {
        match self {
            Waveform::Sine => 0,
            Waveform::Square => 1,
            Waveform::Saw => 2,
            Waveform::Triangle => 3,
        }
    }
}

/// The ambient noise textures.
#[derive(Clone, Copy, Debug, PartialEq, Eq, Structural)]
pub enum NoiseTexture {
    Off,
    White,
    Brown,
    Rain,
    Wind,
}

impl NoiseTexture {
    pub open spec fn spec_name(self) -> Seq<char> {
        match self {
            NoiseTexture::Off => "off"@,
            NoiseTexture::White => "white"@,
            NoiseTexture::Brown => "brown"@,
            NoiseTexture::Rain => "rain"@,
            NoiseTexture::Wind => "wind"@,
        }
    }

    /// The label shown for this texture.
    pub fn as_str(self) -> (s: &'static str)
        ensures
            s@ == self.spec_name(),
    {
        match self {
            NoiseTexture::Off => "off",
            NoiseTexture::White => "white",
            NoiseTexture::Brown => "brown",
            NoiseTexture::Rain => "rain",
            NoiseTexture::Wind => "wind",
        }
    }
}

/// How the centre mouse is shown: as terminal art, or as an inline 3D object.
#[derive(Clone, Copy, Debug, PartialEq, Eq, Structural)]
pub enum VisualMode {
    TwoD,
    ThreeD,
}

impl VisualMode {
    pub open spec fn spec_name(self) -> Seq<char> {
        match self {
            VisualMode::TwoD => "2d"@,
            VisualMode::ThreeD => "3d"@,
        }
    }

    /// The label shown for this mode.
    pub fn as_str(self) -> (s: &'static str)
        ensures
            s@ == self.spec_name(),
    {
        match self {
            VisualMode::TwoD => "2d",
            VisualMode::ThreeD => "3d",
        }
    }
}

/// A request to spawn `count` particles in colour slot `color_index`.
#[derive(Clone, Copy, Debug, PartialEq, Eq, Structural)]
pub struct Burst {
    pub color_index: usize,
    pub count: usize,
}

/// The outside work a control change asks for: pushing the new settings to the
/// audio thread, plucking the note, and a particle burst.
#[derive(Clone, Copy, Debug, PartialEq, Eq, Structural)]
pub struct Effects {
    pub sync_audio: bool,
    pub pluck: bool,
    pub burst: Option<Burst>,
}

/// Lowest and highest playable MIDI notes.
pub const LOWEST_NOTE: i32 = 24;

pub const HIGHEST_NOTE: i32 = 96;

/// `v` clamped to `[lo, hi]`.
pub open spec fn clamp(v: int, lo: int, hi: int) -> int {
    if v < lo {
        lo
    } else if v > hi {
        hi
    } else {
        v
    }
}

/// The other view mode.
pub open spec fn toggled(mode: VisualMode) -> VisualMode {
    match mode {
        VisualMode::TwoD => VisualMode::ThreeD,
        VisualMode::ThreeD => VisualMode::TwoD,
    }
}

/// Switching the view mode twice gives back the mode it started in, and a
/// switch always changes it.
pub proof fn lemma_toggle_visual_mode_twice(mode: VisualMode)
    ensures
        toggled(toggled(mode)) == mode,
        toggled(mode) != mode,
{
}

/// Shifting the pitch by `s` and back by `s` returns to the starting note
/// whenever the first shift stays within the playable range.
pub proof fn lemma_shift_note_undone(root: int, s: int)
    requires
        LOWEST_NOTE <= root <= HIGHEST_NOTE,
        LOWEST_NOTE <= root + s <= HIGHEST_NOTE,
    ensures
        clamp(
            clamp(root + s, LOWEST_NOTE as int, HIGHEST_NOTE as int) - s,
            LOWEST_NOTE as int,
            HIGHEST_NOTE as int,
        ) == root,
{
}

/// The synth's discrete controls: note, octave, waveform, texture, gate and view.
pub struct App {
    pub should_quit: bool,
    pub octave: i32,
    pub root_midi: i32,
    pub waveform: Waveform,
    pub noise_texture: NoiseTexture,
    pub gate_open: bool,
    pub last_note: String,
    pub audio_status: String,
    pub visual_mode: VisualMode,
}

/// The colour slot a texture's burst uses; without a texture it follows the waveform.
pub open spec fn spec_texture_color_index(texture: NoiseTexture, waveform: Waveform) -> usize {
    match texture {
        NoiseTexture::Off => waveform.spec_color_index(),
        NoiseTexture::White => 0,
        NoiseTexture::Brown => 2,
        NoiseTexture::Rain => 3,
        NoiseTexture::Wind => 1,
    }
}

impl App {
    /// The note controls agree: the root note is playable, the octave is the
    /// root's, and the note label names the root.
    pub open spec fn wf(&self) -> bool {
        &&& LOWEST_NOTE <= self.root_midi <= HIGHEST_NOTE
        &&& self.octave == self.root_midi / 12 - 1
        &&& self.last_note@ == note_name(self.root_midi as int)
    }

    /// The fields other than the note controls are unchanged from `other`.
    pub open spec fn same_except_note(&self, other: &App) -> bool {
        &&& self.should_quit == other.should_quit
        &&& self.waveform == other.waveform
        &&& self.noise_texture == other.noise_texture
        &&& self.gate_open == other.gate_open
        &&& self.audio_status@ == other.audio_status@
        &&& self.visual_mode == other.visual_mode
    }

    /// The starting controls: C4 on a sine wave over rain, gate closed, 2D view.
    pub fn new(audio_status: String) -> (app: App)
        ensures
            app.wf(),
            !app.should_quit,
            app.octave == 4,
            app.root_midi == 60,
            app.waveform == Waveform::Sine,
            app.noise_texture == NoiseTexture::Rain,
            !app.gate_open,
            app.last_note@ == seq!['C', '4'],
            app.audio_status@ == audio_status@,
            app.visual_mode == VisualMode::TwoD,
    {
        let last_note = midi_to_note_name(60);
        App {
            should_quit: false,
            octave: 4,
            root_midi: 60,
            waveform: Waveform::Sine,
            noise_texture: NoiseTexture::Rain,
            gate_open: false,
            last_note,
            audio_status,
            visual_mode: VisualMode::TwoD,
        }
    }

    /// The colour slot bursts use for the current texture.
    pub fn texture_color_index(&self) -> (index: usize)
        ensures
            index == spec_texture_color_index(self.noise_texture, self.waveform),
    {
        match self.noise_texture {
            NoiseTexture::Off => self.waveform.next_color_index(),
            NoiseTexture::White => 0,
            NoiseTexture::Brown => 2,
            NoiseTexture::Rain => 3,
            NoiseTexture::Wind => 1,
        }
    }

    /// Flip `gate_open`; opening it bursts 36 particles in the waveform's colour.
    pub fn toggle_gate(&mut self) -> (fx: Effects)
        ensures
            gate_toggled(*old(self), *final(self), fx),
            old(self).wf() ==> final(self).wf(),
    {
        self.gate_open = !self.gate_open;
        let burst = if self.gate_open {
            Some(Burst { color_index: self.waveform.next_color_index(), count: 36 })
        } else {
            None
        };
        Effects { sync_audio: true, pluck: false, burst }
    }

    /// Switch the waveform; bursts 28 particles in its colour.
    pub fn set_waveform(&mut self, waveform: Waveform) -> (fx: Effects)
        ensures
            waveform_set(*old(self), *final(self), waveform, fx),
            old(self).wf() ==> final(self).wf(),
    {
        self.waveform = waveform;
        Effects {
            sync_audio: true,
            pluck: false,
            burst: Some(Burst { color_index: self.waveform.next_color_index(), count: 28 }),
        }
    }

    /// Switch the noise texture; bursts 24 particles in the texture's colour.
    pub fn set_noise_texture(&mut self, noise_texture: NoiseTexture) -> (fx: Effects)
        ensures
            texture_set(*old(self), *final(self), noise_texture, fx),
            old(self).wf() ==> final(self).wf(),
    {
        self.noise_texture = noise_texture;
        Effects {
            sync_audio: true,
            pluck: false,
            burst: Some(Burst { color_index: self.texture_color_index(), count: 24 }),
        }
    }

    /// Play `midi`, clamped to the playable range: sets the root, its octave and its label.
    fn set_midi_note(&mut self, midi: i32)
        ensures
            final(self).root_midi == clamp(midi as int, LOWEST_NOTE as int, HIGHEST_NOTE as int),
            final(self).wf(),
            final(self).same_except_note(old(self)),
    {
        self.root_midi = if midi < LOWEST_NOTE {
            LOWEST_NOTE
        } else if midi > HIGHEST_NOTE {
            HIGHEST_NOTE
        } else {
            midi
        };
        self.octave = self.root_midi / 12 - 1;
        self.last_note = midi_to_note_name(self.root_midi);
    }

    /// Move the root note by `semitones`, staying within the playable range.
    pub fn shift_note(&mut self, semitones: i32) -> (fx: Effects)
        requires
            i32::MIN <= old(self).root_midi + semitones <= i32::MAX,
        ensures
            note_shifted(*old(self), *final(self), semitones, fx),
    {
        let next = self.root_midi + semitones;
        self.set_midi_note(next);
        Effects { sync_audio: true, pluck: false, burst: None }
    }

    /// Play semitone `semitone` of the current octave: sets `gate_open`, plucks,
    /// and bursts 40 particles in the waveform's colour.
    pub fn play_note(&mut self, semitone: i32) -> (fx: Effects)
        requires
            can_play(*old(self), semitone),
        ensures
            note_played(*old(self), *final(self), semitone, fx),
    {
        self.set_midi_note(12 * (self.octave + 1) + semitone);
        self.gate_open = true;
        Effects {
            sync_audio: true,
            pluck: true,
            burst: Some(Burst { color_index: self.waveform.next_color_index(), count: 40 }),
        }
    }

    /// Flip between the 2D and 3D mouse; bursts 26 particles in the texture's colour.
    pub fn toggle_visual_mode(&mut self) -> (fx: Effects)
        ensures
            visual_mode_toggled(*old(self), *final(self), fx),
            old(self).wf() ==> final(self).wf(),
    {
        self.visual_mode = match self.visual_mode {
            VisualMode::TwoD => VisualMode::ThreeD,
            VisualMode::ThreeD => VisualMode::TwoD,
        };
        Effects {
            sync_audio: false,
            pluck: false,
            burst: Some(Burst { color_index: self.texture_color_index(), count: 26 }),
        }
    }

    /// Ask to quit; nothing else changes and no outside work is asked for.
    pub fn quit(&mut self) -> (fx: Effects)
        ensures
            quit_requested(*old(self), *final(self), fx),
            old(self).wf() ==> final(self).wf(),
    {
        self.should_quit = true;
        Effects { sync_audio: false, pluck: false, burst: None }
    }
}

/// The note controls of `b` are those of `a`.
pub open spec fn same_note(a: App, b: App) -> bool {
    &&& b.octave == a.octave
    &&& b.root_midi == a.root_midi
    &&& b.last_note@ == a.last_note@
}

/// `b` is `a` with `gate_open` flipped; opening it bursts 36 particles in the
/// waveform's colour.
pub open spec fn gate_toggled(a: App, b: App, fx: Effects) -> bool {
    &&& b.gate_open == !a.gate_open
    &&& same_note(a, b)
    &&& b.should_quit == a.should_quit
    &&& b.waveform == a.waveform
    &&& b.noise_texture == a.noise_texture
    &&& b.audio_status@ == a.audio_status@
    &&& b.visual_mode == a.visual_mode
    &&& fx == Effects {
        sync_audio: true,
        pluck: false,
        burst: if b.gate_open {
            Some(Burst { color_index: a.waveform.spec_color_index(), count: 36 })
        } else {
            None
        },
    }
}

/// `b` is `a` playing `waveform`, with a burst of 28 particles in its colour.
pub open spec fn waveform_set(a: App, b: App, waveform: Waveform, fx: Effects) -> bool {
    &&& b.waveform == waveform
    &&& same_note(a, b)
    &&& b.gate_open == a.gate_open
    &&& b.should_quit == a.should_quit
    &&& b.noise_texture == a.noise_texture
    &&& b.audio_status@ == a.audio_status@
    &&& b.visual_mode == a.visual_mode
    &&& fx == Effects {
        sync_audio: true,
        pluck: false,
        burst: Some(Burst { color_index: waveform.spec_color_index(), count: 28 }),
    }
}

/// `b` is `a` over texture `texture`, with a burst of 24 particles in the
/// texture's colour.
pub open spec fn texture_set(a: App, b: App, texture: NoiseTexture, fx: Effects) -> bool {
    &&& b.noise_texture == texture
    &&& same_note(a, b)
    &&& b.waveform == a.waveform
    &&& b.gate_open == a.gate_open
    &&& b.should_quit == a.should_quit
    &&& b.audio_status@ == a.audio_status@
    &&& b.visual_mode == a.visual_mode
    &&& fx == Effects {
        sync_audio: true,
        pluck: false,
        burst: Some(
            Burst { color_index: spec_texture_color_index(texture, a.waveform), count: 24 },
        ),
    }
}

/// `b` is `a` with the root note moved by `semitones` and clamped to the
/// playable range, its octave and label to match.
pub open spec fn note_shifted(a: App, b: App, semitones: i32, fx: Effects) -> bool {
    &&& b.root_midi == clamp(a.root_midi + semitones, LOWEST_NOTE as int, HIGHEST_NOTE as int)
    &&& b.wf()
    &&& b.same_except_note(&a)
    &&& fx == Effects { sync_audio: true, pluck: false, burst: None }
}

/// The arithmetic of playing `semitone` in the current octave fits in `i32`.
pub open spec fn can_play(a: App, semitone: i32) -> bool {
    &&& a.octave < i32::MAX
    &&& i32::MIN <= 12 * (a.octave + 1) <= i32::MAX
    &&& i32::MIN <= 12 * (a.octave + 1) + semitone <= i32::MAX
}

/// `b` is `a` playing semitone `semitone` of its octave, clamped to the
/// playable range, with `gate_open` set, a pluck and a burst of 40 particles.
pub open spec fn note_played(a: App, b: App, semitone: i32, fx: Effects) -> bool {
    &&& b.root_midi == clamp(12 * (a.octave + 1) + semitone, LOWEST_NOTE as int, HIGHEST_NOTE as int)
    &&& b.wf()
    &&& b.gate_open
    &&& b.should_quit == a.should_quit
    &&& b.waveform == a.waveform
    &&& b.noise_texture == a.noise_texture
    &&& b.audio_status@ == a.audio_status@
    &&& b.visual_mode == a.visual_mode
    &&& fx == Effects {
        sync_audio: true,
        pluck: true,
        burst: Some(Burst { color_index: a.waveform.spec_color_index(), count: 40 }),
    }
}

/// `b` is `a` showing the other view, with a burst of 26 particles in the
/// texture's colour and no audio change.
pub open spec fn visual_mode_toggled(a: App, b: App, fx: Effects) -> bool {
    &&& b.visual_mode == toggled(a.visual_mode)
    &&& same_note(a, b)
    &&& b.noise_texture == a.noise_texture
    &&& b.waveform == a.waveform
    &&& b.gate_open == a.gate_open
    &&& b.should_quit == a.should_quit
    &&& b.audio_status@ == a.audio_status@
    &&& fx == Effects {
        sync_audio: false,
        pluck: false,
        burst: Some(
            Burst { color_index: spec_texture_color_index(a.noise_texture, a.waveform), count: 26 },
        ),
    }
}

/// `b` is `a` with `should_quit` set, asking for no outside work.
pub open spec fn quit_requested(a: App, b: App, fx: Effects) -> bool {
    &&& b.should_quit
    &&& same_note(a, b)
    &&& b.waveform == a.waveform
    &&& b.noise_texture == a.noise_texture
    &&& b.gate_open == a.gate_open
    &&& b.audio_status@ == a.audio_status@
    &&& b.visual_mode == a.visual_mode
    &&& fx == Effects { sync_audio: false, pluck: false, burst: None }
}

} // verus!
