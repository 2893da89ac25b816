use vstd::prelude::*;

use crate::notes::digit_char;
use crate::scene::key_cells;

use crate::app::{
    can_play, gate_toggled, note_played, note_shifted, quit_requested, texture_set,
    visual_mode_toggled, waveform_set, App, Effects, NoiseTexture, Waveform,
};

verus! {

/// A key press, as far as the controls distinguish keys.
#[derive(Clone, Copy, Debug, PartialEq, Eq, Structural)]
pub enum Key {
    Esc,
    Char(char),
    Up,
    Down,
    Left,
    Right,
    Other,
}

/// A change to the synth's controls. Cutoff steps are in hertz; gain and
/// noise steps are in hundredths.
#[derive(Clone, Copy, Debug, PartialEq, Eq, Structural)]
pub enum Command {
    Quit,
    ToggleGate,
    SetWaveform(Waveform),
    SetNoiseTexture(NoiseTexture),
    ToggleVisualMode,
    ShiftNote(i32),
    AdjustCutoff(i32),
    AdjustGain(i32),
    AdjustNoiseAmount(i32),
    PlayNote(i32),
}

/// The semitone a note key plays: the bottom keyboard row from `z` (C) to `m` (B).
pub open spec fn note_key(c: char) -> Option<i32> {
    if c == 'z' {
        Some(0)
    } else if c == 's' {
        Some(1)
    } else if c == 'x' {
        Some(2)
    } else if c == 'd' {
        Some(3)
    } else if c == 'c' {
        Some(4)
    } else if c == 'v' {
        Some(5)
    } else if c == 'g' {
        Some(6)
    } else if c == 'b' {
        Some(7)
    } else if c == 'h' {
        Some(8)
    } else if c == 'n' {
        Some(9)
    } else if c == 'j' {
        Some(10)
    } else if c == 'm' {
        Some(11)
    } else {
        None
    }
}

/// The key bindings.
pub open spec fn key_command(key: Key) -> Option<Command> {
    match key {
        Key::Esc => Some(Command::Quit),
        Key::Up => Some(Command::ShiftNote(1)),
        Key::Down => Some(Command::ShiftNote(-1i32)),
        Key::Right => Some(Command::AdjustCutoff(60)),
        Key::Left => Some(Command::AdjustCutoff(-60i32)),
        Key::Other => None,
        Key::Char(c) => if c == 'q' {
            Some(Command::Quit)
        } else if c == ' ' {
            Some(Command::ToggleGate)
        } else if c == '1' {
            Some(Command::SetWaveform(Waveform::Sine))
        } else if c == '2' {
            Some(Command::SetWaveform(Waveform::Square))
        } else if c == '3' {
            Some(Command::SetWaveform(Waveform::Saw))
        } else if c == '4' {
            Some(Command::SetWaveform(Waveform::Triangle))
        } else if c == '5' {
            Some(Command::SetNoiseTexture(NoiseTexture::Off))
        } else if c == '6' {
            Some(Command::SetNoiseTexture(NoiseTexture::White))
        } else if c == '7' {
            Some(Command::SetNoiseTexture(NoiseTexture::Brown))
        } else if c == '8' {
            Some(Command::SetNoiseTexture(NoiseTexture::Rain))
        } else if c == '9' {
            Some(Command::SetNoiseTexture(NoiseTexture::Wind))
        } else if c == '0' {
            Some(Command::ToggleVisualMode)
        } else if c == '+' || c == '=' {
            Some(Command::AdjustGain(3))
        } else if c == '-' {
            Some(Command::AdjustGain(-3i32))
        } else if c == ']' {
            Some(Command::AdjustNoiseAmount(3))
        } else if c == '[' {
            Some(Command::AdjustNoiseAmount(-3i32))
        } else {
            match note_key(c) {
                Some(semitone) => Some(Command::PlayNote(semitone)),
                None => None,
            }
        },
    }
}

/// The digit keys choose the waveforms in the order sine, square, saw,
/// triangle (their colour slots 0 to 3), so `1`..`4` give four different
/// waveforms; `5`..`9` choose the textures off, white, brown, rain and wind.
pub proof fn lemma_digit_keys(k: int)
    ensures
        0 <= k < 4 ==> (key_command(Key::Char(digit_char(k + 1))) matches Some(
            Command::SetWaveform(w),
        ) && w.spec_color_index() == k),
        0 <= k < 5 ==> (key_command(Key::Char(digit_char(k + 5))) matches Some(
            Command::SetNoiseTexture(t),
        ) && t.spec_name() == seq!["off"@, "white"@, "brown"@, "rain"@, "wind"@][k]),
{
}

/// Each key of the on-screen keyboard plays the semitone it is drawn at:
/// the key shown at place `i` (0 for C) gives `PlayNote(i)`.
pub proof fn lemma_keyboard_keys_play_their_notes(i: int)
    requires
        0 <= i < 12,
    ensures
        key_command(Key::Char(key_cells(i).0[2])) == Some(Command::PlayNote(i as i32)),
{
    reveal_strlit("  z  ");
    reveal_strlit("  s  ");
    reveal_strlit("  x  ");
    reveal_strlit("  d  ");
    reveal_strlit("  c  ");
    reveal_strlit("  v  ");
    reveal_strlit("  g  ");
    reveal_strlit("  b  ");
    reveal_strlit("  h  ");
    reveal_strlit("  n  ");
    reveal_strlit("  j  ");
    reveal_strlit("  m  ");
}

fn note_for_char(c: char) -> (semitone: Option<i32>)
    ensures
        semitone == note_key(c),
{
    match c {
        'z' => Some(0),
        's' => Some(1),
        'x' => Some(2),
        'd' => Some(3),
        'c' => Some(4),
        'v' => Some(5),
        'g' => Some(6),
        'b' => Some(7),
        'h' => Some(8),
        'n' => Some(9),
        'j' => Some(10),
        'm' => Some(11),
        _ => None,
    }
}

/// What a key press does, if anything.
pub fn command_for_key(key: Key) -> (cmd: Option<Command>)
    ensures
        cmd == key_command(key),
{
    match key {
        Key::Esc => Some(Command::Quit),
        Key::Up => Some(Command::ShiftNote(1)),
        Key::Down => Some(Command::ShiftNote(-1)),
        Key::Right => Some(Command::AdjustCutoff(60)),
        Key::Left => Some(Command::AdjustCutoff(-60)),
        Key::Other => None,
        Key::Char(c) => match c {
            'q' => Some(Command::Quit),
            ' ' => Some(Command::ToggleGate),
            '1' => Some(Command::SetWaveform(Waveform::Sine)),
            '2' => Some(Command::SetWaveform(Waveform::Square)),
            '3' => Some(Command::SetWaveform(Waveform::Saw)),
            '4' => Some(Command::SetWaveform(Waveform::Triangle)),
            '5' => Some(Command::SetNoiseTexture(NoiseTexture::Off)),
            '6' => Some(Command::SetNoiseTexture(NoiseTexture::White)),
            '7' => Some(Command::SetNoiseTexture(NoiseTexture::Brown)),
            '8' => Some(Command::SetNoiseTexture(NoiseTexture::Rain)),
            '9' => Some(Command::SetNoiseTexture(NoiseTexture::Wind)),
            '0' => Some(Command::ToggleVisualMode),
            '+' | '=' => Some(Command::AdjustGain(3)),
            '-' => Some(Command::AdjustGain(-3)),
            ']' => Some(Command::AdjustNoiseAmount(3)),
            '[' => Some(Command::AdjustNoiseAmount(-3)),
            _ => match note_for_char(c) {
                Some(semitone) => Some(Command::PlayNote(semitone)),
                None => None,
            },
        },
    }
}

/// What carrying out a command leaves to the caller: the outside work of a
/// control change, or a step of one of the continuous levels the caller keeps
/// (cutoff in hertz, gain and noise level in hundredths).
#[derive(Clone, Copy, Debug, PartialEq, Eq, Structural)]
pub enum Outcome {
    Changed(Effects),
    AdjustCutoff(i32),
    AdjustGain(i32),
    AdjustNoiseAmount(i32),
}

/// The inputs on which `command` can be carried out without leaving `i32`.
pub open spec fn command_fits(app: App, command: Command) -> bool {
    match command {
        Command::ShiftNote(s) => i32::MIN <= app.root_midi + s <= i32::MAX,
        Command::PlayNote(s) => can_play(app, s),
        _ => true,
    }
}

/// What carrying out `command` does to the controls `a`, giving `b` and `out`.
pub open spec fn command_applied(a: App, b: App, command: Command, out: Outcome) -> bool {
    match command {
        Command::Quit => out matches Outcome::Changed(fx) && quit_requested(a, b, fx),
        Command::ToggleGate => out matches Outcome::Changed(fx) && gate_toggled(a, b, fx),
        Command::SetWaveform(w) => out matches Outcome::Changed(fx) && waveform_set(a, b, w, fx),
        Command::SetNoiseTexture(t) => out matches Outcome::Changed(fx) && texture_set(a, b, t, fx),
        Command::ToggleVisualMode => out matches Outcome::Changed(fx) && visual_mode_toggled(
            a,
            b,
            fx,
        ),
        Command::ShiftNote(s) => out matches Outcome::Changed(fx) && note_shifted(a, b, s, fx),
        Command::PlayNote(s) => out matches Outcome::Changed(fx) && note_played(a, b, s, fx),
        Command::AdjustCutoff(hz) => b == a && out == Outcome::AdjustCutoff(hz),
        Command::AdjustGain(h) => b == a && out == Outcome::AdjustGain(h),
        Command::AdjustNoiseAmount(h) => b == a && out == Outcome::AdjustNoiseAmount(h),
    }
}

/// Carry out `command` on the controls.
pub fn apply_command(app: &mut App, command: Command) -> (out: Outcome)
    requires
        command_fits(*old(app), command),
    ensures
        command_applied(*old(app), *final(app), command, out),
        old(app).wf() ==> final(app).wf(),
{
    match command {
        Command::Quit => Outcome::Changed(app.quit()),
        Command::ToggleGate => Outcome::Changed(app.toggle_gate()),
        Command::SetWaveform(w) => Outcome::Changed(app.set_waveform(w)),
        Command::SetNoiseTexture(t) => Outcome::Changed(app.set_noise_texture(t)),
        Command::ToggleVisualMode => Outcome::Changed(app.toggle_visual_mode()),
        Command::ShiftNote(s) => Outcome::Changed(app.shift_note(s)),
        Command::PlayNote(s) => Outcome::Changed(app.play_note(s)),
        Command::AdjustCutoff(hz) => Outcome::AdjustCutoff(hz),
        Command::AdjustGain(h) => Outcome::AdjustGain(h),
        Command::AdjustNoiseAmount(h) => Outcome::AdjustNoiseAmount(h),
    }
}

/// Where the demo video is written when the first argument asks for one.
pub open spec fn spec_video_output(args: Seq<Seq<char>>) -> Option<Seq<char>> {
    if args.len() > 0 && args[0] == "render-video"@ {
        Some(
            if args.len() > 1 {
                args[1]
            } else {
                "renders/ratherapia.avi"@
            },
        )
    } else {
        None
    }
}

/// The output path of the demo video, when the arguments (after the program
/// name) start with `render-video`; the path defaults to `renders/ratherapia.avi`.
pub fn video_output(args: &Vec<String>) -> (out: Option<String>)
    ensures
        out is Some <==> spec_video_output(args@.map_values(|a: String| a@)) is Some,
        out matches Some(path) ==> Some(path@) == spec_video_output(
            args@.map_values(|a: String| a@),
        ),
{
    let keyword = String::from_str("render-video");
    if args.len() > 0 && args[0] == keyword {
        if args.len() > 1 {
            Some(args[1].clone())
        } else {
            Some(String::from_str("renders/ratherapia.avi"))
        }
    } else {
        None
    }
}

/// The scripted control changes of the demo video at frame `frame`.
pub open spec fn spec_timeline_commands(frame: u32) -> Seq<Command> {
    if frame == 0 {
        seq![Command::SetWaveform(Waveform::Sine), Command::PlayNote(0)]
    } else if frame == 34 {
        seq![Command::PlayNote(4)]
    } else if frame == 60 {
        seq![
            Command::SetWaveform(Waveform::Square),
            Command::SetNoiseTexture(NoiseTexture::White),
            Command::PlayNote(7),
        ]
    } else if frame == 92 {
        seq![Command::PlayNote(11)]
    } else if frame == 120 {
        seq![
            Command::SetWaveform(Waveform::Saw),
            Command::SetNoiseTexture(NoiseTexture::Rain),
            Command::AdjustCutoff(1500),
            Command::PlayNote(2),
        ]
    } else if frame == 150 {
        seq![
            Command::SetWaveform(Waveform::Triangle),
            Command::SetNoiseTexture(NoiseTexture::Wind),
            Command::AdjustGain(12),
            Command::PlayNote(9),
        ]
    } else {
        seq![]
    }
}

/// The command a key press gives (keys without one give `Quit`, which no
/// key of the demo is).
pub open spec fn pressed(c: char) -> Command {
    match key_command(Key::Char(c)) {
        Some(cmd) => cmd,
        None => Command::Quit,
    }
}

/// The demo plays as if keys were pressed: `1` and `z` at the start, `c` at
/// frame 34, `2`, `6` and `b` at frame 60, `m` at frame 92, `3`, `8` and `x`
/// at frame 120 with the cutoff raised by 1500 Hz before the note, and `4`,
/// `9` and `n` at frame 150 with the gain raised by twelve hundredths before
/// the note. No other frame changes the controls.
pub proof fn lemma_timeline_is_key_presses(frame: u32)
    ensures
        spec_timeline_commands(frame) == if frame == 0 {
            seq![pressed('1'), pressed('z')]
        } else if frame == 34 {
            seq![pressed('c')]
        } else if frame == 60 {
            seq![pressed('2'), pressed('6'), pressed('b')]
        } else if frame == 92 {
            seq![pressed('m')]
        } else if frame == 120 {
            seq![pressed('3'), pressed('8'), Command::AdjustCutoff(1500), pressed('x')]
        } else if frame == 150 {
            seq![pressed('4'), pressed('9'), Command::AdjustGain(12), pressed('n')]
        } else {
            seq![]
        },
{
}

/// The scripted control changes of the demo video at frame `frame`, in order.
pub fn timeline_commands(frame: u32) -> (cmds: Vec<Command>)
    ensures
        cmds@ == spec_timeline_commands(frame),
{
    let mut cmds: Vec<Command> = Vec::new();
    if frame == 0 {
        cmds.push(Command::SetWaveform(Waveform::Sine));
        cmds.push(Command::PlayNote(0));
    } else if frame == 34 {
        cmds.push(Command::PlayNote(4));
    } else if frame == 60 {
        cmds.push(Command::SetWaveform(Waveform::Square));
        cmds.push(Command::SetNoiseTexture(NoiseTexture::White));
        cmds.push(Command::PlayNote(7));
    } else if frame == 92 {
        cmds.push(Command::PlayNote(11));
    } else if frame == 120 {
        cmds.push(Command::SetWaveform(Waveform::Saw));
        cmds.push(Command::SetNoiseTexture(NoiseTexture::Rain));
        cmds.push(Command::AdjustCutoff(1500));
        cmds.push(Command::PlayNote(2));
    } else if frame == 150 {
        cmds.push(Command::SetWaveform(Waveform::Triangle));
        cmds.push(Command::SetNoiseTexture(NoiseTexture::Wind));
        cmds.push(Command::AdjustGain(12));
        cmds.push(Command::PlayNote(9));
    }
    cmds
}

/// In the demo `gate_open` holds for three half-second beats out of every four.
pub fn timeline_gate_open(frame: u32) -> (open: bool)
    ensures
        open == ((frame / 15) % 4 != 3),
{
    (frame / 15) % 4 != 3
}

} // verus!
