use ratherapia::app::{App, Burst, Effects, NoiseTexture, VisualMode, Waveform};
use ratherapia::input::{apply_command, command_for_key, timeline_commands, timeline_gate_open, video_output, Command, Key, Outcome};
use ratherapia::notes::{midi_to_note_name, push_decimal};

#[test]
fn waveform_labels() {
    assert_eq!(Waveform::Sine.as_str(), "sine");
    assert_eq!(Waveform::Square.as_str(), "square");
    assert_eq!(Waveform::Saw.as_str(), "saw");
    assert_eq!(Waveform::Triangle.as_str(), "triangle");
}

#[test]
fn waveform_color_slots() {
    assert_eq!(Waveform::Sine.next_color_index(), 0);
    assert_eq!(Waveform::Square.next_color_index(), 1);
    assert_eq!(Waveform::Saw.next_color_index(), 2);
    assert_eq!(Waveform::Triangle.next_color_index(), 3);
}

#[test]
fn texture_and_mode_labels() {
    assert_eq!(NoiseTexture::Off.as_str(), "off");
    assert_eq!(NoiseTexture::White.as_str(), "white");
    assert_eq!(NoiseTexture::Brown.as_str(), "brown");
    assert_eq!(NoiseTexture::Rain.as_str(), "rain");
    assert_eq!(NoiseTexture::Wind.as_str(), "wind");
    assert_eq!(VisualMode::TwoD.as_str(), "2d");
    assert_eq!(VisualMode::ThreeD.as_str(), "3d");
}

#[test]
fn note_names() {
    assert_eq!(midi_to_note_name(60), "C4");
    assert_eq!(midi_to_note_name(61), "C#4");
    assert_eq!(midi_to_note_name(69), "A4");
    assert_eq!(midi_to_note_name(24), "C1");
    assert_eq!(midi_to_note_name(96), "C7");
    assert_eq!(midi_to_note_name(0), "C-1");
    assert_eq!(midi_to_note_name(127), "G9");
    // Below zero the pitch class wraps upward from C while the octave
    // division rounds toward zero.
    assert_eq!(midi_to_note_name(-1), "B-1");
    assert_eq!(midi_to_note_name(-13), "B-2");
}

#[test]
fn decimal_digits() {
    let mut s = String::from("n=");
    push_decimal(&mut s, -42);
    assert_eq!(s, "n=-42");
    let mut s = String::new();
    push_decimal(&mut s, 0);
    assert_eq!(s, "0");
    let mut s = String::new();
    push_decimal(&mut s, i32::MIN);
    assert_eq!(s, "-2147483648");
    let mut s = String::new();
    push_decimal(&mut s, i32::MAX);
    assert_eq!(s, "2147483647");
}

fn fresh() -> App {
    App::new("audio: live".to_string())
}

#[test]
fn app_starts_on_middle_c() {
    let app = fresh();
    assert!(!app.should_quit);
    assert_eq!(app.octave, 4);
    assert_eq!(app.root_midi, 60);
    assert_eq!(app.waveform, Waveform::Sine);
    assert_eq!(app.noise_texture, NoiseTexture::Rain);
    assert!(!app.gate_open);
    assert_eq!(app.last_note, "C4");
    assert_eq!(app.audio_status, "audio: live");
    assert_eq!(app.visual_mode, VisualMode::TwoD);
}

#[test]
fn gate_toggles_and_bursts_when_opening() {
    let mut app = fresh();
    app.set_waveform(Waveform::Saw);
    let fx = app.toggle_gate();
    assert!(app.gate_open);
    assert_eq!(
        fx,
        Effects { sync_audio: true, pluck: false, burst: Some(Burst { color_index: 2, count: 36 }) }
    );
    let fx = app.toggle_gate();
    assert!(!app.gate_open);
    assert_eq!(fx, Effects { sync_audio: true, pluck: false, burst: None });
}

#[test]
fn waveform_switch_bursts_in_its_colour() {
    let mut app = fresh();
    let fx = app.set_waveform(Waveform::Triangle);
    assert_eq!(app.waveform, Waveform::Triangle);
    assert_eq!(fx.burst, Some(Burst { color_index: 3, count: 28 }));
    assert!(fx.sync_audio);
    assert!(!fx.pluck);
}

#[test]
fn texture_switch_uses_texture_colour() {
    let mut app = fresh();
    app.set_waveform(Waveform::Square);
    let cases = [
        (NoiseTexture::White, 0),
        (NoiseTexture::Brown, 2),
        (NoiseTexture::Rain, 3),
        (NoiseTexture::Wind, 1),
        // Without a texture the colour follows the waveform.
        (NoiseTexture::Off, 1),
    ];
    for (texture, slot) in cases {
        let fx = app.set_noise_texture(texture);
        assert_eq!(app.noise_texture, texture);
        assert_eq!(app.texture_color_index(), slot);
        assert_eq!(fx.burst, Some(Burst { color_index: slot, count: 24 }));
    }
}

#[test]
fn shift_note_moves_and_clamps() {
    let mut app = fresh();
    let fx = app.shift_note(1);
    assert_eq!(fx, Effects { sync_audio: true, pluck: false, burst: None });
    assert_eq!(app.root_midi, 61);
    assert_eq!(app.last_note, "C#4");
    assert_eq!(app.octave, 4);
    app.shift_note(-1);
    app.shift_note(-1);
    assert_eq!(app.root_midi, 59);
    assert_eq!(app.octave, 3);
    assert_eq!(app.last_note, "B3");
    app.shift_note(100);
    assert_eq!(app.root_midi, 96);
    assert_eq!(app.last_note, "C7");
    assert_eq!(app.octave, 7);
    app.shift_note(-1000);
    assert_eq!(app.root_midi, 24);
    assert_eq!(app.last_note, "C1");
    assert_eq!(app.octave, 1);
}

#[test]
fn play_note_in_current_octave() {
    let mut app = fresh();
    let fx = app.play_note(4);
    assert_eq!(app.root_midi, 64);
    assert_eq!(app.last_note, "E4");
    assert!(app.gate_open);
    assert_eq!(
        fx,
        Effects { sync_audio: true, pluck: true, burst: Some(Burst { color_index: 0, count: 40 }) }
    );
    app.play_note(11);
    assert_eq!(app.root_midi, 71);
    assert_eq!(app.last_note, "B4");
}

#[test]
fn play_note_clamps_at_top() {
    let mut app = fresh();
    app.shift_note(36);
    assert_eq!(app.root_midi, 96);
    app.play_note(11);
    // 12 * (7 + 1) + 11 = 107 is above the range.
    assert_eq!(app.root_midi, 96);
    assert_eq!(app.octave, 7);
    assert_eq!(app.last_note, "C7");
}

#[test]
fn visual_mode_toggles_back() {
    let mut app = fresh();
    let fx = app.toggle_visual_mode();
    assert_eq!(app.visual_mode, VisualMode::ThreeD);
    assert_eq!(fx, Effects { sync_audio: false, pluck: false, burst: Some(Burst { color_index: 3, count: 26 }) });
    app.toggle_visual_mode();
    assert_eq!(app.visual_mode, VisualMode::TwoD);
}

#[test]
fn controls_keep_notes_consistent() {
    let mut app = fresh();
    let steps: [i32; 6] = [5, -17, 40, -3, 9, -80];
    for s in steps {
        app.shift_note(s);
        assert!(24 <= app.root_midi && app.root_midi <= 96);
        assert_eq!(app.octave, app.root_midi / 12 - 1);
        assert_eq!(app.last_note, midi_to_note_name(app.root_midi));
        app.play_note((s.rem_euclid(12)) as i32);
        assert!(24 <= app.root_midi && app.root_midi <= 96);
        assert_eq!(app.octave, app.root_midi / 12 - 1);
        assert_eq!(app.last_note, midi_to_note_name(app.root_midi));
    }
}

#[test]
fn key_bindings() {
    assert_eq!(command_for_key(Key::Esc), Some(Command::Quit));
    assert_eq!(command_for_key(Key::Char('q')), Some(Command::Quit));
    assert_eq!(command_for_key(Key::Char(' ')), Some(Command::ToggleGate));
    assert_eq!(command_for_key(Key::Char('1')), Some(Command::SetWaveform(Waveform::Sine)));
    assert_eq!(command_for_key(Key::Char('4')), Some(Command::SetWaveform(Waveform::Triangle)));
    assert_eq!(command_for_key(Key::Char('5')), Some(Command::SetNoiseTexture(NoiseTexture::Off)));
    assert_eq!(command_for_key(Key::Char('9')), Some(Command::SetNoiseTexture(NoiseTexture::Wind)));
    assert_eq!(command_for_key(Key::Char('0')), Some(Command::ToggleVisualMode));
    assert_eq!(command_for_key(Key::Up), Some(Command::ShiftNote(1)));
    assert_eq!(command_for_key(Key::Down), Some(Command::ShiftNote(-1)));
    assert_eq!(command_for_key(Key::Right), Some(Command::AdjustCutoff(60)));
    assert_eq!(command_for_key(Key::Left), Some(Command::AdjustCutoff(-60)));
    assert_eq!(command_for_key(Key::Char('+')), Some(Command::AdjustGain(3)));
    assert_eq!(command_for_key(Key::Char('=')), Some(Command::AdjustGain(3)));
    assert_eq!(command_for_key(Key::Char('-')), Some(Command::AdjustGain(-3)));
    assert_eq!(command_for_key(Key::Char(']')), Some(Command::AdjustNoiseAmount(3)));
    assert_eq!(command_for_key(Key::Char('[')), Some(Command::AdjustNoiseAmount(-3)));
    assert_eq!(command_for_key(Key::Char('a')), None);
    assert_eq!(command_for_key(Key::Other), None);
}

#[test]
fn note_keys_cover_the_octave() {
    let keys = ['z', 's', 'x', 'd', 'c', 'v', 'g', 'b', 'h', 'n', 'j', 'm'];
    for (semitone, key) in keys.iter().enumerate() {
        assert_eq!(command_for_key(Key::Char(*key)), Some(Command::PlayNote(semitone as i32)));
    }
}

#[test]
fn video_output_argument() {
    let args = |v: &[&str]| v.iter().map(|s| s.to_string()).collect::<Vec<String>>();
    assert_eq!(video_output(&args(&[])), None);
    assert_eq!(video_output(&args(&["--ratty"])), None);
    assert_eq!(
        video_output(&args(&["render-video"])),
        Some("renders/ratherapia.avi".to_string())
    );
    assert_eq!(
        video_output(&args(&["render-video", "out/demo.avi"])),
        Some("out/demo.avi".to_string())
    );
    assert_eq!(video_output(&args(&["x", "render-video"])), None);
}

#[test]
fn demo_timeline() {
    assert_eq!(
        timeline_commands(0),
        vec![Command::SetWaveform(Waveform::Sine), Command::PlayNote(0)]
    );
    assert_eq!(timeline_commands(34), vec![Command::PlayNote(4)]);
    assert_eq!(
        timeline_commands(120),
        vec![
            Command::SetWaveform(Waveform::Saw),
            Command::SetNoiseTexture(NoiseTexture::Rain),
            Command::AdjustCutoff(1500),
            Command::PlayNote(2),
        ]
    );
    assert_eq!(
        timeline_commands(150),
        vec![
            Command::SetWaveform(Waveform::Triangle),
            Command::SetNoiseTexture(NoiseTexture::Wind),
            Command::AdjustGain(12),
            Command::PlayNote(9),
        ]
    );
    assert!(timeline_commands(1).is_empty());
    assert!(timeline_commands(179).is_empty());
    assert!(timeline_gate_open(0));
    assert!(timeline_gate_open(44));
    assert!(!timeline_gate_open(45));
    assert!(!timeline_gate_open(59));
    assert!(timeline_gate_open(60));
    assert!(!timeline_gate_open(179));
}

#[test]
fn shifting_back_restores_the_note() {
    let mut app = fresh();
    for s in [5, -12, 36, -36, 0] {
        let before = app.root_midi;
        app.shift_note(s);
        app.shift_note(-s);
        assert_eq!(app.root_midi, before);
        assert_eq!(app.last_note, midi_to_note_name(before));
    }
    // Past the top the shift is clamped, so shifting back lands lower.
    app.shift_note(40);
    app.shift_note(-40);
    assert_eq!(app.root_midi, 56);
}

#[test]
fn commands_change_the_controls() {
    let mut app = fresh();
    assert_eq!(
        apply_command(&mut app, Command::Quit),
        Outcome::Changed(Effects { sync_audio: false, pluck: false, burst: None })
    );
    assert!(app.should_quit);
    assert_eq!(app.root_midi, 60);
    let mut app = fresh();
    assert_eq!(
        apply_command(&mut app, Command::ToggleGate),
        Outcome::Changed(Effects { sync_audio: true, pluck: false, burst: Some(Burst { color_index: 0, count: 36 }) })
    );
    assert!(app.gate_open);
    assert_eq!(apply_command(&mut app, Command::AdjustGain(3)), Outcome::AdjustGain(3));
    assert_eq!(apply_command(&mut app, Command::AdjustNoiseAmount(-3)), Outcome::AdjustNoiseAmount(-3));
    assert_eq!(apply_command(&mut app, Command::AdjustCutoff(60)), Outcome::AdjustCutoff(60));
    assert!(app.gate_open && !app.should_quit && app.root_midi == 60);
    let fx = apply_command(&mut app, Command::PlayNote(7));
    assert_eq!(app.last_note, "G4");
    assert_eq!(fx, Outcome::Changed(Effects { sync_audio: true, pluck: true, burst: Some(Burst { color_index: 0, count: 40 }) }));
    apply_command(&mut app, Command::ShiftNote(-1));
    assert_eq!(app.last_note, "F#4");
    apply_command(&mut app, Command::SetWaveform(Waveform::Saw));
    apply_command(&mut app, Command::SetNoiseTexture(NoiseTexture::Brown));
    apply_command(&mut app, Command::ToggleVisualMode);
    assert_eq!((app.waveform, app.noise_texture, app.visual_mode), (Waveform::Saw, NoiseTexture::Brown, VisualMode::ThreeD));
}
