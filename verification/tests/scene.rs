use ratherapia::app::{NoiseTexture, VisualMode};
use ratherapia::raster::Color;
use ratherapia::scene::{
    compact_audio_status, hash_cell, keyboard_labels, mode_color, mouse_contact_y, mouse_rgb,
    particle_color, str_contains,
};

#[test]
fn hash_cell_values() {
    assert_eq!(hash_cell(0, 0, 0), 0);
    assert_eq!(hash_cell(1, 0, 0), 1_670_125_222);
    assert_eq!(hash_cell(3, 17, 11), 1_628_840_100);
    assert_eq!(hash_cell(-5, 121, 19), 1_675_428_275);
    assert_eq!(hash_cell(100, 91, 7), 2_054_705_737);
    assert_eq!(hash_cell(i32::MAX, i32::MIN, i32::MAX), 166_058_865);
}

#[test]
fn hash_cell_matches_wrapping_formula() {
    for x in -40i32..40 {
        for y in [-3i32, 0, 17, 43, 91, 121] {
            for seed in [0i32, 7, 11, 19, 36, -1000] {
                let mut n = x
                    .wrapping_mul(73_856_093)
                    .wrapping_add(y.wrapping_mul(19_349_663))
                    .wrapping_add(seed.wrapping_mul(83_492_791));
                n ^= n >> 13;
                n = n.wrapping_mul(1_274_126_177);
                assert_eq!(hash_cell(x, y, seed), (n ^ (n >> 16)).unsigned_abs());
            }
        }
    }
}

#[test]
fn contact_row_matches_float_curve() {
    for dx in -200i32..=200 {
        for cy in [0, 9, 100] {
            let body = 5.8_f32 - (dx.abs() as f32 * 0.23).min(4.2);
            assert_eq!(mouse_contact_y(dx, cy), cy + body.round() as i32, "dx {dx}");
        }
    }
    assert_eq!(mouse_contact_y(0, 10), 16);
    assert_eq!(mouse_contact_y(5, 10), 15);
    assert_eq!(mouse_contact_y(-13, 10), 13);
    assert_eq!(mouse_contact_y(30, 10), 12);
}

#[test]
fn audio_label() {
    assert_eq!(compact_audio_status("audio: live"), "live");
    assert_eq!(compact_audio_status("audio: silent (no default audio output device found)"), "silent");
    assert_eq!(compact_audio_status("video: rust avi"), "silent");
    assert_eq!(compact_audio_status("deliver"), "live");
    assert_eq!(compact_audio_status(""), "silent");
}

#[test]
fn substring_search() {
    assert!(str_contains("abc", ""));
    assert!(str_contains("abc", "abc"));
    assert!(str_contains("xxlivexx", "live"));
    assert!(!str_contains("liv", "live"));
    assert!(!str_contains("lxive", "live"));
    assert!(str_contains("ünïcödé live", "live"));
}

#[test]
fn particle_colours_cycle() {
    assert_eq!(particle_color(0), Color::Cyan);
    assert_eq!(particle_color(1), Color::LightRed);
    assert_eq!(particle_color(2), Color::Yellow);
    assert_eq!(particle_color(3), Color::Green);
    assert_eq!(particle_color(6), Color::Yellow);
}

#[test]
fn mode_label_colour() {
    assert_eq!(mode_color(VisualMode::TwoD, true), Color::Gray);
    assert_eq!(mode_color(VisualMode::TwoD, false), Color::Gray);
    assert_eq!(mode_color(VisualMode::ThreeD, true), Color::Cyan);
    assert_eq!(mode_color(VisualMode::ThreeD, false), Color::Yellow);
}

#[test]
fn mouse_body_colour() {
    assert_eq!(mouse_rgb(NoiseTexture::Wind), [126, 166, 168]);
    assert_eq!(mouse_rgb(NoiseTexture::Rain), [88, 122, 146]);
    assert_eq!(mouse_rgb(NoiseTexture::Off), [88, 122, 146]);
}

#[test]
fn keyboard_highlights_root_pitch() {
    let labels = keyboard_labels(61);
    assert_eq!(labels.len(), 12);
    let keys: Vec<&str> = labels.iter().map(|l| l.key.as_str()).collect();
    assert_eq!(
        keys,
        vec!["  z  ", "  s  ", "  x  ", "  d  ", "  c  ", "  v  ", "  g  ", "  b  ", "  h  ", "  n  ", "  j  ", "  m  "]
    );
    let notes: Vec<&str> = labels.iter().map(|l| l.note.as_str()).collect();
    assert_eq!(
        notes,
        vec!["  C  ", " C#  ", "  D  ", " D#  ", "  E  ", "  F  ", " F#  ", "  G  ", " G#  ", "  A  ", " A#  ", "  B  "]
    );
    for (i, l) in labels.iter().enumerate() {
        if i == 1 {
            assert_eq!((l.color, l.bold), (Color::Yellow, true));
        } else if [3, 6, 8, 10].contains(&i) {
            assert_eq!((l.color, l.bold), (Color::Gray, false));
        } else {
            assert_eq!((l.color, l.bold), (Color::DarkGray, false));
        }
    }
}

#[test]
fn keyboard_cells_match_centred_format() {
    let keys = [
        ("z", "C"), ("s", "C#"), ("x", "D"), ("d", "D#"), ("c", "E"), ("v", "F"),
        ("g", "F#"), ("b", "G"), ("h", "G#"), ("n", "A"), ("j", "A#"), ("m", "B"),
    ];
    let labels = keyboard_labels(-1);
    for (i, (key, note)) in keys.iter().enumerate() {
        assert_eq!(labels[i].key, format!(" {key:^3} "));
        assert_eq!(labels[i].note, format!(" {note:^3} "));
    }
    // -1 is a B: the pitch class counts upward from C.
    assert!(labels[11].bold);
    assert_eq!(labels.iter().filter(|l| l.bold).count(), 1);
}
