use ratherapia::app::{App, NoiseTexture, VisualMode, Waveform};
use ratherapia::panel::{footer_spans, header_spans, level_bar, scope_char, Styled};
use ratherapia::raster::Color;

fn plain(spans: Vec<Styled>) -> Vec<(String, Color, bool)> {
    spans.into_iter().map(|s| (s.text, s.color, s.bold)).collect()
}

fn label(t: &str) -> (String, Color, bool) {
    (t.to_string(), Color::DarkGray, true)
}

fn muted(t: &str) -> (String, Color, bool) {
    (t.to_string(), Color::DarkGray, false)
}

#[test]
fn header_line() {
    let app = App::new("audio: live".to_string());
    assert_eq!(
        plain(header_spans(&app, false)),
        vec![
            label("visual "),
            ("2d".to_string(), Color::Gray, true),
            muted("  "),
            label("weather "),
            ("rain".to_string(), Color::Green, true),
            muted("  "),
            ("audio: live".to_string(), Color::DarkGray, false),
        ]
    );
    let mut app = App::new("audio: silent".to_string());
    app.toggle_visual_mode();
    app.set_noise_texture(NoiseTexture::Wind);
    let spans = plain(header_spans(&app, true));
    assert_eq!(spans[1], ("3d".to_string(), Color::Cyan, true));
    assert_eq!(spans[4], ("wind".to_string(), Color::LightRed, true));
    let spans = plain(header_spans(&app, false));
    assert_eq!(spans[1], ("3d".to_string(), Color::Yellow, true));
}

#[test]
fn footer_line_at_start() {
    let app = App::new("audio: live".to_string());
    assert_eq!(
        plain(footer_spans(&app, "261.6", 4, "1800", false)),
        vec![
            label("note "),
            ("C4 261.6hz".to_string(), Color::Yellow, true),
            muted("  "),
            label("wave "),
            ("sine".to_string(), Color::Cyan, true),
            muted("  "),
            label("noise "),
            ("rain".to_string(), Color::Green, true),
            muted(" "),
            ("####....".to_string(), Color::Green, false),
            muted("  "),
            label("mouse "),
            ("2d".to_string(), Color::Gray, true),
            muted("  "),
            label("gate "),
            ("idle".to_string(), Color::DarkGray, false),
            muted("  "),
            label("cutoff "),
            ("1800hz".to_string(), Color::Magenta, false),
            muted("  "),
            label("audio "),
            ("live".to_string(), Color::Green, false),
        ]
    );
}

#[test]
fn footer_line_while_playing() {
    let mut app = App::new("audio: silent (no default audio output device found)".to_string());
    app.set_waveform(Waveform::Square);
    app.set_noise_texture(NoiseTexture::Off);
    app.play_note(9);
    app.toggle_visual_mode();
    assert_eq!(app.visual_mode, VisualMode::ThreeD);
    let spans = plain(footer_spans(&app, "440.0", 0, "120", true));
    assert_eq!(spans[1], ("A4 440.0hz".to_string(), Color::Yellow, true));
    assert_eq!(spans[4], ("square".to_string(), Color::LightRed, true));
    assert_eq!(spans[7], ("off".to_string(), Color::LightRed, true));
    assert_eq!(spans[9], ("........".to_string(), Color::LightRed, false));
    assert_eq!(spans[12], ("3d".to_string(), Color::Cyan, true));
    assert_eq!(spans[15], ("open".to_string(), Color::Green, true));
    assert_eq!(spans[18], ("120hz".to_string(), Color::Magenta, false));
    assert_eq!(spans[21], ("silent".to_string(), Color::DarkGray, false));
    assert_eq!(spans.len(), 22);
}

#[test]
fn level_bars() {
    for width in 0..10usize {
        for filled in 0..=width {
            assert_eq!(level_bar(filled, width), format!("{}{}", "#".repeat(filled), ".".repeat(width - filled)));
        }
    }
}

#[test]
fn scope_marks() {
    let marks: String = (0u8..=9).map(scope_char).collect();
    assert_eq!(marks, " .:-=+*#@@");
    assert_eq!(scope_char(255), '@');
}
