use vstd::prelude::*;

use crate::app::{spec_texture_color_index, App};
use crate::raster::Color;
use crate::scene::{
    compact_audio_status, contains_seq, mode_color, particle_color, spec_mode_color,
    spec_particle_color, str_contains,
};

verus! {

/// A run of text in one colour, bold or not.
pub struct Styled {
    pub text: String,
    pub color: Color,
    pub bold: bool,
}

impl View for Styled {
    type V = (Seq<char>, Color, bool);

    open spec fn view(&self) -> (Seq<char>, Color, bool) {
        (self.text@, self.color, self.bold)
    }
}

/// A field name: bold dark gray.
pub open spec fn label(t: Seq<char>) -> (Seq<char>, Color, bool) {
    (t, Color::DarkGray, true)
}

/// Spacing and help text: plain dark gray.
pub open spec fn muted(t: Seq<char>) -> (Seq<char>, Color, bool) {
    (t, Color::DarkGray, false)
}

fn styled(text: &str, color: Color, bold: bool) -> (s: Styled)
    ensures
        s@ == (text@, color, bold),
{
    Styled { text: String::from_str(text), color, bold }
}

fn push_label(spans: &mut Vec<Styled>, text: &str)
    ensures
        final(spans)@.map_values(|s: Styled| s@) == old(spans)@.map_values(|s: Styled| s@).push(
            label(text@),
        ),
{
    spans.push(styled(text, Color::DarkGray, true));
    proof {
        assert(spans@.map_values(|s: Styled| s@) =~= old(spans)@.map_values(|s: Styled| s@).push(
            label(text@),
        ));
    }
}

fn push_muted(spans: &mut Vec<Styled>, text: &str)
    ensures
        final(spans)@.map_values(|s: Styled| s@) == old(spans)@.map_values(|s: Styled| s@).push(
            muted(text@),
        ),
{
    spans.push(styled(text, Color::DarkGray, false));
    proof {
        assert(spans@.map_values(|s: Styled| s@) =~= old(spans)@.map_values(|s: Styled| s@).push(
            muted(text@),
        ));
    }
}

fn push_span(spans: &mut Vec<Styled>, span: Styled)
    ensures
        final(spans)@.map_values(|s: Styled| s@) == old(spans)@.map_values(|s: Styled| s@).push(
            span@,
        ),
{
    let ghost v = span@;
    spans.push(span);
    proof {
        assert(spans@.map_values(|s: Styled| s@) =~= old(spans)@.map_values(|s: Styled| s@).push(
            v,
        ));
    }
}

/// The header's status line: the view mode, the weather and the audio status.
pub open spec fn spec_header_spans(app: App, ratty_enabled: bool) -> Seq<(Seq<char>, Color, bool)> {
    seq![
        label("visual "@),
        (app.visual_mode.spec_name(), spec_mode_color(app.visual_mode, ratty_enabled), true),
        muted("  "@),
        label("weather "@),
        (
            app.noise_texture.spec_name(),
            spec_particle_color(spec_texture_color_index(app.noise_texture, app.waveform)),
            true,
        ),
        muted("  "@),
        (app.audio_status@, Color::DarkGray, false),
    ]
}

/// The spans of the header's status line.
pub fn header_spans(app: &App, ratty_enabled: bool) -> (spans: Vec<Styled>)
    ensures
        spans@.map_values(|s: Styled| s@) == spec_header_spans(*app, ratty_enabled),
{
    let mut spans: Vec<Styled> = Vec::new();
    push_label(&mut spans, "visual ");
    push_span(
        &mut spans,
        styled(app.visual_mode.as_str(), mode_color(app.visual_mode, ratty_enabled), true),
    );
    push_muted(&mut spans, "  ");
    push_label(&mut spans, "weather ");
    push_span(
        &mut spans,
        styled(app.noise_texture.as_str(), particle_color(app.texture_color_index()), true),
    );
    push_muted(&mut spans, "  ");
    push_span(&mut spans, styled(app.audio_status.as_str(), Color::DarkGray, false));
    spans
}

/// `n` copies of `c`.
pub open spec fn repeat_char(c: char, n: nat) -> Seq<char> {
    Seq::new(n, |i: int| c)
}

/// A level bar `width` cells wide with its first `filled` cells marked.
pub open spec fn spec_level_bar(filled: nat, width: nat) -> Seq<char> {
    repeat_char('#', filled) + repeat_char('.', (width - filled) as nat)
}

/// A level bar of `#` marks padded with dots to `width` cells.
pub fn level_bar(filled: usize, width: usize) -> (bar: String)
    requires
        filled <= width,
    ensures
        bar@ == spec_level_bar(filled as nat, width as nat),
{
    let mut bar = String::new();
    let mut i: usize = 0;
    while i < width
        invariant
            i <= width,
            filled <= width,
            bar@ == if i <= filled {
                repeat_char('#', i as nat)
            } else {
                repeat_char('#', filled as nat) + repeat_char('.', (i - filled) as nat)
            },
        decreases width - i,
    {
        if i < filled {
            proof {
                reveal_strlit("#");
            }
            bar.append("#");
        } else {
            proof {
                reveal_strlit(".");
            }
            bar.append(".");
        }
        i = i + 1;
    }
    bar
}

/// The footer's status line. `frequency` and `cutoff` are the already
/// formatted pitch and filter values, and `noise_filled` is how many of the
/// eight cells of the noise bar are marked.
pub open spec fn spec_footer_spans(
    app: App,
    frequency: Seq<char>,
    noise_filled: nat,
    cutoff: Seq<char>,
    ratty_enabled: bool,
) -> Seq<(Seq<char>, Color, bool)> {
    let texture_color = spec_particle_color(spec_texture_color_index(app.noise_texture, app.waveform));
    let live = contains_seq(app.audio_status@, "live"@);
    seq![
        label("note "@),
        (app.last_note@ + " "@ + frequency + "hz"@, Color::Yellow, true),
        muted("  "@),
        label("wave "@),
        (app.waveform.spec_name(), spec_particle_color(app.waveform.spec_color_index()), true),
        muted("  "@),
        label("noise "@),
        (app.noise_texture.spec_name(), texture_color, true),
        muted(" "@),
        (spec_level_bar(noise_filled, 8), texture_color, false),
        muted("  "@),
        label("mouse "@),
        (app.visual_mode.spec_name(), spec_mode_color(app.visual_mode, ratty_enabled), true),
        muted("  "@),
        label("gate "@),
        if app.gate_open {
            ("open"@, Color::Green, true)
        } else {
            ("idle"@, Color::DarkGray, false)
        },
        muted("  "@),
        label("cutoff "@),
        (cutoff + "hz"@, Color::Magenta, false),
        muted("  "@),
        label("audio "@),
        if live {
            ("live"@, Color::Green, false)
        } else {
            ("silent"@, Color::DarkGray, false)
        },
    ]
}

/// The spans of the footer's status line.
#[verifier::rlimit(30)]
pub fn footer_spans(
    app: &App,
    frequency: &str,
    noise_filled: usize,
    cutoff: &str,
    ratty_enabled: bool,
) -> (spans: Vec<Styled>)
    requires
        noise_filled <= 8,
    ensures
        spans@.map_values(|s: Styled| s@) == spec_footer_spans(
            *app,
            frequency@,
            noise_filled as nat,
            cutoff@,
            ratty_enabled,
        ),
{
    let texture_color = particle_color(app.texture_color_index());
    let mut spans: Vec<Styled> = Vec::new();
    push_label(&mut spans, "note ");
    let mut note = app.last_note.clone();
    note.append(" ");
    note.append(frequency);
    note.append("hz");
    push_span(&mut spans, Styled { text: note, color: Color::Yellow, bold: true });
    push_muted(&mut spans, "  ");
    push_label(&mut spans, "wave ");
    push_span(
        &mut spans,
        styled(app.waveform.as_str(), particle_color(app.waveform.next_color_index()), true),
    );
    push_muted(&mut spans, "  ");
    push_label(&mut spans, "noise ");
    push_span(&mut spans, styled(app.noise_texture.as_str(), texture_color, true));
    push_muted(&mut spans, " ");
    push_span(
        &mut spans,
        Styled { text: level_bar(noise_filled, 8), color: texture_color, bold: false },
    );
    push_muted(&mut spans, "  ");
    push_label(&mut spans, "mouse ");
    push_span(
        &mut spans,
        styled(app.visual_mode.as_str(), mode_color(app.visual_mode, ratty_enabled), true),
    );
    push_muted(&mut spans, "  ");
    push_label(&mut spans, "gate ");
    if app.gate_open {
        push_span(&mut spans, styled("open", Color::Green, true));
    } else {
        push_span(&mut spans, styled("idle", Color::DarkGray, false));
    }
    push_muted(&mut spans, "  ");
    push_label(&mut spans, "cutoff ");
    let mut cut = String::from_str(cutoff);
    cut.append("hz");
    push_span(&mut spans, Styled { text: cut, color: Color::Magenta, bold: false });
    push_muted(&mut spans, "  ");
    push_label(&mut spans, "audio ");
    let live = str_contains(app.audio_status.as_str(), "live");
    let status = compact_audio_status(app.audio_status.as_str());
    push_span(
        &mut spans,
        Styled {
            text: status,
            color: if live {
                Color::Green
            } else {
                Color::DarkGray
            },
            bold: false,
        },
    );
    proof {
        assert(spans@.map_values(|s: Styled| s@) =~= spec_footer_spans(
            *app,
            frequency@,
            noise_filled as nat,
            cutoff@,
            ratty_enabled,
        ));
    }
    spans
}

/// The scope character for a meter level in tenths: blank, then ever
/// denser marks up to `@` for eight tenths and above.
pub open spec fn spec_scope_char(level: u8) -> char {
    if level == 0 {
        ' '
    } else if level == 1 {
        '.'
    } else if level == 2 {
        ':'
    } else if level == 3 {
        '-'
    } else if level == 4 {
        '='
    } else if level == 5 {
        '+'
    } else if level == 6 {
        '*'
    } else if level == 7 {
        '#'
    } else {
        '@'
    }
}

/// The scope character for a meter level in tenths.
pub fn scope_char(level: u8) -> (c: char)
    ensures
        c == spec_scope_char(level),
{
    match level {
        0 => ' ',
        1 => '.',
        2 => ':',
        3 => '-',
        4 => '=',
        5 => '+',
        6 => '*',
        7 => '#',
        _ => '@',
    }
}

} // verus!
