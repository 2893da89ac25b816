use vstd::prelude::*;

verus! {

/// The decimal digit character for `d` in `0..10`.
pub open spec fn digit_char(d: int) -> char {
    if d == 0 {
        '0'
    } else if d == 1 {
        '1'
    } else if d == 2 {
        '2'
    } else if d == 3 {
        '3'
    } else if d == 4 {
        '4'
    } else if d == 5 {
        '5'
    } else if d == 6 {
        '6'
    } else if d == 7 {
        '7'
    } else if d == 8 {
        '8'
    } else {
        '9'
    }
}

/// The decimal digits of `n`, most significant first, without leading zeros.
pub open spec fn nat_digits(n: nat) -> Seq<char>
    decreases n,
{
    if n < 10 {
        seq![digit_char(n as int)]
    } else {
        nat_digits(n / 10) + seq![digit_char((n % 10) as int)]
    }
}

/// The decimal representation of `n`, with a leading `-` when negative.
pub open spec fn decimal(n: int) -> Seq<char> {
    if n < 0 {
        seq!['-'] + nat_digits((-n) as nat)
    } else {
        nat_digits(n as nat)
    }
}

fn digit_str(d: u32) -> (s: &'static str)
    requires
        d < 10,
    ensures
        s@ == seq![digit_char(d as int)],
{
    proof {
        reveal_strlit("0");
        reveal_strlit("1");
        reveal_strlit("2");
        reveal_strlit("3");
        reveal_strlit("4");
        reveal_strlit("5");
        reveal_strlit("6");
        reveal_strlit("7");
        reveal_strlit("8");
        reveal_strlit("9");
    }
    if d == 0 {
        "0"
    } else if d == 1 {
        "1"
    } else if d == 2 {
        "2"
    } else if d == 3 {
        "3"
    } else if d == 4 {
        "4"
    } else if d == 5 {
        "5"
    } else if d == 6 {
        "6"
    } else if d == 7 {
        "7"
    } else if d == 8 {
        "8"
    } else {
        "9"
    }
}

fn push_digits(s: &mut String, m: u32)
    ensures
        final(s)@ == old(s)@ + nat_digits(m as nat),
    decreases m,
{
    if m >= 10 {
        push_digits(s, m / 10);
    }
    s.append(digit_str(m % 10));
}

/// Append the decimal representation of `n` to `s`.
pub fn push_decimal(s: &mut String, n: i32)
    ensures
        final(s)@ == old(s)@ + decimal(n as int),
{
    if n < 0 {
        proof {
            reveal_strlit("-");
        }
        s.append("-");
        let m = (-(n as i64)) as u32;
        push_digits(s, m);
    } else {
        push_digits(s, n as u32);
    }
}

/// The name of pitch class `i` (0 = C) in sharps.
pub open spec fn pitch_name(i: int) -> Seq<char> {
    if i == 0 {
        seq!['C']
    } else if i == 1 {
        seq!['C', '#']
    } else if i == 2 {
        seq!['D']
    } else if i == 3 {
        seq!['D', '#']
    } else if i == 4 {
        seq!['E']
    } else if i == 5 {
        seq!['F']
    } else if i == 6 {
        seq!['F', '#']
    } else if i == 7 {
        seq!['G']
    } else if i == 8 {
        seq!['G', '#']
    } else if i == 9 {
        seq!['A']
    } else if i == 10 {
        seq!['A', '#']
    } else {
        seq!['B']
    }
}

/// The place of a note letter in the octave from C: C D E F G A B; -1 for
/// any other character.
pub open spec fn letter_rank(c: char) -> int {
    if c == 'C' {
        0
    } else if c == 'D' {
        1
    } else if c == 'E' {
        2
    } else if c == 'F' {
        3
    } else if c == 'G' {
        4
    } else if c == 'A' {
        5
    } else if c == 'B' {
        6
    } else {
        -1
    }
}

/// The black keys of the piano octave, counted in semitones from C.
pub open spec fn black_key(i: int) -> bool {
    i == 1 || i == 3 || i == 6 || i == 8 || i == 10
}

/// The twelve pitch classes have twelve different names. Each name is a note
/// letter, alone on the white keys and followed by `#` on the black keys; a
/// sharp takes the letter of the white key just below it; and the white keys'
/// letters rise through C D E F G A B with the pitch.
pub proof fn lemma_pitch_names(i: int, j: int)
    requires
        0 <= i < 12,
        0 <= j < 12,
    ensures
        i != j ==> pitch_name(i) != pitch_name(j),
        0 <= letter_rank(pitch_name(i)[0]),
        black_key(i) ==> pitch_name(i).len() == 2 && pitch_name(i)[1] == '#',
        !black_key(i) ==> pitch_name(i).len() == 1,
        black_key(i) ==> !black_key(i - 1) && pitch_name(i - 1)[0] == pitch_name(i)[0],
        !black_key(i) && !black_key(j) && i < j ==> letter_rank(pitch_name(i)[0]) < letter_rank(
            pitch_name(j)[0],
        ),
{
    if i != j && pitch_name(i) == pitch_name(j) {
        assert(pitch_name(i)[0] == pitch_name(j)[0]);
        assert(pitch_name(i).len() == pitch_name(j).len());
    }
}

fn pitch_str(i: i32) -> (s: &'static str)
    requires
        0 <= i < 12,
    ensures
        s@ == pitch_name(i as int),
{
    proof {
        reveal_strlit("C");
        reveal_strlit("C#");
        reveal_strlit("D");
        reveal_strlit("D#");
        reveal_strlit("E");
        reveal_strlit("F");
        reveal_strlit("F#");
        reveal_strlit("G");
        reveal_strlit("G#");
        reveal_strlit("A");
        reveal_strlit("A#");
        reveal_strlit("B");
    }
    if i == 0 {
        "C"
    } else if i == 1 {
        "C#"
    } else if i == 2 {
        "D"
    } else if i == 3 {
        "D#"
    } else if i == 4 {
        "E"
    } else if i == 5 {
        "F"
    } else if i == 6 {
        "F#"
    } else if i == 7 {
        "G"
    } else if i == 8 {
        "G#"
    } else if i == 9 {
        "A"
    } else if i == 10 {
        "A#"
    } else {
        "B"
    }
}

/// Integer division rounding toward zero, as Rust's `/` on signed integers.
pub open spec fn div_toward_zero(a: int, d: int) -> int {
    if a >= 0 {
        a / d
    } else {
        -((-a) / d)
    }
}

/// The remainder of `div_toward_zero`, as Rust's `%` on signed integers: it
/// takes the sign of `a`.
pub open spec fn rem_toward_zero(a: int, d: int) -> int {
    a - d * div_toward_zero(a, d)
}

/// The scientific pitch name of a MIDI note: the pitch class (`midi` modulo 12,
/// counted upward from C) followed by the octave `midi / 12 - 1`, where the
/// division rounds toward zero. MIDI 60 is `C4`.
pub open spec fn note_name(midi: int) -> Seq<char> {
    pitch_name(midi % 12) + decimal(div_toward_zero(midi, 12) - 1)
}

/// The scientific pitch name of a MIDI note number, such as `C4` for 60.
pub fn midi_to_note_name(midi: i32) -> (name: String)
    ensures
        name@ == note_name(midi as int),
{
    let pitch = match midi.checked_rem_euclid(12) {
        Some(r) => r,
        None => 0,
    };
    let octave = match midi.checked_div(12) {
        Some(q) => q - 1,
        None => 0,
    };
    let mut name = String::from_str(pitch_str(pitch));
    push_decimal(&mut name, octave);
    name
}

} // verus!
