//! The chromatic pitch table: 108 semitones spanning octaves 0 through 8,
//! each with the frequency the tone sink expects, plus parsing and
//! rendering of textual note names such as "C#3".

use vstd::prelude::*;

verus! {

/// Number of entries in the pitch table.
pub const NOTE_COUNT: usize = 108;

/// Index of C3, the pitch a fresh note starts at.
pub const NOTE_C3_INDEX: usize = 36;

pub const NOTES_PER_OCTAVE: u32 = 12;

/// Frequency, in hertz, of the pitch-table entry `i` (the table's last
/// entry answers for every index past its end).
pub open spec fn spec_note_freq(i: int) -> u16 {
    if i == 0 {
        16
    } else
    if i == 1 {
        17
    } else
    if i == 2 {
        18
    } else
    if i == 3 {
        19
    } else
    if i == 4 {
        21
    } else
    if i == 5 {
        22
    } else
    if i == 6 {
        23
    } else
    if i == 7 {
        25
    } else
    if i == 8 {
        26
    } else
    if i == 9 {
        28
    } else
    if i == 10 {
        29
    } else
    if i == 11 {
        31
    } else
    if i == 12 {
        33
    } else
    if i == 13 {
        35
    } else
    if i == 14 {
        37
    } else
    if i == 15 {
        39
    } else
    if i == 16 {
        41
    } else
    if i == 17 {
        44
    } else
    if i == 18 {
        46
    } else
    if i == 19 {
        49
    } else
    if i == 20 {
        52
    } else
    if i == 21 {
        55
    } else
    if i == 22 {
        58
    } else
    if i == 23 {
        62
    } else
    if i == 24 {
        65
    } else
    if i == 25 {
        69
    } else
    if i == 26 {
        73
    } else
    if i == 27 {
        78
    } else
    if i == 28 {
        82
    } else
    if i == 29 {
        87
    } else
    if i == 30 {
        93
    } else
    if i == 31 {
        98
    } else
    if i == 32 {
        104
    } else
    if i == 33 {
        110
    } else
    if i == 34 {
        117
    } else
    if i == 35 {
        123
    } else
    if i == 36 {
        131
    } else
    if i == 37 {
        139
    } else
    if i == 38 {
        147
    } else
    if i == 39 {
        156
    } else
    if i == 40 {
        165
    } else
    if i == 41 {
        175
    } else
    if i == 42 {
        185
    } else
    if i == 43 {
        196
    } else
    if i == 44 {
        208
    } else
    if i == 45 {
        220
    } else
    if i == 46 {
        233
    } else
    if i == 47 {
        247
    } else
    if i == 48 {
        262
    } else
    if i == 49 {
        277
    } else
    if i == 50 {
        294
    } else
    if i == 51 {
        311
    } else
    if i == 52 {
        330
    } else
    if i == 53 {
        349
    } else
    if i == 54 {
        370
    } else
    if i == 55 {
        392
    } else
    if i == 56 {
        415
    } else
    if i == 57 {
        440
    } else
    if i == 58 {
        466
    } else
    if i == 59 {
        494
    } else
    if i == 60 {
        523
    } else
    if i == 61 {
        554
    } else
    if i == 62 {
        587
    } else
    if i == 63 {
        622
    } else
    if i == 64 {
        659
    } else
    if i == 65 {
        698
    } else
    if i == 66 {
        740
    } else
    if i == 67 {
        784
    } else
    if i == 68 {
        831
    } else
    if i == 69 {
        880
    } else
    if i == 70 {
        932
    } else
    if i == 71 {
        988
    } else
    if i == 72 {
        1047
    } else
    if i == 73 {
        1109
    } else
    if i == 74 {
        1175
    } else
    if i == 75 {
        1245
    } else
    if i == 76 {
        1319
    } else
    if i == 77 {
        1397
    } else
    if i == 78 {
        1480
    } else
    if i == 79 {
        1568
    } else
    if i == 80 {
        1661
    } else
    if i == 81 {
        1760
    } else
    if i == 82 {
        1865
    } else
    if i == 83 {
        1976
    } else
    if i == 84 {
        2093
    } else
    if i == 85 {
        2217
    } else
    if i == 86 {
        2349
    } else
    if i == 87 {
        2489
    } else
    if i == 88 {
        2637
    } else
    if i == 89 {
        2794
    } else
    if i == 90 {
        2960
    } else
    if i == 91 {
        3136
    } else
    if i == 92 {
        3322
    } else
    if i == 93 {
        3520
    } else
    if i == 94 {
        3729
    } else
    if i == 95 {
        3951
    } else
    if i == 96 {
        4186
    } else
    if i == 97 {
        4435
    } else
    if i == 98 {
        4699
    } else
    if i == 99 {
        4978
    } else
    if i == 100 {
        5274
    } else
    if i == 101 {
        5588
    } else
    if i == 102 {
        5920
    } else
    if i == 103 {
        6272
    } else
    if i == 104 {
        6645
    } else
    if i == 105 {
        7040
    } else
    if i == 106 {
        7459
    } else {
        7902
    }
}

/// Frequency of pitch-table entry `i`.
pub fn note_freq(i: usize) -> (r: u16)
    requires
        i < NOTE_COUNT,
    ensures
        r == spec_note_freq(i as int),
{
    match i {
        0 => 16,
        1 => 17,
        2 => 18,
        3 => 19,
        4 => 21,
        5 => 22,
        6 => 23,
        7 => 25,
        8 => 26,
        9 => 28,
        10 => 29,
        11 => 31,
        12 => 33,
        13 => 35,
        14 => 37,
        15 => 39,
        16 => 41,
        17 => 44,
        18 => 46,
        19 => 49,
        20 => 52,
        21 => 55,
        22 => 58,
        23 => 62,
        24 => 65,
        25 => 69,
        26 => 73,
        27 => 78,
        28 => 82,
        29 => 87,
        30 => 93,
        31 => 98,
        32 => 104,
        33 => 110,
        34 => 117,
        35 => 123,
        36 => 131,
        37 => 139,
        38 => 147,
        39 => 156,
        40 => 165,
        41 => 175,
        42 => 185,
        43 => 196,
        44 => 208,
        45 => 220,
        46 => 233,
        47 => 247,
        48 => 262,
        49 => 277,
        50 => 294,
        51 => 311,
        52 => 330,
        53 => 349,
        54 => 370,
        55 => 392,
        56 => 415,
        57 => 440,
        58 => 466,
        59 => 494,
        60 => 523,
        61 => 554,
        62 => 587,
        63 => 622,
        64 => 659,
        65 => 698,
        66 => 740,
        67 => 784,
        68 => 831,
        69 => 880,
        70 => 932,
        71 => 988,
        72 => 1047,
        73 => 1109,
        74 => 1175,
        75 => 1245,
        76 => 1319,
        77 => 1397,
        78 => 1480,
        79 => 1568,
        80 => 1661,
        81 => 1760,
        82 => 1865,
        83 => 1976,
        84 => 2093,
        85 => 2217,
        86 => 2349,
        87 => 2489,
        88 => 2637,
        89 => 2794,
        90 => 2960,
        91 => 3136,
        92 => 3322,
        93 => 3520,
        94 => 3729,
        95 => 3951,
        96 => 4186,
        97 => 4435,
        98 => 4699,
        99 => 4978,
        100 => 5274,
        101 => 5588,
        102 => 5920,
        103 => 6272,
        104 => 6645,
        105 => 7040,
        106 => 7459,
        _ => 7902,
    }
}

/// The semitone-within-octave a letter names, if it names one.
pub open spec fn spec_letter_to_note_num(c: char) -> Option<u32> {
    match c {
        'C' => Some(0u32),
        'D' => Some(2u32),
        'E' => Some(4u32),
        'F' => Some(5u32),
        'G' => Some(7u32),
        'A' => Some(9u32),
        'B' => Some(11u32),
        _ => None,
    }
}

fn letter_to_note_num(letter: char) -> (r: Option<u32>)
    ensures
        r == spec_letter_to_note_num(letter),
{
    match letter {
        'C' => Some(0),
        'D' => Some(2),
        'E' => Some(4),
        'F' => Some(5),
        'G' => Some(7),
        'A' => Some(9),
        'B' => Some(11),
        _ => None,
    }
}

/// Whether `c` is a decimal octave digit, 0 through 8.
pub open spec fn spec_is_octave_digit(c: char) -> bool {
    '0' <= c && c <= '8'
}

/// The pitch index a textual note name denotes: a letter A..G, then either
/// an octave digit 0..8 as the final character, or a sharp sign followed by
/// an octave digit (anything after the digit is ignored in the sharp form).
pub open spec fn spec_note_from_string(s: Seq<char>) -> Option<usize> {
    if s.len() < 2 {
        None
    } else {
        match spec_letter_to_note_num(s[0]) {
            None => None,
            Some(num) => {
                if s.len() == 2 && spec_is_octave_digit(s[1]) {
                    Some((NOTES_PER_OCTAVE * (s[1] as u32 - '0' as u32) + num) as usize)
                } else if s.len() >= 3 && s[1] == '#' && spec_is_octave_digit(s[2]) {
                    Some((NOTES_PER_OCTAVE * (s[2] as u32 - '0' as u32) + num + 1) as usize)
                } else {
                    None
                }
            },
        }
    }
}

/// Parses a textual note name to its pitch index.
pub fn note_from_string(name: &str) -> (r: Option<usize>)
    ensures
        r == spec_note_from_string(name@),
{
    let n = name.unicode_len();
    if n < 2 {
        return None;
    }
    let note_num: u32 = match letter_to_note_num(name.get_char(0)) {
        Some(num) => num,
        None => {
            return None;
        },
    };
    let c1 = name.get_char(1);
    if n == 2 && is_octave_digit(c1) {
        let octave_num: u32 = c1 as u32 - 48;
        Some((NOTES_PER_OCTAVE * octave_num + note_num) as usize)
    } else if n >= 3 && c1 == '#' {
        let c2 = name.get_char(2);
        if is_octave_digit(c2) {
            let octave_num: u32 = c2 as u32 - 48;
            Some((NOTES_PER_OCTAVE * octave_num + note_num + 1) as usize)
        } else {
            None
        }
    } else {
        None
    }
}

fn is_octave_digit(c: char) -> (r: bool)
    ensures
        r == spec_is_octave_digit(c),
{
    let d = c as u32;
    48 <= d && d <= 56
}

/// The two-character letter part of a rendered note name.
pub open spec fn spec_note_letter(m: int) -> Seq<char> {
    if m == 0 {
        "C-"@
    } else     if m == 1 {
        "C#"@
    } else     if m == 2 {
        "D-"@
    } else     if m == 3 {
        "D#"@
    } else     if m == 4 {
        "E-"@
    } else     if m == 5 {
        "F-"@
    } else     if m == 6 {
        "F#"@
    } else     if m == 7 {
        "G-"@
    } else     if m == 8 {
        "G#"@
    } else     if m == 9 {
        "A-"@
    } else     if m == 10 {
        "A#"@
    } else     if m == 11 {
        "B-"@
    } else {
        "--"@
    }
}

/// The octave digit of a rendered note name.
pub open spec fn spec_octave_digit(o: int) -> Seq<char> {
    if o == 0 {
        "0"@
    } else     if o == 1 {
        "1"@
    } else     if o == 2 {
        "2"@
    } else     if o == 3 {
        "3"@
    } else     if o == 4 {
        "4"@
    } else     if o == 5 {
        "5"@
    } else     if o == 6 {
        "6"@
    } else     if o == 7 {
        "7"@
    } else {
        "8"@
    }
}

/// Renders a pitch index as the editor shows it: letter, sharp sign or
/// dash, then the octave digit ("C-3", "A#4").
pub fn note_to_render(note: usize) -> (r: String)
    requires
        note < NOTE_COUNT,
    ensures
        r@ == spec_note_letter(note as int % 12) + spec_octave_digit(note as int / 12),
{
    let octave = note / (NOTES_PER_OCTAVE as usize);
    let letter: &str = match note % (NOTES_PER_OCTAVE as usize) {
        0 => "C-",
        1 => "C#",
        2 => "D-",
        3 => "D#",
        4 => "E-",
        5 => "F-",
        6 => "F#",
        7 => "G-",
        8 => "G#",
        9 => "A-",
        10 => "A#",
        _ => "B-",
    };
    let digit: &str = match octave {
        0 => "0",
        1 => "1",
        2 => "2",
        3 => "3",
        4 => "4",
        5 => "5",
        6 => "6",
        7 => "7",
        _ => "8",
    };
    String::from_str(letter).concat(digit)
}

} // verus!
