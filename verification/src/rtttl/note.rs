//! A single note of a ringtone: its name, octave, relative duration and
//! dotting, parsed from one comma-separated chunk of the ringtone text.

use vstd::prelude::*;

use crate::rtttl::scan;

verus! {

/// The twelve pitch names of an octave, plus a pause.
#[derive(Debug, Clone, Copy, PartialEq, Eq, Structural)]
pub enum NoteName {
    A,
    ASharp,
    B,
    C,
    CSharp,
    D,
    DSharp,
    E,
    F,
    FSharp,
    G,
    GSharp,
    Pause,
}

/// The error of reading a note name from text that is none.
#[derive(Debug, PartialEq, Eq)]
pub struct ParseNoteNameError;

/// The note name denoted by `[a, b)`: a single letter, or a letter
/// followed by a sharp sign.
pub open spec fn spec_note_name_range(s: Seq<char>, a: int, b: int) -> Option<NoteName> {
    if b - a == 1 {
        match s[a] {
            'A' | 'a' => Some(NoteName::A),
            'B' | 'b' => Some(NoteName::B),
            'C' | 'c' => Some(NoteName::C),
            'D' | 'd' => Some(NoteName::D),
            'E' | 'e' => Some(NoteName::E),
            'F' | 'f' => Some(NoteName::F),
            'G' | 'g' => Some(NoteName::G),
            'P' | 'p' => Some(NoteName::Pause),
            _ => None,
        }
    } else if b - a == 2 && s[a + 1] == '#' {
        match s[a] {
            'A' | 'a' => Some(NoteName::ASharp),
            'C' | 'c' => Some(NoteName::CSharp),
            'D' | 'd' => Some(NoteName::DSharp),
            'F' | 'f' => Some(NoteName::FSharp),
            'G' | 'g' => Some(NoteName::GSharp),
            _ => None,
        }
    } else {
        None
    }
}

/// The note name denoted by `[a, b)` once surrounding whitespace is
/// dropped.
pub open spec fn spec_note_name_trimmed(s: Seq<char>, a: int, b: int) -> Option<NoteName> {
    let a1 = scan::spec_skip_space(s, a, b);
    let b1 = scan::spec_rskip_space(s, a1, b);
    spec_note_name_range(s, a1, b1)
}

/// The note name denoted by a whole string.
pub open spec fn spec_parse_note_name(s: Seq<char>) -> Option<NoteName> {
    spec_note_name_trimmed(s, 0, s.len() as int)
}

/// Reads the note name in `[a, b)` of `v`, whitespace ignored; the
/// range version of [`NoteName::from_str`].
fn name_in(v: &Vec<char>, a: usize, b: usize) -> (r: Option<NoteName>)
    requires
        a <= b <= v@.len(),
    ensures
        r == spec_note_name_trimmed(v@, a as int, b as int),
{
    let a1 = scan::skip_space(v, a, b);
    let b1 = scan::rskip_space(v, a1, b);
    if b1 - a1 == 1 {
        match v[a1] {
            'A' | 'a' => Some(NoteName::A),
            'B' | 'b' => Some(NoteName::B),
            'C' | 'c' => Some(NoteName::C),
            'D' | 'd' => Some(NoteName::D),
            'E' | 'e' => Some(NoteName::E),
            'F' | 'f' => Some(NoteName::F),
            'G' | 'g' => Some(NoteName::G),
            'P' | 'p' => Some(NoteName::Pause),
            _ => None,
        }
    } else if b1 - a1 == 2 && v[a1 + 1] == '#' {
        match v[a1] {
            'A' | 'a' => Some(NoteName::ASharp),
            'C' | 'c' => Some(NoteName::CSharp),
            'D' | 'd' => Some(NoteName::DSharp),
            'F' | 'f' => Some(NoteName::FSharp),
            'G' | 'g' => Some(NoteName::GSharp),
            _ => None,
        }
    } else {
        None
    }
}

impl NoteName {
    /// Reads a note name, ignoring surrounding whitespace: a letter A
    /// to G, in either letter case, optionally followed by a sharp
    /// sign, or P for a pause.
    pub fn from_str(s: &str) -> (r: Result<NoteName, ParseNoteNameError>)
        ensures
            match r {
                Ok(n) => spec_parse_note_name(s@) == Some(n),
                Err(_) => spec_parse_note_name(s@) is None,
            },
    {
        let v = scan::chars_vec(s);
        match name_in(&v, 0, v.len()) {
            Some(n) => Ok(n),
            None => Err(ParseNoteNameError),
        }
    }
}

/// Where the left-trimmed text of a chunk starts.
pub open spec fn spec_chunk_lo(s: Seq<char>) -> int {
    scan::spec_skip_space(s, 0, s.len() as int)
}

/// Where the trimmed text of a chunk ends.
pub open spec fn spec_chunk_hi(s: Seq<char>) -> int {
    scan::spec_rskip_space(s, spec_chunk_lo(s), s.len() as int)
}

/// One past the end of the note-name part of a trimmed chunk: up to the
/// second letter (or just past the single letter), plus one more when
/// the chunk carries a sharp sign anywhere.
pub open spec fn spec_name_end(s: Seq<char>) -> int {
    let a = spec_chunk_lo(s);
    let b = spec_chunk_hi(s);
    let first = scan::spec_alpha_in(s, a, b).unwrap();
    let base = match scan::spec_alpha_in(s, first + 1, b) {
        Some(j) => j,
        None => first + 1,
    };
    if scan::spec_find_in(s, '#', a, b) is Some {
        base + 1
    } else {
        base
    }
}

/// A chunk that denotes a note: it holds a letter, the name part stays
/// inside the chunk, and it names a note.
pub open spec fn spec_note_wf(s: Seq<char>) -> bool {
    let a = spec_chunk_lo(s);
    let b = spec_chunk_hi(s);
    &&& scan::spec_alpha_in(s, a, b) is Some
    &&& spec_name_end(s) <= b
    &&& spec_note_name_trimmed(s, scan::spec_alpha_in(s, a, b).unwrap(), spec_name_end(s))
        is Some
}

/// The note denoted by a chunk: the digits before the letter are the
/// relative duration, the digits after the name are the octave (each
/// falling back to the song's default when absent or unreadable), and a
/// trailing dot marks the note as dotted, lengthening it by half.
pub open spec fn spec_note(
    s: Seq<char>,
    default_octave: u32,
    default_duration: u32,
    beats_per_minute: u32,
) -> Note {
    let a = spec_chunk_lo(s);
    let b = spec_chunk_hi(s);
    let first = scan::spec_alpha_in(s, a, b).unwrap();
    let ne = spec_name_end(s);
    let tripled = s[b - 1] == '.';
    let end = if tripled {
        b - 1
    } else {
        b
    };
    let oct_hi = if end > ne {
        end
    } else {
        ne
    };
    Note {
        name: spec_note_name_trimmed(s, first, ne).unwrap(),
        octave: match scan::spec_parse_u32(s, ne, oct_hi) {
            Some(v) => v,
            None => default_octave,
        },
        duration: match scan::spec_parse_u32(s, a, first) {
            Some(v) => v,
            None => default_duration,
        },
        tripled,
        beats_per_minute,
    }
}

/// One note of a ringtone.  `duration` is the note fraction (4 is a
/// quarter note), `tripled` marks a dotted note, and the song's tempo
/// is carried along so that the note can time itself.
#[derive(Debug, Clone, Copy, PartialEq, Eq, Structural)]
pub struct Note {
    pub name: NoteName,
    pub duration: u32,
    pub octave: u32,
    pub tripled: bool,
    pub beats_per_minute: u32,
}

impl Note {
    /// Parses one chunk of ringtone text; see [`spec_note`].
    pub fn new(
        text: &str,
        default_octave: u32,
        default_duration: u32,
        beats_per_minute: u32,
    ) -> (r: Self)
        requires
            spec_note_wf(text@),
        ensures
            r == spec_note(text@, default_octave, default_duration, beats_per_minute),
    {
        let v = scan::chars_vec(text);
        let len = v.len();
        let a = scan::skip_space(&v, 0, len);
        let b = scan::rskip_space(&v, a, len);
        let first = scan::alpha_in(&v, a, b).unwrap();
        let base = match scan::alpha_in(&v, first + 1, b) {
            Some(j) => j,
            None => first + 1,
        };
        let ne = match scan::find_in(&v, '#', a, b) {
            Some(_) => base + 1,
            None => base,
        };
        let tripled = v[b - 1] == '.';
        let end = if tripled {
            b - 1
        } else {
            b
        };
        let oct_hi = if end > ne {
            end
        } else {
            ne
        };
        let octave = match scan::parse_u32_in(&v, ne, oct_hi) {
            Some(o) => o,
            None => default_octave,
        };
        let duration = match scan::parse_u32_in(&v, a, first) {
            Some(d) => d,
            None => default_duration,
        };
        let name = name_in(&v, first, ne).unwrap();

        Self { octave, name, duration, tripled, beats_per_minute }
    }

    /// The length of the note in milliseconds, from the song's tempo
    /// and the note fraction; a dotted note lasts half again as long.
    pub fn duration(&self) -> (r: u32)
        requires
            1 <= self.beats_per_minute as int * self.duration as int,
            (if self.tripled {
                3int
            } else {
                1int
            }) * self.beats_per_minute as int * self.duration as int <= u32::MAX as int,
        ensures
            r as int == if self.tripled {
                480000int / (3 * self.beats_per_minute as int * self.duration as int)
            } else {
                240000int / (self.beats_per_minute as int * self.duration as int)
            },
    {
        proof {
            let b = self.beats_per_minute as int;
            let d = self.duration as int;
            assert(b >= 1 && d >= 1) by (nonlinear_arith)
                requires
                    1 <= b * d,
                    b >= 0,
                    d >= 0,
            ;
            assert(3 * b <= 3 * b * d && b * d <= 3 * b * d) by (nonlinear_arith)
                requires
                    b >= 1,
                    d >= 1,
            ;
        }
        if self.tripled {
            (2 * 240 * 1000) / (3 * self.beats_per_minute * self.duration)
        } else {
            (240 * 1000) / (self.beats_per_minute * self.duration)
        }
    }

    /// The frequency of the note in hertz: none for a pause, an error
    /// for an octave outside the table.
    pub fn frequency(&self) -> (r: Option<Result<u32, ()>>)
        ensures
            r == spec_frequency(self.octave, self.name),
    {
        match self.name {
            NoteName::Pause => None,
            _ => {
                if self.octave == 1 {
                    Some(freq_octave_1(self.name))
                } else if self.octave == 2 {
                    Some(freq_octave_2(self.name))
                } else if self.octave == 3 {
                    Some(freq_octave_3(self.name))
                } else if self.octave == 4 {
                    Some(freq_octave_4(self.name))
                } else if self.octave == 5 {
                    Some(freq_octave_5(self.name))
                } else if self.octave == 6 {
                    Some(freq_octave_6(self.name))
                } else if self.octave == 7 {
                    Some(freq_octave_7(self.name))
                } else {
                    Some(Err(()))
                }
            }
        }
    }
}

/// The frequency table; see [`Note::frequency`].
pub open spec fn spec_frequency(octave: u32, name: NoteName) -> Option<Result<u32, ()>> {
    if name is Pause {
        None
    } else if octave == 1 {
        Some(spec_freq_octave_1(name))
    } else if octave == 2 {
        Some(spec_freq_octave_2(name))
    } else if octave == 3 {
        Some(spec_freq_octave_3(name))
    } else if octave == 4 {
        Some(spec_freq_octave_4(name))
    } else if octave == 5 {
        Some(spec_freq_octave_5(name))
    } else if octave == 6 {
        Some(spec_freq_octave_6(name))
    } else if octave == 7 {
        Some(spec_freq_octave_7(name))
    } else {
        Some(Err(()))
    }
}

pub open spec fn spec_freq_octave_1(name: NoteName) -> Result<u32, ()> {
    match name {
        NoteName::C => Ok(33),
        NoteName::CSharp => Ok(35),
        NoteName::D => Ok(37),
        NoteName::DSharp => Ok(39),
        NoteName::E => Ok(42),
        NoteName::F => Ok(44),
        NoteName::FSharp => Ok(46),
        NoteName::G => Ok(49),
        NoteName::GSharp => Ok(52),
        NoteName::A => Ok(55),
        NoteName::ASharp => Ok(58),
        NoteName::B => Ok(61),
        NoteName::Pause => Err(()),
    }
}

pub open spec fn spec_freq_octave_2(name: NoteName) -> Result<u32, ()> {
    match name {
        NoteName::C => Ok(65),
        NoteName::CSharp => Ok(69),
        NoteName::D => Ok(73),
        NoteName::DSharp => Ok(78),
        NoteName::E => Ok(82),
        NoteName::F => Ok(87),
        NoteName::FSharp => Ok(92),
        NoteName::G => Ok(98),
        NoteName::GSharp => Ok(104),
        NoteName::A => Ok(110),
        NoteName::ASharp => Ok(117),
        NoteName::B => Ok(123),
        NoteName::Pause => Err(()),
    }
}

pub open spec fn spec_freq_octave_3(name: NoteName) -> Result<u32, ()> {
    match name {
        NoteName::C => Ok(130),
        NoteName::CSharp => Ok(138),
        NoteName::D => Ok(146),
        NoteName::DSharp => Ok(155),
        NoteName::E => Ok(164),
        NoteName::F => Ok(174),
        NoteName::FSharp => Ok(184),
        NoteName::G => Ok(195),
        NoteName::GSharp => Ok(207),
        NoteName::A => Ok(220),
        NoteName::ASharp => Ok(233),
        NoteName::B => Ok(246),
        NoteName::Pause => Err(()),
    }
}

pub open spec fn spec_freq_octave_4(name: NoteName) -> Result<u32, ()> {
    match name {
        NoteName::C => Ok(261),
        NoteName::CSharp => Ok(277),
        NoteName::D => Ok(293),
        NoteName::DSharp => Ok(311),
        NoteName::E => Ok(329),
        NoteName::F => Ok(349),
        NoteName::FSharp => Ok(369),
        NoteName::G => Ok(391),
        NoteName::GSharp => Ok(415),
        NoteName::A => Ok(440),
        NoteName::ASharp => Ok(466),
        NoteName::B => Ok(493),
        NoteName::Pause => Err(()),
    }
}

pub open spec fn spec_freq_octave_5(name: NoteName) -> Result<u32, ()> {
    match name {
        NoteName::C => Ok(523),
        NoteName::CSharp => Ok(554),
        NoteName::D => Ok(587),
        NoteName::DSharp => Ok(622),
        NoteName::E => Ok(659),
        NoteName::F => Ok(698),
        NoteName::FSharp => Ok(739),
        NoteName::G => Ok(783),
        NoteName::GSharp => Ok(830),
        NoteName::A => Ok(880),
        NoteName::ASharp => Ok(932),
        NoteName::B => Ok(987),
        NoteName::Pause => Err(()),
    }
}

pub open spec fn spec_freq_octave_6(name: NoteName) -> Result<u32, ()> {
    match name {
        NoteName::C => Ok(1046),
        NoteName::CSharp => Ok(1108),
        NoteName::D => Ok(1174),
        NoteName::DSharp => Ok(1244),
        NoteName::E => Ok(1318),
        NoteName::F => Ok(1396),
        NoteName::FSharp => Ok(1479),
        NoteName::G => Ok(1567),
        NoteName::GSharp => Ok(1661),
        NoteName::A => Ok(1760),
        NoteName::ASharp => Ok(1864),
        NoteName::B => Ok(1975),
        NoteName::Pause => Err(()),
    }
}

pub open spec fn spec_freq_octave_7(name: NoteName) -> Result<u32, ()> {
    match name {
        NoteName::C => Ok(2093),
        NoteName::CSharp => Ok(2217),
        NoteName::D => Ok(2349),
        NoteName::DSharp => Ok(2489),
        NoteName::E => Ok(2637),
        NoteName::F => Ok(2794),
        NoteName::FSharp => Ok(2960),
        NoteName::G => Ok(3136),
        NoteName::GSharp => Ok(3322),
        NoteName::A => Ok(3520),
        NoteName::ASharp => Ok(3729),
        NoteName::B => Ok(3951),
        NoteName::Pause => Err(()),
    }
}

fn freq_octave_1(name: NoteName) -> (r: Result<u32, ()>)
    ensures
        r == spec_freq_octave_1(name),
{
    match name {
        NoteName::C => Ok(33),
        NoteName::CSharp => Ok(35),
        NoteName::D => Ok(37),
        NoteName::DSharp => Ok(39),
        NoteName::E => Ok(42),
        NoteName::F => Ok(44),
        NoteName::FSharp => Ok(46),
        NoteName::G => Ok(49),
        NoteName::GSharp => Ok(52),
        NoteName::A => Ok(55),
        NoteName::ASharp => Ok(58),
        NoteName::B => Ok(61),
        NoteName::Pause => Err(()),
    }
}

fn freq_octave_2(name: NoteName) -> (r: Result<u32, ()>)
    ensures
        r == spec_freq_octave_2(name),
{
    match name {
        NoteName::C => Ok(65),
        NoteName::CSharp => Ok(69),
        NoteName::D => Ok(73),
        NoteName::DSharp => Ok(78),
        NoteName::E => Ok(82),
        NoteName::F => Ok(87),
        NoteName::FSharp => Ok(92),
        NoteName::G => Ok(98),
        NoteName::GSharp => Ok(104),
        NoteName::A => Ok(110),
        NoteName::ASharp => Ok(117),
        NoteName::B => Ok(123),
        NoteName::Pause => Err(()),
    }
}

fn freq_octave_3(name: NoteName) -> (r: Result<u32, ()>)
    ensures
        r == spec_freq_octave_3(name),
{
    match name {
        NoteName::C => Ok(130),
        NoteName::CSharp => Ok(138),
        NoteName::D => Ok(146),
        NoteName::DSharp => Ok(155),
        NoteName::E => Ok(164),
        NoteName::F => Ok(174),
        NoteName::FSharp => Ok(184),
        NoteName::G => Ok(195),
        NoteName::GSharp => Ok(207),
        NoteName::A => Ok(220),
        NoteName::ASharp => Ok(233),
        NoteName::B => Ok(246),
        NoteName::Pause => Err(()),
    }
}

fn freq_octave_4(name: NoteName) -> (r: Result<u32, ()>)
    ensures
        r == spec_freq_octave_4(name),
{
    match name {
        NoteName::C => Ok(261),
        NoteName::CSharp => Ok(277),
        NoteName::D => Ok(293),
        NoteName::DSharp => Ok(311),
        NoteName::E => Ok(329),
        NoteName::F => Ok(349),
        NoteName::FSharp => Ok(369),
        NoteName::G => Ok(391),
        NoteName::GSharp => Ok(415),
        NoteName::A => Ok(440),
        NoteName::ASharp => Ok(466),
        NoteName::B => Ok(493),
        NoteName::Pause => Err(()),
    }
}

fn freq_octave_5(name: NoteName) -> (r: Result<u32, ()>)
    ensures
        r == spec_freq_octave_5(name),
{
    match name {
        NoteName::C => Ok(523),
        NoteName::CSharp => Ok(554),
        NoteName::D => Ok(587),
        NoteName::DSharp => Ok(622),
        NoteName::E => Ok(659),
        NoteName::F => Ok(698),
        NoteName::FSharp => Ok(739),
        NoteName::G => Ok(783),
        NoteName::GSharp => Ok(830),
        NoteName::A => Ok(880),
        NoteName::ASharp => Ok(932),
        NoteName::B => Ok(987),
        NoteName::Pause => Err(()),
    }
}

fn freq_octave_6(name: NoteName) -> (r: Result<u32, ()>)
    ensures
        r == spec_freq_octave_6(name),
{
    match name {
        NoteName::C => Ok(1046),
        NoteName::CSharp => Ok(1108),
        NoteName::D => Ok(1174),
        NoteName::DSharp => Ok(1244),
        NoteName::E => Ok(1318),
        NoteName::F => Ok(1396),
        NoteName::FSharp => Ok(1479),
        NoteName::G => Ok(1567),
        NoteName::GSharp => Ok(1661),
        NoteName::A => Ok(1760),
        NoteName::ASharp => Ok(1864),
        NoteName::B => Ok(1975),
        NoteName::Pause => Err(()),
    }
}

fn freq_octave_7(name: NoteName) -> (r: Result<u32, ()>)
    ensures
        r == spec_freq_octave_7(name),
{
    match name {
        NoteName::C => Ok(2093),
        NoteName::CSharp => Ok(2217),
        NoteName::D => Ok(2349),
        NoteName::DSharp => Ok(2489),
        NoteName::E => Ok(2637),
        NoteName::F => Ok(2794),
        NoteName::FSharp => Ok(2960),
        NoteName::G => Ok(3136),
        NoteName::GSharp => Ok(3322),
        NoteName::A => Ok(3520),
        NoteName::ASharp => Ok(3729),
        NoteName::B => Ok(3951),
        NoteName::Pause => Err(()),
    }
}

} // verus!
