//! The RTTTL ringtone parser.
//!
//! A ringtone is three colon-separated parts: a title, default settings
//! (`d` for the default note fraction, `o` for the default octave, `b`
//! for the tempo in beats per minute), and a comma-separated list of
//! notes.  [`Song::new`] reads the title and the settings; the notes are
//! parsed lazily, one per call of [`Song::next`].

use vstd::prelude::*;

pub mod note;
pub mod scan;

use note::Note;

verus! {

/// The abstract state of a [`Song`]: the parsed header, the notes text,
/// and the read cursor (`started` once reading began, `pos` the start
/// of the next chunk, `done` once the last chunk was read).
pub struct SongModel {
    pub title: Seq<char>,
    pub duration: u32,
    pub octave: u32,
    pub beats_per_minute: u32,
    pub notes: Seq<char>,
    pub started: bool,
    pub done: bool,
    pub pos: int,
}

/// The position of the colon that ends the title.
pub open spec fn spec_colon1(s: Seq<char>) -> Option<int> {
    scan::spec_find_in(s, ':', 0, s.len() as int)
}

/// The position of the colon that ends the settings.
pub open spec fn spec_colon2(s: Seq<char>) -> Option<int> {
    match spec_colon1(s) {
        Some(i) => scan::spec_find_in(s, ':', i + 1, s.len() as int),
        None => None,
    }
}

/// The notes part of the ringtone text: everything after the second
/// colon, trimmed.
pub open spec fn spec_notes_text(s: Seq<char>) -> Seq<char> {
    let j = spec_colon2(s).unwrap();
    let na = scan::spec_skip_space(s, j + 1, s.len() as int);
    let nb = scan::spec_rskip_space(s, na, s.len() as int);
    s.subrange(na, nb)
}

/// One default setting applied to the (duration, octave, tempo)
/// triple.  Keys other than `o` and `d` — under a well-formed header,
/// exactly `b` — set the tempo.
pub open spec fn spec_apply_setting(k: char, v: u32, d: u32, o: u32, b: u32) -> (u32, u32, u32) {
    if k == 'o' || k == 'O' {
        (d, v, b)
    } else if k == 'd' || k == 'D' {
        (v, o, b)
    } else {
        (d, o, v)
    }
}

/// The setting denoted by `[p, e)`: a one-letter key out of `o`, `d`
/// and `b` (either letter case), an equals sign, and a number, all
/// trimmed.
pub open spec fn spec_setting_in(s: Seq<char>, p: int, e: int) -> Option<(char, u32)> {
    match scan::spec_find_in(s, '=', p, e) {
        None => None,
        Some(q) => {
            let ka = scan::spec_skip_space(s, p, q);
            let kb = scan::spec_rskip_space(s, ka, q);
            let va = scan::spec_skip_space(s, q + 1, e);
            let vb = scan::spec_rskip_space(s, va, e);
            if kb - ka == 1 && (s[ka] == 'o' || s[ka] == 'O' || s[ka] == 'd' || s[ka] == 'D' || s[
                ka
            ] == 'b' || s[ka] == 'B') {
                match scan::spec_parse_u32(s, va, vb) {
                    Some(v) => Some((s[ka], v)),
                    None => None,
                }
            } else {
                None
            }
        }
    }
}

/// The comma-separated settings of `[p, b)` folded, left to right, onto
/// the defaults; `None` as soon as one piece is no setting.
pub open spec fn spec_settings_fold(
    s: Seq<char>,
    p: int,
    b: int,
    d: u32,
    o: u32,
    bpm: u32,
) -> Option<(u32, u32, u32)>
    decreases b - p,
{
    let e = match scan::spec_find_in(s, ',', p, b) {
        Some(q) => q,
        None => b,
    };
    if e < p {
        None
    } else {
        match spec_setting_in(s, p, e) {
            None => None,
            Some((k, v)) => {
                let next = spec_apply_setting(k, v, d, o, bpm);
                if e >= b {
                    Some(next)
                } else {
                    spec_settings_fold(s, e + 1, b, next.0, next.1, next.2)
                }
            }
        }
    }
}

/// Whether `p` starts a comma-separated chunk of `s`: the very
/// beginning, or the position right after a comma.
pub open spec fn is_chunk_start(s: Seq<char>, p: int) -> bool {
    0 <= p <= s.len() && (p == 0 || s[p - 1] == ',')
}

/// Where the chunk starting at `p` ends: at the next comma, or at the
/// end of the text.
pub open spec fn chunk_end(s: Seq<char>, p: int) -> int {
    match scan::spec_find_in(s, ',', p, s.len() as int) {
        Some(q) => q,
        None => s.len() as int,
    }
}

/// Every comma-separated chunk of the notes text denotes a note.
pub open spec fn all_chunks_wf(s: Seq<char>) -> bool {
    forall|p: int| #[trigger]
        is_chunk_start(s, p) ==> note::spec_note_wf(s.subrange(p, chunk_end(s, p)))
}

/// A well-formed ringtone text: a title part, a settings part that
/// folds to a value, and a notes part whose every chunk denotes a note.
pub open spec fn spec_song_wf(s: Seq<char>) -> bool {
    &&& spec_colon1(s) is Some
    &&& spec_colon2(s) is Some
    &&& ({
        let i = spec_colon1(s).unwrap();
        let j = spec_colon2(s).unwrap();
        let sa = scan::spec_skip_space(s, i + 1, j);
        let sb = scan::spec_rskip_space(s, sa, j);
        spec_settings_fold(s, sa, sb, 4, 5, 108) is Some
    })
    &&& all_chunks_wf(spec_notes_text(s))
}

/// The state a freshly parsed [`Song`] is in.
pub open spec fn spec_song(s: Seq<char>) -> SongModel {
    let i = spec_colon1(s).unwrap();
    let j = spec_colon2(s).unwrap();
    let ta = scan::spec_skip_space(s, 0, i);
    let tb = scan::spec_rskip_space(s, ta, i);
    let sa = scan::spec_skip_space(s, i + 1, j);
    let sb = scan::spec_rskip_space(s, sa, j);
    let folded = spec_settings_fold(s, sa, sb, 4, 5, 108).unwrap();
    SongModel {
        title: s.subrange(ta, tb),
        duration: folded.0,
        octave: folded.1,
        beats_per_minute: folded.2,
        notes: spec_notes_text(s),
        started: false,
        done: false,
        pos: 0,
    }
}

/// A parsed ringtone, reading its notes lazily.  Its view is a
/// [`SongModel`].
#[derive(Clone, Debug)]
pub struct Song {
    pub title: String,
    pub duration: u32,
    pub octave: u32,
    pub beats_per_minute: u32,
    note_source: String,
    started: bool,
    done: bool,
    pos: usize,
}

impl View for Song {
    type V = SongModel;

    closed spec fn view(&self) -> SongModel {
        SongModel {
            title: self.title@,
            duration: self.duration,
            octave: self.octave,
            beats_per_minute: self.beats_per_minute,
            notes: self.note_source@,
            started: self.started,
            done: self.done,
            pos: self.pos as int,
        }
    }
}

impl Song {
    /// Every chunk of the stored notes text denotes a note, and the
    /// read cursor sits at a chunk boundary.
    pub open spec fn wf(self) -> bool {
        &&& all_chunks_wf(self@.notes)
        &&& self@.started && !self@.done ==> is_chunk_start(self@.notes, self@.pos)
    }

    /// Parses the header of a ringtone text and keeps the notes part
    /// for lazy reading; see [`spec_song`].
    pub fn new(text: &str) -> (r: Self)
        requires
            spec_song_wf(text@),
        ensures
            r@ == spec_song(text@),
            r.wf(),
    {
        let v = scan::chars_vec(text);
        let len = v.len();
        let i = scan::find_in(&v, ':', 0, len).unwrap();
        let j = scan::find_in(&v, ':', i + 1, len).unwrap();
        let ta = scan::skip_space(&v, 0, i);
        let tb = scan::rskip_space(&v, ta, i);
        let title = text.substring_char(ta, tb).to_owned();

        let sa = scan::skip_space(&v, i + 1, j);
        let sb = scan::rskip_space(&v, sa, j);
        let ghost total = spec_settings_fold(v@, sa as int, sb as int, 4, 5, 108);

        let mut duration: u32 = 4;
        let mut octave: u32 = 5;
        let mut beats_per_minute: u32 = 108;
        let mut p = sa;
        let mut more = true;
        while more
            invariant
                sa <= sb <= v@.len(),
                more ==> sa <= p <= sb,
                more ==> spec_settings_fold(
                    v@,
                    p as int,
                    sb as int,
                    duration,
                    octave,
                    beats_per_minute,
                ) == total,
                total is Some,
                !more ==> Some((duration, octave, beats_per_minute)) == total,
            decreases (if more {
                sb - p + 1
            } else {
                0int
            }),
        {
            let e = match scan::find_in(&v, ',', p, sb) {
                Some(q) => q,
                None => sb,
            };
            let q = scan::find_in(&v, '=', p, e).unwrap();
            let ka = scan::skip_space(&v, p, q);
            let va = scan::skip_space(&v, q + 1, e);
            let vb = scan::rskip_space(&v, va, e);
            let value = scan::parse_u32_in(&v, va, vb).unwrap();
            let k = v[ka];
            if k == 'o' || k == 'O' {
                octave = value;
            } else if k == 'd' || k == 'D' {
                duration = value;
            } else {
                beats_per_minute = value;
            }
            if e >= sb {
                more = false;
            } else {
                p = e + 1;
            }
        }

        let na = scan::skip_space(&v, j + 1, len);
        let nb = scan::rskip_space(&v, na, len);
        let note_source = text.substring_char(na, nb).to_owned();

        Self { title, duration, octave, beats_per_minute, note_source, started: false, done: false, pos: 0 }
    }

    /// Rewinds the song to its first note.
    pub fn reset(&mut self)
        ensures
            final(self)@ == (SongModel { started: true, done: false, pos: 0, ..old(self)@ }),
    {
        self.started = true;
        self.done = false;
        self.pos = 0;
    }

    /// Reads the next note, starting over from the first when the song
    /// was never read, and yielding nothing once the last note was
    /// read.
    pub fn next(&mut self) -> (r: Option<Note>)
        requires
            old(self).wf(),
        ensures
            final(self).wf(),
            ({
                let m = old(self)@;
                if m.done {
                    r is None && final(self)@ == m
                } else {
                    let p = if m.started {
                        m.pos
                    } else {
                        0
                    };
                    let e = chunk_end(m.notes, p);
                    &&& r == Some(
                        note::spec_note(
                            m.notes.subrange(p, e),
                            m.octave,
                            m.duration,
                            m.beats_per_minute,
                        ),
                    )
                    &&& final(self)@ == (SongModel {
                        started: true,
                        done: e == m.notes.len(),
                        pos: if e == m.notes.len() {
                            p
                        } else {
                            e + 1
                        },
                        ..m
                    })
                }
            }),
    {
        if self.done {
            return None;
        }
        let v = scan::chars_vec(self.note_source.as_str());
        let p = if self.started {
            self.pos
        } else {
            0
        };
        let e = match scan::find_in(&v, ',', p, v.len()) {
            Some(q) => q,
            None => v.len(),
        };
        proof {
            assert(is_chunk_start(self@.notes, p as int));
        }
        let chunk = self.note_source.as_str().substring_char(p, e);
        let n = Note::new(chunk, self.octave, self.duration, self.beats_per_minute);
        self.started = true;
        self.pos = p;
        if e == v.len() {
            self.done = true;
        } else {
            proof {
                scan::lemma_find_in_some(v@, ',', p as int, v@.len() as int);
            }
            self.pos = e + 1;
        }
        Some(n)
    }
}

} // verus!
