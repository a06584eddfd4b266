use pocketpad::rtttl::Song;
use pocketpad::rtttl::note::Note;
use pocketpad::rtttl::note::NoteName;
use pocketpad::rtttl::note::ParseNoteNameError;

const HAUNTED_HOUSE: &str = "HauntHouse: d=4,o=5,b=108: 2a4, 2e, 2d#, 2b4, 2a4, 2c, 2d, 2a#4, 2e., e, 1f4, 1a4, 1d#, 2e., d, 2c., b4, 1a4, 1p, 2a4, 2e, 2d#, 2b4, 2a4, 2c, 2d, 2a#4, 2e., e, 1f4, 1a4, 1d#, 2e., d, 2c., b4, 1a4";
const COUNTDOWN: &str = "countdown:d=4, o=5, b=125:p, 8p, 16b, 16a, b, e, p, 8p, 16c6, 16b, 8c6, 8b, a, p, 8p, 16c6, 16b, c6, e, p, 8p, 16a, 16g, 8a, 8g, 8f#, 8a, g., 16f#, 16g, a., 16g, 16a, 8b, 8a, 8g, 8f#, e, c6, 2b., 16b, 16c6, 16b, 16a, 1b";
const MISSION: &str = "Mission:d=4, o=6, b=100:32d, 32d#, 32d, 32d#, 32d, 32d#, 32d, 32d#, 32d, 32d, 32d#, 32e, 32f, 32f#, 32g, 16g, 8p, 16g, 8p, 16a#, 16p, 16c, 16p, 16g, 8p, 16g, 8p, 16f, 16p, 16f#, 16p, 16g, 8p, 16g, 8p, 16a#, 16p, 16c, 16p, 16g, 8p, 16g, 8p, 16f, 16p, 16f#, 16p, 16a#, 16g, 2d, 32p, 16a#, 16g, 2c#, 32p, 16a#, 16g, 2c, 16p, 16a#5, 16c";
const WANNABE: &str = "Wannabe:o=5,d=8,b=125,b=125:16g,16g,16g,16g,g,a,g,e,p,16c,16d,16c,d,d,c,4e,4p,g,g,g,a,g,e,p,4c6,c6,b,g,a,16b,16a,4g";

#[test]
fn test_countdown() {
    let mut song = Song::new(COUNTDOWN);

    assert_eq!(song.title, "countdown");
    assert_eq!(song.duration, 4);
    assert_eq!(song.octave, 5);
    assert_eq!(song.beats_per_minute, 125);

    let note = song.next().unwrap();
    assert_eq!(note.duration(), 480);
    assert_eq!(note.frequency(), None);

    let note = song.next().unwrap();
    assert_eq!(note.frequency(), None);
    assert_eq!(note.duration(), 240);

    let note = song.next().unwrap();
    assert_eq!(note.frequency(), Some(Ok(987)));
    assert_eq!(note.duration(), 120);

    let note = song.next().unwrap();
    assert_eq!(note.frequency(), Some(Ok(880)));
    assert_eq!(note.duration(), 120);

    let note = song.next().unwrap();
    assert_eq!(note.frequency(), Some(Ok(987)));
    assert_eq!(note.duration(), 480);

    let note = song.next().unwrap();
    assert_eq!(note.frequency(), Some(Ok(659)));
    assert_eq!(note.duration(), 480);

    let note = song.next().unwrap();
    assert_eq!(note.duration(), 480);
    assert_eq!(note.frequency(), None);

    let note = song.next().unwrap();
    assert_eq!(note.frequency(), None);
    assert_eq!(note.duration(), 240);

    let note = song.next().unwrap();
    assert_eq!(note.frequency(), Some(Ok(1046)));
    assert_eq!(note.duration(), 120);
}

#[test]
fn test_song() {
    let mut song = Song::new(HAUNTED_HOUSE);

    assert_eq!(song.title, "HauntHouse");
    assert_eq!(song.duration, 4);
    assert_eq!(song.octave, 5);
    assert_eq!(song.beats_per_minute, 108);

    let first_note = song.next().unwrap();
    assert_eq!(first_note.duration(), 1111);
    assert_eq!(first_note.frequency().unwrap().unwrap(), 440);

    let second_note = song.next().unwrap();
    assert_eq!(second_note.duration(), 1111);
    assert_eq!(second_note.frequency().unwrap().unwrap(), 659);
}

#[test]
fn test_mission() {
    let mut song = Song::new(MISSION);

    assert_eq!(song.title, "Mission");
    assert_eq!(song.duration, 4);
    assert_eq!(song.octave, 6);
    assert_eq!(song.beats_per_minute, 100);

    let first_note = song.next().unwrap();
    assert_eq!(first_note.duration(), 75);
    assert_eq!(first_note.frequency().unwrap().unwrap(), 1174);

    let second_note = song.next().unwrap();
    assert_eq!(second_note.duration(), 75);
    assert_eq!(second_note.frequency().unwrap().unwrap(), 1244);
}

#[test]
fn test_wannabe() {
    let mut song = Song::new(WANNABE);

    assert_eq!(song.title, "Wannabe");
    assert_eq!(song.duration, 8);
    assert_eq!(song.octave, 5);
    assert_eq!(song.beats_per_minute, 125);

    let first_note = song.next().unwrap();
    assert_eq!(first_note.duration(), 120);
    assert_eq!(first_note.frequency().unwrap().unwrap(), 783);

    let second_note = song.next().unwrap();
    assert_eq!(second_note.duration(), 120);
    assert_eq!(second_note.frequency().unwrap().unwrap(), 783);
}

#[test]
fn test_note() {
    assert_eq!(
        Note::new("2a3", 5, 4, 108),
        Note {
            name: NoteName::A,
            octave: 3,
            duration: 2,
            tripled: false,
            beats_per_minute: 108
        }
    );
}

#[test]
fn test_note_tripled() {
    assert_eq!(
        Note::new("2a3.", 5, 4, 100),
        Note {
            name: NoteName::A,
            octave: 3,
            duration: 2,
            tripled: true,
            beats_per_minute: 100
        }
    );
}

#[test]
fn test_note_sharp() {
    assert_eq!(
        Note::new("32d#", 5, 4, 104),
        Note {
            name: NoteName::DSharp,
            octave: 5,
            duration: 32,
            tripled: false,
            beats_per_minute: 104
        }
    );
}

#[test]
fn test_note_sharp_tripled() {
    assert_eq!(
        Note::new("32d#.", 5, 4, 102),
        Note {
            name: NoteName::DSharp,
            octave: 5,
            duration: 32,
            tripled: true,
            beats_per_minute: 102
        }
    );
}

#[test]
fn test_note_name_parsing() {
    assert_eq!(NoteName::from_str("a"), Ok(NoteName::A));
    assert_eq!(NoteName::from_str(" G# "), Ok(NoteName::GSharp));
    assert_eq!(NoteName::from_str("P"), Ok(NoteName::Pause));
    assert_eq!(NoteName::from_str("q"), Err(ParseNoteNameError));
    assert_eq!(NoteName::from_str("b#"), Err(ParseNoteNameError));
    assert_eq!(NoteName::from_str(""), Err(ParseNoteNameError));
}

#[test]
fn test_note_defaults_and_whitespace() {
    // No digits around the name: both defaults apply.
    assert_eq!(
        Note::new("  g  ", 6, 16, 90),
        Note {
            name: NoteName::G,
            octave: 6,
            duration: 16,
            tripled: false,
            beats_per_minute: 90
        }
    );
    // A dotted note without an octave digit.
    assert_eq!(
        Note::new("g.", 5, 4, 112),
        Note {
            name: NoteName::G,
            octave: 5,
            duration: 4,
            tripled: true,
            beats_per_minute: 112
        }
    );
}

#[test]
fn test_song_reset_and_exhaustion() {
    let mut song = Song::new("two:d=4,o=5,b=120:8a,8b");

    let first = song.next().unwrap();
    assert_eq!(first.name, NoteName::A);
    let second = song.next().unwrap();
    assert_eq!(second.name, NoteName::B);
    assert_eq!(song.next(), None);
    assert_eq!(song.next(), None);

    song.reset();
    let again = song.next().unwrap();
    assert_eq!(again.name, NoteName::A);
}

#[test]
fn test_song_frequency_out_of_range_octave() {
    let mut song = Song::new("high:d=4,o=9,b=120:a");
    let note = song.next().unwrap();
    assert_eq!(note.octave, 9);
    assert_eq!(note.frequency(), Some(Err(())));
}
