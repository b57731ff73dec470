use mpd_client::commands::responses::{
    decode_frame, find, find_all, DecodeError, Empty, Field, PlayState, Response, SingleMode, Song, Stats,
    Status,
};
use mpd_client::commands::{decode_answer, ClearQueue, CurrentSong, Queue};
use mpd_client::state_changes::{frame_notifications, notifications_of, Notification};
use mpd_protocol::response::Frame as RawFrame;
use mpd_protocol::Connection;
use std::collections::VecDeque;
use std::io::Read;

fn fields(pairs: &[(&str, &str)]) -> Vec<Field> {
    pairs
        .iter()
        .map(|(key, value)| (key.to_string(), value.to_string()))
        .collect()
}

/// A server that was recorded: each read hands out the next piece.
struct Recorded(VecDeque<Vec<u8>>);

impl Read for Recorded {
    fn read(&mut self, buffer: &mut [u8]) -> std::io::Result<usize> {
        match self.0.pop_front() {
            None => Ok(0),
            Some(piece) => {
                let taken = piece.len().min(buffer.len());
                buffer[..taken].copy_from_slice(&piece[..taken]);
                if taken < piece.len() {
                    self.0.push_front(piece[taken..].to_vec());
                }
                Ok(taken)
            }
        }
    }
}

/// The frame that the protocol crate reads from the lines of an answer.
fn frame(lines: &str) -> RawFrame {
    let greeting = b"OK MPD 0.23.5\n".to_vec();
    let answer = format!("{}OK\n", lines).into_bytes();
    let server = Recorded(VecDeque::from(vec![greeting, answer]));
    let mut connection = Connection::connect(server).expect("greeting");
    let response = connection.receive().expect("answer").expect("not closed");
    response.into_single_frame().expect("one frame")
}

fn song(file: &str, others: &[(&str, &str)]) -> Song {
    Song {
        file: file.to_string(),
        fields: fields(others),
    }
}

const STATUS: [(&str, &str); 9] = [
    ("volume", "42"),
    ("repeat", "0"),
    ("random", "1"),
    ("single", "oneshot"),
    ("consume", "0"),
    ("playlist", "17"),
    ("playlistlength", "3"),
    ("mixrampdb", "0"),
    ("state", "pause"),
];

const STATS: [(&str, &str); 7] = [
    ("uptime", "3600"),
    ("playtime", "1800"),
    ("artists", "12"),
    ("albums", "34"),
    ("songs", "567"),
    ("db_playtime", "123456"),
    ("db_update", "1700000000"),
];

fn without(pairs: &[(&'static str, &'static str)], key: &str) -> Vec<Field> {
    let kept: Vec<_> = pairs.iter().filter(|(k, _)| *k != key).cloned().collect();
    fields(&kept)
}

fn with(pairs: &[(&'static str, &'static str)], key: &str, value: &str) -> Vec<Field> {
    pairs
        .iter()
        .map(|(k, v)| {
            if *k == key {
                (k.to_string(), value.to_string())
            } else {
                (k.to_string(), v.to_string())
            }
        })
        .collect()
}

#[test]
fn the_first_value_of_a_key_is_found() {
    let all = fields(&[("a", "1"), ("b", "2"), ("a", "3"), ("", "4")]);
    assert_eq!(find(&all, "a"), Some("1"));
    assert_eq!(find(&all, "b"), Some("2"));
    assert_eq!(find(&all, ""), Some("4"));
    assert_eq!(find(&all, "c"), None);
    assert_eq!(find(&all, "A"), None);
    assert_eq!(find(&Vec::new(), "a"), None);
}

#[test]
fn empty_is_read_from_any_answer() {
    assert_eq!(Empty::from_fields(&Vec::new()), Ok(Empty));
    assert_eq!(Empty::from_fields(&fields(&[("volume", "1")])), Ok(Empty));
    assert_eq!(decode_frame::<Empty>(&frame("")), Ok(Empty));
}

#[test]
fn current_song_of_an_empty_queue_is_absent() {
    assert_eq!(Option::<Song>::from_fields(&Vec::new()), Ok(None));
    assert_eq!(decode_frame::<Option<Song>>(&frame("")), Ok(None));
}

#[test]
fn current_song_is_read() {
    let answer = fields(&[("file", "a.flac"), ("Title", "A"), ("Id", "7")]);
    assert_eq!(
        Option::<Song>::from_fields(&answer),
        Ok(Some(song("a.flac", &[("Title", "A"), ("Id", "7")])))
    );
    assert_eq!(
        decode_frame::<Option<Song>>(&frame("file: a.flac\nTitle: A\nId: 7\n")),
        Ok(Some(song("a.flac", &[("Title", "A"), ("Id", "7")])))
    );
}

#[test]
fn current_song_refuses_two_songs() {
    let answer = fields(&[("file", "a.flac"), ("file", "b.flac")]);
    assert_eq!(
        Option::<Song>::from_fields(&answer),
        Err(DecodeError::UnexpectedField)
    );
}

#[test]
fn current_song_refuses_a_field_in_front_of_the_song() {
    let answer = fields(&[("Title", "A"), ("file", "a.flac")]);
    assert_eq!(
        Option::<Song>::from_fields(&answer),
        Err(DecodeError::UnexpectedField)
    );
}

#[test]
fn queue_of_no_song_is_empty() {
    assert_eq!(Vec::<Song>::from_fields(&Vec::new()), Ok(Vec::new()));
    assert_eq!(decode_frame::<Vec<Song>>(&frame("")), Ok(Vec::new()));
}

#[test]
fn queue_keeps_order_and_length() {
    let answer = fields(&[
        ("file", "c.flac"),
        ("Title", "C"),
        ("Pos", "0"),
        ("file", "a.flac"),
        ("file", "b.flac"),
        ("Title", "B"),
        ("file", "a.flac"),
        ("Pos", "3"),
    ]);
    let songs = Vec::<Song>::from_fields(&answer).expect("songs");
    assert_eq!(
        songs,
        vec![
            song("c.flac", &[("Title", "C"), ("Pos", "0")]),
            song("a.flac", &[]),
            song("b.flac", &[("Title", "B")]),
            song("a.flac", &[("Pos", "3")]),
        ]
    );
}

#[test]
fn queue_is_read_from_a_frame() {
    let lines = "file: c.flac\nTitle: C\nfile: a.flac\nfile: b.flac\nTitle: B\n";
    assert_eq!(
        decode_frame::<Vec<Song>>(&frame(lines)),
        Ok(vec![
            song("c.flac", &[("Title", "C")]),
            song("a.flac", &[]),
            song("b.flac", &[("Title", "B")]),
        ])
    );
}

#[test]
fn queue_holds_every_field_of_the_answer() {
    let answer = fields(&[
        ("file", "c.flac"),
        ("Title", "C"),
        ("file", "a.flac"),
        ("Artist", "X"),
        ("Artist", "Y"),
    ]);
    let songs = Vec::<Song>::from_fields(&answer).expect("songs");
    let mut back = Vec::new();
    for song in &songs {
        back.push(("file".to_string(), song.file.clone()));
        back.extend(song.fields.iter().cloned());
    }
    assert_eq!(back, answer);
}

#[test]
fn queue_refuses_a_field_in_front_of_the_first_song() {
    let answer = fields(&[("Title", "C"), ("file", "c.flac")]);
    assert_eq!(
        Vec::<Song>::from_fields(&answer),
        Err(DecodeError::UnexpectedField)
    );
    assert_eq!(
        Vec::<Song>::from_fields(&fields(&[("File", "c.flac")])),
        Err(DecodeError::UnexpectedField)
    );
    assert_eq!(
        decode_frame::<Vec<Song>>(&frame("Title: C\nfile: c.flac\n")),
        Err(DecodeError::UnexpectedField)
    );
}

#[test]
fn status_is_read() {
    let expected = Status {
        volume: Some(42),
        state: PlayState::Paused,
        repeat: false,
        random: true,
        consume: false,
        single: SingleMode::Oneshot,
        playlist_length: 3,
    };
    assert_eq!(Status::from_fields(&fields(&STATUS)), Ok(expected));
    let lines: String = STATUS
        .iter()
        .map(|(key, value)| format!("{}: {}\n", key, value))
        .collect();
    assert_eq!(decode_frame::<Status>(&frame(&lines)), Ok(expected));
}

#[test]
fn status_without_a_mixer_has_no_volume() {
    let status = Status::from_fields(&without(&STATUS, "volume")).expect("status");
    assert_eq!(status.volume, None);
    assert_eq!(status.state, PlayState::Paused);
}

#[test]
fn status_takes_the_first_of_two_values() {
    let mut answer = fields(&STATUS);
    answer.push(("state".to_string(), "play".to_string()));
    answer.push(("volume".to_string(), "7".to_string()));
    let status = Status::from_fields(&answer).expect("status");
    assert_eq!(status.state, PlayState::Paused);
    assert_eq!(status.volume, Some(42));
}

#[test]
fn status_with_a_missing_field_is_refused() {
    for key in ["state", "repeat", "random", "consume", "single", "playlistlength"] {
        assert_eq!(
            Status::from_fields(&without(&STATUS, key)),
            Err(DecodeError::MissingField),
            "{}",
            key
        );
    }
    assert_eq!(
        Status::from_fields(&Vec::new()),
        Err(DecodeError::MissingField)
    );
}

#[test]
fn status_with_a_malformed_value_is_refused() {
    let cases = [
        ("volume", "101"),
        ("volume", "-1"),
        ("volume", "loud"),
        ("state", "playing"),
        ("repeat", "true"),
        ("random", "2"),
        ("consume", ""),
        ("single", "once"),
        ("playlistlength", "3.0"),
        ("playlistlength", "18446744073709551616"),
    ];
    for (key, value) in cases {
        assert_eq!(
            Status::from_fields(&with(&STATUS, key, value)),
            Err(DecodeError::InvalidValue),
            "{}: {}",
            key,
            value
        );
    }
}

#[test]
fn status_reports_the_first_fault_in_its_order() {
    let mut answer = with(&STATUS, "volume", "loud");
    answer.retain(|(key, _)| key != "state");
    assert_eq!(
        Status::from_fields(&answer),
        Err(DecodeError::InvalidValue)
    );
    let mut answer = with(&STATUS, "playlistlength", "many");
    answer.retain(|(key, _)| key != "repeat");
    assert_eq!(
        Status::from_fields(&answer),
        Err(DecodeError::MissingField)
    );
}

#[test]
fn status_volume_bounds() {
    let status = Status::from_fields(&with(&STATUS, "volume", "0")).expect("status");
    assert_eq!(status.volume, Some(0));
    let status = Status::from_fields(&with(&STATUS, "volume", "100")).expect("status");
    assert_eq!(status.volume, Some(100));
}

#[test]
fn stats_are_read() {
    let expected = Stats {
        artists: 12,
        albums: 34,
        songs: 567,
        uptime: 3600,
        playtime: 1800,
        db_playtime: 123_456,
        db_last_update: 1_700_000_000,
    };
    assert_eq!(Stats::from_fields(&fields(&STATS)), Ok(expected));
    let lines: String = STATS
        .iter()
        .map(|(key, value)| format!("{}: {}\n", key, value))
        .collect();
    assert_eq!(decode_frame::<Stats>(&frame(&lines)), Ok(expected));
}

#[test]
fn stats_with_a_missing_field_are_refused() {
    for (key, _) in STATS {
        assert_eq!(
            Stats::from_fields(&without(&STATS, key)),
            Err(DecodeError::MissingField),
            "{}",
            key
        );
    }
}

#[test]
fn stats_with_a_malformed_value_are_refused() {
    for (key, _) in STATS {
        assert_eq!(
            Stats::from_fields(&with(&STATS, key, "x")),
            Err(DecodeError::InvalidValue),
            "{}",
            key
        );
    }
}

#[test]
fn a_frame_hands_out_its_fields_in_order() {
    let lines = "b: 2\na: 1\nb: 3\n";
    let songs = decode_frame::<Vec<Song>>(&frame(&format!("file: x\n{}", lines))).expect("songs");
    assert_eq!(songs, vec![song("x", &[("b", "2"), ("a", "1"), ("b", "3")])]);
}

#[test]
fn all_values_of_a_key_are_found_in_order() {
    let all = fields(&[("a", "1"), ("b", "2"), ("a", "3"), ("a", "1")]);
    assert_eq!(find_all(&all, "a"), vec!["1", "3", "1"]);
    assert_eq!(find_all(&all, "b"), vec!["2"]);
    assert!(find_all(&all, "c").is_empty());
    assert!(find_all(&Vec::new(), "a").is_empty());
}

#[test]
fn a_song_has_its_title_and_artists() {
    let one = song(
        "a.flac",
        &[("Artist", "X"), ("Title", "A"), ("Artist", "Y"), ("Title", "B")],
    );
    assert_eq!(one.title(), Some("A"));
    assert_eq!(one.artists(), vec!["X", "Y"]);
    let bare = song("b.flac", &[("title", "lower")]);
    assert_eq!(bare.title(), None);
    assert!(bare.artists().is_empty());
}

#[test]
fn an_answer_is_read_as_what_the_command_is_paired_with() {
    assert_eq!(decode_answer::<ClearQueue>(&frame("")), Ok(Empty));
    assert_eq!(
        decode_answer::<CurrentSong>(&frame("file: a.flac\n")),
        Ok(Some(song("a.flac", &[])))
    );
    assert_eq!(
        decode_answer::<Queue>(&frame("file: a.flac\nfile: b.flac\n")),
        Ok(vec![song("a.flac", &[]), song("b.flac", &[])])
    );
    let lines: String = STATS
        .iter()
        .map(|(key, value)| format!("{}: {}\n", key, value))
        .collect();
    let stats = decode_answer::<mpd_client::commands::Stats>(&frame(&lines)).expect("stats");
    assert_eq!(stats.songs, 567);
    assert_eq!(
        decode_answer::<mpd_client::commands::Status>(&frame(&lines)),
        Err(DecodeError::MissingField)
    );
}

#[test]
fn notifications_are_read_from_an_answer() {
    let answer = fields(&[("changed", "player"), ("changed", "player"), ("other", "x"), ("changed", "mixer")]);
    let expected = vec![
        Notification::Changed("player".to_string()),
        Notification::Changed("player".to_string()),
        Notification::Malformed,
        Notification::Changed("mixer".to_string()),
    ];
    assert_eq!(notifications_of(&answer), expected);
    assert!(notifications_of(&Vec::new()).is_empty());
    assert_eq!(
        frame_notifications(&frame("changed: player\nchanged: player\nother: x\nchanged: mixer\n")),
        expected
    );
}
