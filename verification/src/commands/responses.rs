//! What the answers to commands are read as.
//!
//! An answer arrives as fields: keys with their values, in the order in
//! which the server sent them. Each kind of answer says which fields it
//! takes and what they mean. An answer of another shape is a
//! [`DecodeError`], which is not an error of the connection: the server was
//! reached and has answered.

use crate::raw::{fields_of, frame_fields};
use crate::values::{
    bool_of, number_of, parse_bool, parse_number, parse_play_state, parse_single_mode,
    play_state_of, single_mode_of,
};
use mpd_protocol::response::Frame as RawFrame;
use vstd::prelude::*;

verus! {

/// A field of an answer: a key and its value.
pub type Field = (String, String);

/// A field as text.
pub type FieldText = (Seq<char>, Seq<char>);

/// A song as text: where it is found, and its other fields.
pub type SongText = (Seq<char>, Seq<FieldText>);

/// Why an answer cannot be read as what the command asks for.
#[derive(Clone, Copy, Debug, PartialEq, Eq, Structural)]
pub enum DecodeError {
    /// A field that the answer must hold is missing.
    MissingField,
    /// The value of a field is not of the form that the field takes.
    InvalidValue,
    /// A field stands where the shape of the answer has no place for it.
    UnexpectedField,
}

/// The answer to a command that reports nothing but success.
#[derive(Clone, Copy, Debug, PartialEq, Eq, Structural)]
pub struct Empty;

/// How the server repeats a single song.
#[derive(Clone, Copy, Debug, PartialEq, Eq, Structural)]
pub enum SingleMode {
    /// The mode is on.
    Enabled,
    /// The mode is off.
    Disabled,
    /// The mode is on for the current song and switches itself off after it.
    Oneshot,
}

/// The name that the server gives a song in the queue. It stays with the
/// song while the song moves.
#[derive(Clone, Copy, Debug, PartialEq, Eq, Structural)]
pub struct SongId(pub u64);

/// What the player is doing.
#[derive(Clone, Copy, Debug, PartialEq, Eq, Structural)]
pub enum PlayState {
    /// Nothing is playing.
    Stopped,
    /// A song is playing.
    Playing,
    /// A song is held at its position.
    Paused,
}

/// The answer to the `status` command.
#[derive(Clone, Copy, Debug, PartialEq, Eq, Structural)]
pub struct Status {
    /// The volume, from 0 to 100: the field `volume`. A server without a
    /// mixer sends none.
    pub volume: Option<u8>,
    /// What the player is doing: the field `state`.
    pub state: PlayState,
    /// Whether the queue starts again at its end: the field `repeat`.
    pub repeat: bool,
    /// Whether songs are played in random order: the field `random`.
    pub random: bool,
    /// Whether a song leaves the queue once it was played: the field
    /// `consume`.
    pub consume: bool,
    /// How a single song is repeated: the field `single`.
    pub single: SingleMode,
    /// The number of songs in the queue: the field `playlistlength`.
    pub playlist_length: u64,
}

/// The answer to the `stats` command.
#[derive(Clone, Copy, Debug, PartialEq, Eq, Structural)]
pub struct Stats {
    /// The number of artists in the database: the field `artists`.
    pub artists: u64,
    /// The number of albums in the database: the field `albums`.
    pub albums: u64,
    /// The number of songs in the database: the field `songs`.
    pub songs: u64,
    /// The seconds since the server started: the field `uptime`.
    pub uptime: u64,
    /// The seconds of music played since the server started: the field
    /// `playtime`.
    pub playtime: u64,
    /// The seconds of music in the database: the field `db_playtime`.
    pub db_playtime: u64,
    /// When the database was last changed, in seconds since 1970: the field
    /// `db_update`.
    pub db_last_update: u64,
}

/// A song as the server reports it.
#[derive(Clone, Debug, PartialEq, Eq)]
pub struct Song {
    /// Where the song is found: the value of its `file` field.
    pub file: String,
    /// The other fields of the song, in the order of the answer.
    pub fields: Vec<Field>,
}

impl Song {
    /// The song as text.
    pub open spec fn text(self) -> SongText {
        (self.file@, self.fields.deep_view())
    }

    /// The title of the song: the value of its first field `Title`.
    pub fn title(&self) -> (title: Option<&str>)
        ensures
            title matches Some(text) ==> first_value(self.text().1, "Title"@) == Some(text@),
            title is None ==> first_value(self.text().1, "Title"@) is None,
    {
        find(&self.fields, "Title")
    }

    /// The artists of the song: the values of its fields `Artist`, in the
    /// order of the answer.
    pub fn artists(&self) -> (artists: Vec<&str>)
        ensures
            artists.deep_view() == values_of(self.text().1, "Artist"@),
    {
        find_all(&self.fields, "Artist")
    }
}

/// A list of songs as text.
pub open spec fn songs_text(songs: Vec<Song>) -> Seq<SongText> {
    Seq::new(songs@.len(), |i: int| songs@[i].text())
}

/// The value of the first field with the given key, if there is one.
pub open spec fn first_value(fields: Seq<FieldText>, key: Seq<char>) -> Option<Seq<char>>
    decreases fields.len(),
{
    if fields.len() == 0 {
        None
    } else if fields[0].0 == key {
        Some(fields[0].1)
    } else {
        first_value(fields.drop_first(), key)
    }
}

/// The values of the fields with the given key, in the order of the answer.
pub open spec fn values_of(fields: Seq<FieldText>, key: Seq<char>) -> Seq<Seq<char>>
    decreases fields.len(),
{
    if fields.len() == 0 {
        seq![]
    } else if fields.last().0 == key {
        values_of(fields.drop_last(), key).push(fields.last().1)
    } else {
        values_of(fields.drop_last(), key)
    }
}

/// The number under a key that the answer must hold.
pub open spec fn number_field(fields: Seq<FieldText>, key: Seq<char>) -> Result<u64, DecodeError> {
    match first_value(fields, key) {
        None => Err(DecodeError::MissingField),
        Some(text) => match number_of(text) {
            Some(number) => Ok(number),
            None => Err(DecodeError::InvalidValue),
        },
    }
}

/// The boolean under a key that the answer must hold.
pub open spec fn bool_field(fields: Seq<FieldText>, key: Seq<char>) -> Result<bool, DecodeError> {
    match first_value(fields, key) {
        None => Err(DecodeError::MissingField),
        Some(text) => match bool_of(text) {
            Some(flag) => Ok(flag),
            None => Err(DecodeError::InvalidValue),
        },
    }
}

/// The play state under the key `state`, which the answer must hold.
pub open spec fn state_field(fields: Seq<FieldText>) -> Result<PlayState, DecodeError> {
    match first_value(fields, "state"@) {
        None => Err(DecodeError::MissingField),
        Some(text) => match play_state_of(text) {
            Some(state) => Ok(state),
            None => Err(DecodeError::InvalidValue),
        },
    }
}

/// The single mode under the key `single`, which the answer must hold.
pub open spec fn single_field(fields: Seq<FieldText>) -> Result<SingleMode, DecodeError> {
    match first_value(fields, "single"@) {
        None => Err(DecodeError::MissingField),
        Some(text) => match single_mode_of(text) {
            Some(mode) => Ok(mode),
            None => Err(DecodeError::InvalidValue),
        },
    }
}

/// The volume under the key `volume`, which the answer may leave out: a
/// number from 0 to 100.
pub open spec fn volume_field(fields: Seq<FieldText>) -> Result<Option<u8>, DecodeError> {
    match first_value(fields, "volume"@) {
        None => Ok(None),
        Some(text) => match number_of(text) {
            Some(number) => if number <= 100 {
                Ok(Some(number as u8))
            } else {
                Err(DecodeError::InvalidValue)
            },
            None => Err(DecodeError::InvalidValue),
        },
    }
}

/// What the fields of an answer say as a status. The fields are read in the
/// order `volume`, `state`, `repeat`, `random`, `consume`, `single`,
/// `playlistlength`, and the first that is missing or malformed gives the
/// error.
pub open spec fn status_of(fields: Seq<FieldText>) -> Result<Status, DecodeError> {
    let volume = volume_field(fields);
    let state = state_field(fields);
    let repeat = bool_field(fields, "repeat"@);
    let random = bool_field(fields, "random"@);
    let consume = bool_field(fields, "consume"@);
    let single = single_field(fields);
    let playlist_length = number_field(fields, "playlistlength"@);
    if volume is Err {
        Err(volume->Err_0)
    } else if state is Err {
        Err(state->Err_0)
    } else if repeat is Err {
        Err(repeat->Err_0)
    } else if random is Err {
        Err(random->Err_0)
    } else if consume is Err {
        Err(consume->Err_0)
    } else if single is Err {
        Err(single->Err_0)
    } else if playlist_length is Err {
        Err(playlist_length->Err_0)
    } else {
        Ok(
            Status {
                volume: volume->Ok_0,
                state: state->Ok_0,
                repeat: repeat->Ok_0,
                random: random->Ok_0,
                consume: consume->Ok_0,
                single: single->Ok_0,
                playlist_length: playlist_length->Ok_0,
            },
        )
    }
}

/// What the fields of an answer say as statistics. The fields are read in
/// the order `artists`, `albums`, `songs`, `uptime`, `playtime`,
/// `db_playtime`, `db_update`, and the first that is missing or malformed
/// gives the error.
pub open spec fn stats_of(fields: Seq<FieldText>) -> Result<Stats, DecodeError> {
    let artists = number_field(fields, "artists"@);
    let albums = number_field(fields, "albums"@);
    let songs = number_field(fields, "songs"@);
    let uptime = number_field(fields, "uptime"@);
    let playtime = number_field(fields, "playtime"@);
    let db_playtime = number_field(fields, "db_playtime"@);
    let db_last_update = number_field(fields, "db_update"@);
    if artists is Err {
        Err(artists->Err_0)
    } else if albums is Err {
        Err(albums->Err_0)
    } else if songs is Err {
        Err(songs->Err_0)
    } else if uptime is Err {
        Err(uptime->Err_0)
    } else if playtime is Err {
        Err(playtime->Err_0)
    } else if db_playtime is Err {
        Err(db_playtime->Err_0)
    } else if db_last_update is Err {
        Err(db_last_update->Err_0)
    } else {
        Ok(
            Stats {
                artists: artists->Ok_0,
                albums: albums->Ok_0,
                songs: songs->Ok_0,
                uptime: uptime->Ok_0,
                playtime: playtime->Ok_0,
                db_playtime: db_playtime->Ok_0,
                db_last_update: db_last_update->Ok_0,
            },
        )
    }
}

/// What the fields of an answer say as a list of songs. Each field `file`
/// opens a song, and the fields up to the next `file` belong to it. A field
/// in front of the first `file` belongs to no song and is an error.
pub open spec fn songs_of(fields: Seq<FieldText>) -> Result<Seq<SongText>, DecodeError>
    decreases fields.len(),
{
    if fields.len() == 0 {
        Ok(seq![])
    } else {
        let field = fields.last();
        match songs_of(fields.drop_last()) {
            Err(error) => Err(error),
            Ok(songs) => if field.0 == "file"@ {
                Ok(songs.push((field.1, seq![])))
            } else if songs.len() == 0 {
                Err(DecodeError::UnexpectedField)
            } else {
                Ok(songs.drop_last().push((songs.last().0, songs.last().1.push(field))))
            },
        }
    }
}

/// What the fields of an answer say as one song or none: no song where
/// there is no field, the song where there is one song, and an error where
/// there are more.
pub open spec fn song_of(fields: Seq<FieldText>) -> Result<Option<SongText>, DecodeError> {
    match songs_of(fields) {
        Err(error) => Err(error),
        Ok(songs) => if songs.len() == 0 {
            Ok(None)
        } else if songs.len() == 1 {
            Ok(Some(songs[0]))
        } else {
            Err(DecodeError::UnexpectedField)
        },
    }
}

/// The fields that a list of songs stands for: for each song its `file`
/// field, then its other fields.
pub open spec fn fields_of_songs(songs: Seq<SongText>) -> Seq<FieldText>
    decreases songs.len(),
{
    if songs.len() == 0 {
        seq![]
    } else {
        fields_of_songs(songs.drop_last()) + seq![("file"@, songs.last().0)] + songs.last().1
    }
}

/// An answer is a list of songs unless it begins with a field that is no
/// `file`.
pub proof fn lemma_songs_are_read_from_file_on(fields: Seq<FieldText>)
    ensures
        songs_of(fields) is Err <==> fields.len() > 0 && fields[0].0 != "file"@,
        songs_of(fields) matches Err(error) ==> error == DecodeError::UnexpectedField,
        songs_of(fields) matches Ok(songs) ==> (songs.len() == 0 <==> fields.len() == 0),
    decreases fields.len(),
{
    if fields.len() > 0 {
        lemma_songs_are_read_from_file_on(fields.drop_last());
        if fields.len() > 1 {
            assert(fields.drop_last()[0] == fields[0]);
        }
    }
}

/// An answer with no field holds no song, and that is no error.
pub proof fn lemma_no_field_is_no_song()
    ensures
        song_of(seq![]) == Ok::<Option<SongText>, DecodeError>(None),
        songs_of(seq![]) == Ok::<Seq<SongText>, DecodeError>(seq![]),
{
}

/// A list of songs has one song for each field `file` of the answer, in the
/// order of the answer.
pub proof fn lemma_songs_keep_order(fields: Seq<FieldText>)
    requires
        songs_of(fields) is Ok,
    ensures
        songs_of(fields)->Ok_0.len() == values_of(fields, "file"@).len(),
        forall|i: int|
            0 <= i < values_of(fields, "file"@).len() ==> (#[trigger] songs_of(fields)->Ok_0[i]).0
                == values_of(fields, "file"@)[i],
    decreases fields.len(),
{
    if fields.len() > 0 {
        lemma_songs_keep_order(fields.drop_last());
        lemma_songs_are_read_from_file_on(fields.drop_last());
    }
}

/// A list of songs holds every field of the answer, each in its song, in
/// the order of the answer.
pub proof fn lemma_songs_hold_every_field(fields: Seq<FieldText>)
    requires
        songs_of(fields) is Ok,
    ensures
        fields_of_songs(songs_of(fields)->Ok_0) == fields,
    decreases fields.len(),
{
    if fields.len() > 0 {
        let before = fields.drop_last();
        let field = fields.last();
        lemma_songs_hold_every_field(before);
        let songs = songs_of(before)->Ok_0;
        let after = songs_of(fields)->Ok_0;
        if field.0 == "file"@ {
            assert(after.drop_last() =~= songs);
            assert(fields_of_songs(after) =~= before + seq![field]);
        } else {
            assert(after.drop_last() =~= songs.drop_last());
            assert(fields_of_songs(after) =~= fields_of_songs(songs) + seq![field]);
        }
        assert(before + seq![field] =~= fields);
    }
}

/// A kind of answer: a type that the fields of an answer can be read as.
pub trait Response: Sized {
    /// The mathematical value of an answer of this kind.
    type Model;

    /// The mathematical value of this answer.
    spec fn model(self) -> Self::Model;

    /// What the fields of an answer say as an answer of this kind.
    spec fn decoded(fields: Seq<FieldText>) -> Result<Self::Model, DecodeError>;

    /// Reads the fields of an answer.
    fn from_fields(fields: &Vec<Field>) -> (answer: Result<Self, DecodeError>)
        ensures
            answer matches Ok(value) ==> Self::decoded(fields.deep_view()) == Ok::<
                Self::Model,
                DecodeError,
            >(value.model()),
            answer matches Err(error) ==> Self::decoded(fields.deep_view()) == Err::<
                Self::Model,
                DecodeError,
            >(error),
    ;
}

/// Reads a frame of the protocol crate as an answer of the kind asked for.
pub fn decode_frame<R: Response>(frame: &RawFrame) -> (answer: Result<R, DecodeError>)
    ensures
        answer matches Ok(value) ==> R::decoded(frame_fields(*frame)) == Ok::<
            R::Model,
            DecodeError,
        >(value.model()),
        answer matches Err(error) ==> R::decoded(frame_fields(*frame)) == Err::<
            R::Model,
            DecodeError,
        >(error),
{
    let fields = fields_of(frame);
    R::from_fields(&fields)
}

/// Finds the value of the first field with the given key.
pub fn find<'a>(fields: &'a Vec<Field>, key: &str) -> (value: Option<&'a str>)
    ensures
        value matches Some(text) ==> first_value(fields.deep_view(), key@) == Some(text@),
        value is None ==> first_value(fields.deep_view(), key@) is None,
{
    let ghost all = fields.deep_view();
    let mut i: usize = 0;
    assert(all.skip(0) =~= all);
    while i < fields.len()
        invariant
            i <= fields.len(),
            all == fields.deep_view(),
            first_value(all, key@) == first_value(all.skip(i as int), key@),
        decreases fields.len() - i,
    {
        let field = &fields[i];
        proof {
            assert(all.skip(i as int)[0] == all[i as int]);
            assert(all[i as int] == (field.0@, field.1@));
            assert(all.skip(i as int).drop_first() =~= all.skip(i + 1));
        }
        if *field.0.as_str() == *key {
            return Some(field.1.as_str());
        }
        i += 1;
    }
    None
}

/// Finds the values of all fields with the given key, in the order of the
/// answer.
pub fn find_all<'a>(fields: &'a Vec<Field>, key: &str) -> (values: Vec<&'a str>)
    ensures
        values.deep_view() == values_of(fields.deep_view(), key@),
{
    let ghost all = fields.deep_view();
    let mut values: Vec<&'a str> = Vec::new();
    let mut i: usize = 0;
    assert(all.take(0) =~= Seq::<FieldText>::empty());
    assert(values.deep_view() =~= Seq::<Seq<char>>::empty());
    while i < fields.len()
        invariant
            i <= fields.len(),
            all == fields.deep_view(),
            values.deep_view() == values_of(all.take(i as int), key@),
        decreases fields.len() - i,
    {
        let field = &fields[i];
        let ghost before = values.deep_view();
        proof {
            assert(all.take(i + 1).drop_last() =~= all.take(i as int));
            assert(all.take(i + 1).last() == (field.0@, field.1@));
        }
        if *field.0.as_str() == *key {
            values.push(field.1.as_str());
            assert(values.deep_view() =~= before.push(field.1@));
        }
        i += 1;
    }
    proof {
        assert(all.take(i as int) =~= all);
    }
    values
}

fn read_number(fields: &Vec<Field>, key: &str) -> (number: Result<u64, DecodeError>)
    ensures
        number == number_field(fields.deep_view(), key@),
{
    match find(fields, key) {
        None => Err(DecodeError::MissingField),
        Some(text) => match parse_number(text) {
            Some(number) => Ok(number),
            None => Err(DecodeError::InvalidValue),
        },
    }
}

fn read_bool(fields: &Vec<Field>, key: &str) -> (flag: Result<bool, DecodeError>)
    ensures
        flag == bool_field(fields.deep_view(), key@),
{
    match find(fields, key) {
        None => Err(DecodeError::MissingField),
        Some(text) => match parse_bool(text) {
            Some(flag) => Ok(flag),
            None => Err(DecodeError::InvalidValue),
        },
    }
}

fn read_state(fields: &Vec<Field>) -> (state: Result<PlayState, DecodeError>)
    ensures
        state == state_field(fields.deep_view()),
{
    match find(fields, "state") {
        None => Err(DecodeError::MissingField),
        Some(text) => match parse_play_state(text) {
            Some(state) => Ok(state),
            None => Err(DecodeError::InvalidValue),
        },
    }
}

fn read_single(fields: &Vec<Field>) -> (mode: Result<SingleMode, DecodeError>)
    ensures
        mode == single_field(fields.deep_view()),
{
    match find(fields, "single") {
        None => Err(DecodeError::MissingField),
        Some(text) => match parse_single_mode(text) {
            Some(mode) => Ok(mode),
            None => Err(DecodeError::InvalidValue),
        },
    }
}

fn read_volume(fields: &Vec<Field>) -> (volume: Result<Option<u8>, DecodeError>)
    ensures
        volume == volume_field(fields.deep_view()),
{
    match find(fields, "volume") {
        None => Ok(None),
        Some(text) => match parse_number(text) {
            Some(number) => if number <= 100 {
                Ok(Some(number as u8))
            } else {
                Err(DecodeError::InvalidValue)
            },
            None => Err(DecodeError::InvalidValue),
        },
    }
}

impl Response for Empty {
    type Model = Empty;

    open spec fn model(self) -> Empty {
        self
    }

    /// Whatever the answer holds, the command has succeeded.
    open spec fn decoded(fields: Seq<FieldText>) -> Result<Empty, DecodeError> {
        Ok(Empty)
    }

    fn from_fields(fields: &Vec<Field>) -> (answer: Result<Empty, DecodeError>) {
        Ok(Empty)
    }
}

impl Response for Status {
    type Model = Status;

    open spec fn model(self) -> Status {
        self
    }

    open spec fn decoded(fields: Seq<FieldText>) -> Result<Status, DecodeError> {
        status_of(fields)
    }

    fn from_fields(fields: &Vec<Field>) -> (answer: Result<Status, DecodeError>) {
        let volume = read_volume(fields)?;
        let state = read_state(fields)?;
        let repeat = read_bool(fields, "repeat")?;
        let random = read_bool(fields, "random")?;
        let consume = read_bool(fields, "consume")?;
        let single = read_single(fields)?;
        let playlist_length = read_number(fields, "playlistlength")?;
        Ok(Status { volume, state, repeat, random, consume, single, playlist_length })
    }
}

impl Response for Stats {
    type Model = Stats;

    open spec fn model(self) -> Stats {
        self
    }

    open spec fn decoded(fields: Seq<FieldText>) -> Result<Stats, DecodeError> {
        stats_of(fields)
    }

    fn from_fields(fields: &Vec<Field>) -> (answer: Result<Stats, DecodeError>) {
        let artists = read_number(fields, "artists")?;
        let albums = read_number(fields, "albums")?;
        let songs = read_number(fields, "songs")?;
        let uptime = read_number(fields, "uptime")?;
        let playtime = read_number(fields, "playtime")?;
        let db_playtime = read_number(fields, "db_playtime")?;
        let db_last_update = read_number(fields, "db_update")?;
        Ok(Stats { artists, albums, songs, uptime, playtime, db_playtime, db_last_update })
    }
}

impl Response for Vec<Song> {
    type Model = Seq<SongText>;

    open spec fn model(self) -> Seq<SongText> {
        songs_text(self)
    }

    open spec fn decoded(fields: Seq<FieldText>) -> Result<Seq<SongText>, DecodeError> {
        songs_of(fields)
    }

    fn from_fields(fields: &Vec<Field>) -> (answer: Result<Vec<Song>, DecodeError>) {
        let ghost all = fields.deep_view();
        let mut songs: Vec<Song> = Vec::new();
        let mut i: usize = 0;
        assert(all.take(0) =~= Seq::<FieldText>::empty());
        assert(songs_text(songs) =~= Seq::<SongText>::empty());
        while i < fields.len()
            invariant
                i <= fields.len(),
                all == fields.deep_view(),
                songs_of(all.take(i as int)) == Ok::<Seq<SongText>, DecodeError>(
                    songs_text(songs),
                ),
            decreases fields.len() - i,
        {
            let field = &fields[i];
            let ghost before = songs_text(songs);
            proof {
                assert(all.take(i + 1).drop_last() =~= all.take(i as int));
                assert(all.take(i + 1).last() == (field.0@, field.1@));
            }
            if *field.0.as_str() == *"file" {
                songs.push(Song { file: field.1.clone(), fields: Vec::new() });
                proof {
                    let pushed = (field.1@, Seq::<FieldText>::empty());
                    assert(songs@.last().fields.deep_view() =~= Seq::<FieldText>::empty());
                    assert(songs_text(songs) =~= before.push(pushed));
                }
            } else {
                match songs.pop() {
                    None => {
                        proof {
                            lemma_songs_reach_the_end(all, i + 1);
                        }
                        return Err(DecodeError::UnexpectedField);
                    },
                    Some(last) => {
                        let ghost last_text = last.text();
                        let ghost shorter = songs_text(songs);
                        let mut others = last.fields;
                        others.push((field.0.clone(), field.1.clone()));
                        songs.push(Song { file: last.file, fields: others });
                        proof {
                            assert(shorter =~= before.drop_last());
                            assert(last_text == before.last());
                            assert(songs@.last().fields.deep_view() =~= last_text.1.push(
                                (field.0@, field.1@),
                            ));
                            assert(songs_text(songs) =~= shorter.push(
                                (last_text.0, last_text.1.push((field.0@, field.1@))),
                            ));
                        }
                    },
                }
            }
            i += 1;
        }
        proof {
            assert(all.take(i as int) =~= all);
        }
        Ok(songs)
    }
}

/// An error in front stays: what is no list of songs does not become one
/// when more fields follow.
proof fn lemma_songs_reach_the_end(fields: Seq<FieldText>, k: int)
    requires
        0 <= k <= fields.len(),
        songs_of(fields.take(k)) is Err,
    ensures
        songs_of(fields) == songs_of(fields.take(k)),
    decreases fields.len(),
{
    if k == fields.len() {
        assert(fields.take(k) =~= fields);
    } else {
        assert(fields.drop_last().take(k) =~= fields.take(k));
        lemma_songs_reach_the_end(fields.drop_last(), k);
        lemma_songs_are_read_from_file_on(fields.take(k));
    }
}

impl Response for Option<Song> {
    type Model = Option<SongText>;

    open spec fn model(self) -> Option<SongText> {
        match self {
            Some(song) => Some(song.text()),
            None => None,
        }
    }

    open spec fn decoded(fields: Seq<FieldText>) -> Result<Option<SongText>, DecodeError> {
        song_of(fields)
    }

    fn from_fields(fields: &Vec<Field>) -> (answer: Result<Option<Song>, DecodeError>) {
        let mut songs = Vec::<Song>::from_fields(fields)?;
        if songs.len() > 1 {
            return Err(DecodeError::UnexpectedField);
        }
        let ghost texts = songs_text(songs);
        let song = songs.pop();
        proof {
            if song is Some {
                assert(song->Some_0.text() == texts[0]);
            }
        }
        Ok(song)
    }
}

} // verus!
