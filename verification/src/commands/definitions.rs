//! Definitions of commands.

use super::responses::{Empty, SingleMode, SongId};
use super::TypedCommand;
use crate::arguments::{
    bool_token, clamped_volume, decimal, decimal_text, duration_nanos, duration_seconds,
    lemma_bool_token_is_plain, lemma_decimal_text_is_plain, lemma_millis_text_is_plain,
    render_seconds, render_signed_time, render_time, render_volume, rounded_millis, seconds_token,
    signed_time_token, time_token, volume_token, Argument,
};
use crate::raw::{
    lemma_line_of_none, lemma_line_of_one, lemma_name_is_accepted, line_of_one, line_of_two,
    request_line,
};
use mpd_protocol::Command as RawCommand;
use std::time::Duration;
use vstd::prelude::*;

verus! {

/// `next` command
#[derive(Clone, Copy, Debug, PartialEq, Eq)]
pub struct Next;

impl TypedCommand for Next {
    type Response = Empty;

    open spec fn name(self) -> Seq<char> {
        "next"@
    }

    open spec fn arguments(self) -> Seq<Seq<char>> {
        seq![]
    }

    fn to_command(self) -> (raw: RawCommand) {
        proof {
            reveal_strlit("next");
            lemma_name_is_accepted("next"@);
            lemma_line_of_none("next"@);
        }
        RawCommand::new("next")
    }
}

/// `previous` command
#[derive(Clone, Copy, Debug, PartialEq, Eq)]
pub struct Previous;

impl TypedCommand for Previous {
    type Response = Empty;

    open spec fn name(self) -> Seq<char> {
        "previous"@
    }

    open spec fn arguments(self) -> Seq<Seq<char>> {
        seq![]
    }

    fn to_command(self) -> (raw: RawCommand) {
        proof {
            reveal_strlit("previous");
            lemma_name_is_accepted("previous"@);
            lemma_line_of_none("previous"@);
        }
        RawCommand::new("previous")
    }
}

/// `stop` command
#[derive(Clone, Copy, Debug, PartialEq, Eq)]
pub struct Stop;

impl TypedCommand for Stop {
    type Response = Empty;

    open spec fn name(self) -> Seq<char> {
        "stop"@
    }

    open spec fn arguments(self) -> Seq<Seq<char>> {
        seq![]
    }

    fn to_command(self) -> (raw: RawCommand) {
        proof {
            reveal_strlit("stop");
            lemma_name_is_accepted("stop"@);
            lemma_line_of_none("stop"@);
        }
        RawCommand::new("stop")
    }
}

/// `clear` command
#[derive(Clone, Copy, Debug, PartialEq, Eq)]
pub struct ClearQueue;

impl TypedCommand for ClearQueue {
    type Response = Empty;

    open spec fn name(self) -> Seq<char> {
        "clear"@
    }

    open spec fn arguments(self) -> Seq<Seq<char>> {
        seq![]
    }

    fn to_command(self) -> (raw: RawCommand) {
        proof {
            reveal_strlit("clear");
            lemma_name_is_accepted("clear"@);
            lemma_line_of_none("clear"@);
        }
        RawCommand::new("clear")
    }
}

/// `status` command
#[derive(Clone, Copy, Debug, PartialEq, Eq)]
pub struct Status;

impl TypedCommand for Status {
    type Response = super::responses::Status;

    open spec fn name(self) -> Seq<char> {
        "status"@
    }

    open spec fn arguments(self) -> Seq<Seq<char>> {
        seq![]
    }

    fn to_command(self) -> (raw: RawCommand) {
        proof {
            reveal_strlit("status");
            lemma_name_is_accepted("status"@);
            lemma_line_of_none("status"@);
        }
        RawCommand::new("status")
    }
}

/// `stats` command
#[derive(Clone, Copy, Debug, PartialEq, Eq)]
pub struct Stats;

impl TypedCommand for Stats {
    type Response = super::responses::Stats;

    open spec fn name(self) -> Seq<char> {
        "stats"@
    }

    open spec fn arguments(self) -> Seq<Seq<char>> {
        seq![]
    }

    fn to_command(self) -> (raw: RawCommand) {
        proof {
            reveal_strlit("stats");
            lemma_name_is_accepted("stats"@);
            lemma_line_of_none("stats"@);
        }
        RawCommand::new("stats")
    }
}

/// `playlistinfo` command
#[derive(Clone, Copy, Debug, PartialEq, Eq)]
pub struct Queue;

impl TypedCommand for Queue {
    type Response = Vec<super::responses::Song>;

    open spec fn name(self) -> Seq<char> {
        "playlistinfo"@
    }

    open spec fn arguments(self) -> Seq<Seq<char>> {
        seq![]
    }

    fn to_command(self) -> (raw: RawCommand) {
        proof {
            reveal_strlit("playlistinfo");
            lemma_name_is_accepted("playlistinfo"@);
            lemma_line_of_none("playlistinfo"@);
        }
        RawCommand::new("playlistinfo")
    }
}

/// `currentsong` command
#[derive(Clone, Copy, Debug, PartialEq, Eq)]
pub struct CurrentSong;

impl TypedCommand for CurrentSong {
    type Response = Option<super::responses::Song>;

    open spec fn name(self) -> Seq<char> {
        "currentsong"@
    }

    open spec fn arguments(self) -> Seq<Seq<char>> {
        seq![]
    }

    fn to_command(self) -> (raw: RawCommand) {
        proof {
            reveal_strlit("currentsong");
            lemma_name_is_accepted("currentsong"@);
            lemma_line_of_none("currentsong"@);
        }
        RawCommand::new("currentsong")
    }
}

/// `random` command
#[derive(Clone, Debug, PartialEq, Eq)]
pub struct SetRandom(pub bool);

impl TypedCommand for SetRandom {
    type Response = Empty;

    open spec fn name(self) -> Seq<char> {
        "random"@
    }

    open spec fn arguments(self) -> Seq<Seq<char>> {
        seq![bool_token(self.0)]
    }

    fn to_command(self) -> (raw: RawCommand) {
        let token = self.0.render();
        proof {
            reveal_strlit("random");
            lemma_name_is_accepted("random"@);
            lemma_bool_token_is_plain(self.0);
        }
        line_of_one("random", token.as_str())
    }
}

/// `consume` command
#[derive(Clone, Debug, PartialEq, Eq)]
pub struct SetConsume(pub bool);

impl TypedCommand for SetConsume {
    type Response = Empty;

    open spec fn name(self) -> Seq<char> {
        "consume"@
    }

    open spec fn arguments(self) -> Seq<Seq<char>> {
        seq![bool_token(self.0)]
    }

    fn to_command(self) -> (raw: RawCommand) {
        let token = self.0.render();
        proof {
            reveal_strlit("consume");
            lemma_name_is_accepted("consume"@);
            lemma_bool_token_is_plain(self.0);
        }
        line_of_one("consume", token.as_str())
    }
}

/// `repeat` command
#[derive(Clone, Debug, PartialEq, Eq)]
pub struct SetRepeat(pub bool);

impl TypedCommand for SetRepeat {
    type Response = Empty;

    open spec fn name(self) -> Seq<char> {
        "repeat"@
    }

    open spec fn arguments(self) -> Seq<Seq<char>> {
        seq![bool_token(self.0)]
    }

    fn to_command(self) -> (raw: RawCommand) {
        let token = self.0.render();
        proof {
            reveal_strlit("repeat");
            lemma_name_is_accepted("repeat"@);
            lemma_bool_token_is_plain(self.0);
        }
        line_of_one("repeat", token.as_str())
    }
}

/// `pause` command
#[derive(Clone, Debug, PartialEq, Eq)]
pub struct SetPause(pub bool);

impl TypedCommand for SetPause {
    type Response = Empty;

    open spec fn name(self) -> Seq<char> {
        "pause"@
    }

    open spec fn arguments(self) -> Seq<Seq<char>> {
        seq![bool_token(self.0)]
    }

    fn to_command(self) -> (raw: RawCommand) {
        let token = self.0.render();
        proof {
            reveal_strlit("pause");
            lemma_name_is_accepted("pause"@);
            lemma_bool_token_is_plain(self.0);
        }
        line_of_one("pause", token.as_str())
    }
}

/// `crossfade` command.
///
/// The given duration is truncated to the seconds.
#[derive(Clone, Copy, Debug, PartialEq, Eq)]
pub struct Crossfade(pub Duration);

impl TypedCommand for Crossfade {
    type Response = Empty;

    open spec fn name(self) -> Seq<char> {
        "crossfade"@
    }

    open spec fn arguments(self) -> Seq<Seq<char>> {
        seq![seconds_token(self.0)]
    }

    fn to_command(self) -> (raw: RawCommand) {
        let seconds = render_seconds(self.0);
        proof {
            reveal_strlit("crossfade");
            lemma_name_is_accepted("crossfade"@);
            lemma_decimal_text_is_plain(duration_seconds(self.0) as nat);
        }
        line_of_one("crossfade", seconds.as_str())
    }
}

/// `setvol` command.
///
/// Set the volume. The value is truncated to fit in the range `0..=100`.
#[derive(Clone, Copy, Debug, PartialEq, Eq)]
pub struct SetVolume(pub u8);

impl TypedCommand for SetVolume {
    type Response = Empty;

    open spec fn name(self) -> Seq<char> {
        "setvol"@
    }

    open spec fn arguments(self) -> Seq<Seq<char>> {
        seq![volume_token(self.0)]
    }

    fn to_command(self) -> (raw: RawCommand) {
        let volume = render_volume(self.0);
        proof {
            reveal_strlit("setvol");
            lemma_name_is_accepted("setvol"@);
            lemma_decimal_text_is_plain(clamped_volume(self.0) as nat);
        }
        line_of_one("setvol", volume.as_str())
    }
}

/// Whatever volume is asked for, the volume that is sent is the smaller of
/// it and 100, in decimal.
pub proof fn lemma_volume_is_clamped(volume: u8)
    ensures
        SetVolume(volume).arguments() == seq![
            decimal_text(
                if volume <= 100 {
                    volume as nat
                } else {
                    100
                },
            ),
        ],
        request_line(SetVolume(volume).name(), SetVolume(volume).arguments()) == "setvol"@ + seq![
            ' ',
        ] + decimal_text(
            if volume <= 100 {
                volume as nat
            } else {
                100
            },
        ),
{
    lemma_line_of_one("setvol"@, volume_token(volume));
}

/// The token of a single mode: `0` for off, `1` for on, `oneshot` for once.
pub open spec fn single_mode_token(mode: SingleMode) -> Seq<char> {
    match mode {
        SingleMode::Disabled => "0"@,
        SingleMode::Enabled => "1"@,
        SingleMode::Oneshot => "oneshot"@,
    }
}

/// `single` command.
#[derive(Clone, Copy, Debug, PartialEq, Eq)]
pub struct SetSingle(pub SingleMode);

impl TypedCommand for SetSingle {
    type Response = Empty;

    open spec fn name(self) -> Seq<char> {
        "single"@
    }

    open spec fn arguments(self) -> Seq<Seq<char>> {
        seq![single_mode_token(self.0)]
    }

    fn to_command(self) -> (raw: RawCommand) {
        let single = match self.0 {
            SingleMode::Disabled => "0",
            SingleMode::Enabled => "1",
            SingleMode::Oneshot => "oneshot",
        };
        proof {
            reveal_strlit("single");
            reveal_strlit("0");
            reveal_strlit("1");
            reveal_strlit("oneshot");
            lemma_name_is_accepted("single"@);
        }
        line_of_one("single", single)
    }
}

/// Modes to target a song with a command.
#[derive(Clone, Copy, Debug, PartialEq, Eq)]
pub enum Song {
    /// By ID
    Id(SongId),
    /// By position in the queue.
    Position(usize),
}

/// The token of a song: its ID or its position, in decimal.
pub open spec fn song_token(song: Song) -> Seq<char> {
    match song {
        Song::Id(id) => decimal_text(id.0 as nat),
        Song::Position(position) => decimal_text(position as nat),
    }
}

/// `seek` and `seekid` commands.
#[derive(Clone, Copy, Debug, PartialEq, Eq)]
pub struct SeekTo(pub Song, pub Duration);

impl TypedCommand for SeekTo {
    type Response = Empty;

    open spec fn name(self) -> Seq<char> {
        match self.0 {
            Song::Id(_) => "seekid"@,
            Song::Position(_) => "seek"@,
        }
    }

    open spec fn arguments(self) -> Seq<Seq<char>> {
        seq![song_token(self.0), time_token(self.1)]
    }

    fn to_command(self) -> (raw: RawCommand) {
        let (command, song_arg) = match self.0 {
            Song::Id(id) => ("seekid", decimal(id.0 as u128)),
            Song::Position(position) => ("seek", decimal(position as u128)),
        };
        let time = render_time(self.1);
        proof {
            let millis = rounded_millis(
                duration_seconds(self.1) as nat,
                duration_nanos(self.1) as nat,
            );
            reveal_strlit("seekid");
            reveal_strlit("seek");
            lemma_name_is_accepted("seekid"@);
            lemma_name_is_accepted("seek"@);
            lemma_millis_text_is_plain(millis, '+');
            match self.0 {
                Song::Id(id) => lemma_decimal_text_is_plain(id.0 as nat),
                Song::Position(position) => lemma_decimal_text_is_plain(position as nat),
            }
        }
        line_of_two(command, song_arg.as_str(), time.as_str())
    }
}

/// Possible ways to seek in the current song.
#[derive(Clone, Copy, Debug, PartialEq, Eq)]
pub enum SeekMode {
    /// Forwards from current position.
    Forward(Duration),
    /// Backwards from current position.
    Backward(Duration),
    /// To the absolute position in the current song.
    Absolute(Duration),
}

/// The token of a seek: the time, with `+` in front of a step forwards and
/// `-` in front of a step backwards.
pub open spec fn seek_token(mode: SeekMode) -> Seq<char> {
    match mode {
        SeekMode::Absolute(position) => time_token(position),
        SeekMode::Forward(time) => signed_time_token('+', time),
        SeekMode::Backward(time) => signed_time_token('-', time),
    }
}

/// `seekcur` command.
///
/// Seek in the current song.
#[derive(Clone, Copy, Debug, PartialEq, Eq)]
pub struct Seek(pub SeekMode);

impl TypedCommand for Seek {
    type Response = Empty;

    open spec fn name(self) -> Seq<char> {
        "seekcur"@
    }

    open spec fn arguments(self) -> Seq<Seq<char>> {
        seq![seek_token(self.0)]
    }

    fn to_command(self) -> (raw: RawCommand) {
        let time = match self.0 {
            SeekMode::Absolute(position) => render_time(position),
            SeekMode::Forward(time) => render_signed_time('+', time),
            SeekMode::Backward(time) => render_signed_time('-', time),
        };
        proof {
            reveal_strlit("seekcur");
            lemma_name_is_accepted("seekcur"@);
            let t = match self.0 {
                SeekMode::Absolute(t) => t,
                SeekMode::Forward(t) => t,
                SeekMode::Backward(t) => t,
            };
            let millis = rounded_millis(duration_seconds(t) as nat, duration_nanos(t) as nat);
            lemma_millis_text_is_plain(millis, '+');
            lemma_millis_text_is_plain(millis, '-');
        }
        line_of_one("seekcur", time.as_str())
    }
}

} // verus!
