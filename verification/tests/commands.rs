use mpd_client::commands::responses::{SingleMode, SongId};
use mpd_client::commands::{
    ClearQueue, Crossfade, CurrentSong, Next, Previous, Queue, Seek, SeekMode, SeekTo, SetConsume,
    SetPause, SetRandom, SetRepeat, SetSingle, SetVolume, Song, Stats, Status, Stop, TypedCommand,
};
use mpd_protocol::Command as RawCommand;
use std::time::Duration;

/// The request line that a raw command holds, as the protocol crate shows it.
fn line(raw: RawCommand) -> String {
    let shown = format!("{:?}", raw);
    let inner = shown
        .strip_prefix("Command(b\"")
        .and_then(|rest| rest.strip_suffix("\")"))
        .unwrap_or_else(|| panic!("unexpected form: {}", shown));
    inner.to_string()
}

#[test]
fn commands_without_arguments_render_their_name() {
    assert_eq!(line(Next.to_command()), "next");
    assert_eq!(line(Previous.to_command()), "previous");
    assert_eq!(line(Stop.to_command()), "stop");
    assert_eq!(line(ClearQueue.to_command()), "clear");
    assert_eq!(line(Status.to_command()), "status");
    assert_eq!(line(Stats.to_command()), "stats");
    assert_eq!(line(Queue.to_command()), "playlistinfo");
    assert_eq!(line(CurrentSong.to_command()), "currentsong");
}

#[test]
fn commands_without_arguments_equal_the_raw_command() {
    assert_eq!(Next.to_command(), RawCommand::new("next"));
    assert_eq!(Queue.to_command(), RawCommand::new("playlistinfo"));
    assert_eq!(CurrentSong.to_command(), RawCommand::new("currentsong"));
}

#[test]
fn boolean_commands_render_one_and_zero() {
    assert_eq!(line(SetRandom(true).to_command()), "random 1");
    assert_eq!(line(SetRandom(false).to_command()), "random 0");
    assert_eq!(line(SetConsume(true).to_command()), "consume 1");
    assert_eq!(line(SetConsume(false).to_command()), "consume 0");
    assert_eq!(line(SetRepeat(true).to_command()), "repeat 1");
    assert_eq!(line(SetRepeat(false).to_command()), "repeat 0");
    assert_eq!(line(SetPause(true).to_command()), "pause 1");
    assert_eq!(line(SetPause(false).to_command()), "pause 0");
}

#[test]
fn boolean_commands_equal_the_raw_command() {
    assert_eq!(
        SetPause(true).to_command(),
        RawCommand::new("pause").argument(true)
    );
    assert_eq!(
        SetRepeat(false).to_command(),
        RawCommand::new("repeat").argument("0")
    );
}

#[test]
fn set_volume_clamps_every_value() {
    for volume in 0..=255u8 {
        let expected = format!("setvol {}", volume.min(100));
        assert_eq!(line(SetVolume(volume).to_command()), expected);
    }
}

#[test]
fn set_volume_examples() {
    assert_eq!(line(SetVolume(150).to_command()), "setvol 100");
    assert_eq!(line(SetVolume(42).to_command()), "setvol 42");
    assert_eq!(line(SetVolume(0).to_command()), "setvol 0");
    assert_eq!(line(SetVolume(100).to_command()), "setvol 100");
    assert_eq!(line(SetVolume(101).to_command()), "setvol 100");
    assert_eq!(line(SetVolume(255).to_command()), "setvol 100");
}

#[test]
fn crossfade_drops_the_part_below_a_second() {
    assert_eq!(
        line(Crossfade(Duration::from_millis(2500)).to_command()),
        "crossfade 2"
    );
    assert_eq!(
        line(Crossfade(Duration::from_millis(999)).to_command()),
        "crossfade 0"
    );
    assert_eq!(
        line(Crossfade(Duration::new(59, 999_999_999)).to_command()),
        "crossfade 59"
    );
    assert_eq!(
        line(Crossfade(Duration::from_secs(u64::MAX)).to_command()),
        "crossfade 18446744073709551615"
    );
}

#[test]
fn seek_to_position_and_id() {
    assert_eq!(
        line(SeekTo(Song::Position(3), Duration::from_secs_f64(12.5)).to_command()),
        "seek 3 12.500"
    );
    assert_eq!(
        line(SeekTo(Song::Id(SongId(7)), Duration::from_secs_f64(1.0)).to_command()),
        "seekid 7 1.000"
    );
}

#[test]
fn seek_to_equals_the_raw_command() {
    let time = Duration::from_millis(12_500);
    assert_eq!(
        SeekTo(Song::Position(3), time).to_command(),
        RawCommand::new("seek").argument(3usize).argument(time)
    );
    assert_eq!(
        SeekTo(Song::Id(SongId(7)), time).to_command(),
        RawCommand::new("seekid").argument(7u64).argument("12.500")
    );
}

#[test]
fn seek_to_large_song_references() {
    assert_eq!(
        line(SeekTo(Song::Id(SongId(u64::MAX)), Duration::ZERO).to_command()),
        "seekid 18446744073709551615 0.000"
    );
    assert_eq!(
        line(SeekTo(Song::Position(usize::MAX), Duration::ZERO).to_command()),
        format!("seek {} 0.000", usize::MAX)
    );
}

#[test]
fn seek_in_the_current_song() {
    let time = Duration::from_secs_f64(2.25);
    assert_eq!(
        line(Seek(SeekMode::Forward(time)).to_command()),
        "seekcur +2.250"
    );
    assert_eq!(
        line(Seek(SeekMode::Backward(time)).to_command()),
        "seekcur -2.250"
    );
    assert_eq!(
        line(Seek(SeekMode::Absolute(time)).to_command()),
        "seekcur 2.250"
    );
}

#[test]
fn seek_rounds_to_the_nearest_millisecond() {
    let render = |secs: u64, nanos: u32| line(Seek(SeekMode::Absolute(Duration::new(secs, nanos))).to_command());
    assert_eq!(render(0, 0), "seekcur 0.000");
    assert_eq!(render(0, 499_999), "seekcur 0.000");
    assert_eq!(render(0, 500_001), "seekcur 0.001");
    assert_eq!(render(0, 999_999), "seekcur 0.001");
    assert_eq!(render(2, 345_670_000), "seekcur 2.346");
    assert_eq!(render(0, 999_499_999), "seekcur 0.999");
    assert_eq!(render(0, 999_500_001), "seekcur 1.000");
    assert_eq!(render(9, 999_999_999), "seekcur 10.000");
    assert_eq!(render(3, 7_000_000), "seekcur 3.007");
    assert_eq!(render(3, 70_000_000), "seekcur 3.070");
}

#[test]
fn seek_takes_the_even_millisecond_halfway() {
    let render = |secs: u64, nanos: u32| line(Seek(SeekMode::Forward(Duration::new(secs, nanos))).to_command());
    assert_eq!(render(0, 62_500_000), "seekcur +0.062");
    assert_eq!(render(0, 187_500_000), "seekcur +0.188");
    assert_eq!(render(0, 500_000), "seekcur +0.000");
    assert_eq!(render(0, 1_500_000), "seekcur +0.002");
    assert_eq!(render(0, 999_500_000), "seekcur +1.000");
    assert_eq!(render(1, 999_500_000), "seekcur +2.000");
}

#[test]
fn seek_agrees_with_the_protocol_crate_off_the_halfway_points() {
    let mut nanos: u32 = 1;
    while nanos < 1_000_000_000 {
        if nanos % 1_000_000 != 500_000 {
            for secs in [0u64, 1, 59, 3600, 86_399] {
                let time = Duration::new(secs, nanos);
                assert_eq!(
                    Seek(SeekMode::Absolute(time)).to_command(),
                    RawCommand::new("seekcur").argument(time),
                    "{:?}",
                    time
                );
            }
        }
        nanos += 7_919_311;
    }
}

#[test]
fn seek_with_the_longest_duration() {
    assert_eq!(
        line(Seek(SeekMode::Backward(Duration::MAX)).to_command()),
        "seekcur -18446744073709551616.000"
    );
    assert_eq!(
        line(Seek(SeekMode::Absolute(Duration::new(u64::MAX, 0))).to_command()),
        "seekcur 18446744073709551615.000"
    );
}

#[test]
fn set_single_tokens() {
    assert_eq!(
        line(SetSingle(SingleMode::Oneshot).to_command()),
        "single oneshot"
    );
    assert_eq!(line(SetSingle(SingleMode::Enabled).to_command()), "single 1");
    assert_eq!(
        line(SetSingle(SingleMode::Disabled).to_command()),
        "single 0"
    );
}

#[test]
fn rendering_the_same_command_twice_gives_the_same_line() {
    let command = SeekTo(Song::Position(3), Duration::from_millis(12_500));
    assert_eq!(command.to_command(), command.to_command());
    let volume = SetVolume(150);
    assert_eq!(volume.to_command(), volume.to_command());
}
