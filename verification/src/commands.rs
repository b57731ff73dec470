//! Commands and the answers they are paired with.

pub mod definitions;
pub mod responses;

pub use self::definitions::{
    ClearQueue, Crossfade, CurrentSong, Next, Previous, Queue, Seek, SeekMode, SeekTo, SetConsume,
    SetPause, SetRandom, SetRepeat, SetSingle, SetVolume, Song, Stats, Status, Stop,
};

use self::responses::{decode_frame, DecodeError, Response};
use crate::raw::{command_text, frame_fields, request_line};
use mpd_protocol::response::Frame as RawFrame;
use mpd_protocol::Command as RawCommand;
use vstd::prelude::*;

verus! {

/// A request that can be sent to the server, paired with the shape of its
/// answer.
///
/// The pairing is part of the type: whoever sends a command can read the
/// answer as `Response` and as nothing else.
pub trait TypedCommand: Sized {
    /// What the answer to this command is read as.
    type Response: Response;

    /// The name that opens the request line.
    spec fn name(self) -> Seq<char>;

    /// The tokens that follow the name, in order.
    spec fn arguments(self) -> Seq<Seq<char>>;

    /// Renders the command into the form that the protocol crate sends. The
    /// command is used up: one value is one request.
    fn to_command(self) -> (raw: RawCommand)
        ensures
            command_text(raw) == request_line(self.name(), self.arguments()),
    ;
}

/// Reads the answer to a command as what the command is paired with. The
/// command is named by its type alone: `decode_answer::<Status>(..)` reads a
/// status and nothing else.
pub fn decode_answer<C: TypedCommand>(frame: &RawFrame) -> (answer: Result<
    C::Response,
    DecodeError,
>)
    ensures
        answer matches Ok(value) ==> <C::Response as Response>::decoded(frame_fields(*frame))
            == Ok::<<C::Response as Response>::Model, DecodeError>(value.model()),
        answer matches Err(error) ==> <C::Response as Response>::decoded(frame_fields(*frame))
            == Err::<<C::Response as Response>::Model, DecodeError>(error),
{
    decode_frame::<C::Response>(frame)
}

} // verus!
