//! The request line as the protocol crate holds it.
//!
//! `mpd_protocol::Command` is a buffer that the protocol crate fills and
//! sends. Nothing here is proved of it: the crate's behaviour is stated
//! once, below, and everything else is proved from these statements.

use mpd_protocol::response::Frame as RawFrame;
use mpd_protocol::Command as RawCommand;
use vstd::prelude::*;

verus! {

#[verifier::external_type_specification]
#[verifier::external_body]
pub struct ExRawCommand(mpd_protocol::Command);

/// The text of the request line that a raw command holds, without the
/// line break that ends it on the wire.
pub uninterp spec fn command_text(command: mpd_protocol::Command) -> Seq<char>;

#[verifier::external_type_specification]
#[verifier::external_body]
pub struct ExRawFrame(mpd_protocol::response::Frame);

/// The fields that a frame holds, each a key and its value, in the order
/// in which the server sent them.
pub uninterp spec fn frame_fields(frame: mpd_protocol::response::Frame) -> Seq<
    (Seq<char>, Seq<char>),
>;

/// A character that may stand in a command name: an ASCII letter or `_`.
pub open spec fn is_name_char(c: char) -> bool {
    ||| 'a' <= c <= 'z'
    ||| 'A' <= c <= 'Z'
    ||| c == '_'
}

/// A name that the protocol crate accepts at the start of a request line:
/// not empty, made of letters and `_`, and not one of the names that open
/// or close a command list.
pub open spec fn is_command_name(name: Seq<char>) -> bool {
    &&& name.len() > 0
    &&& forall|i: int| 0 <= i < name.len() ==> is_name_char(#[trigger] name[i])
    &&& !"command_list"@.is_prefix_of(name)
}

/// A name shorter than the one that opens a command list, or one that
/// begins with another letter, is accepted if its characters are.
pub proof fn lemma_name_is_accepted(name: Seq<char>)
    requires
        name.len() > 0,
        forall|i: int| 0 <= i < name.len() ==> is_name_char(#[trigger] name[i]),
        name.len() < 12 || name[0] != 'c',
    ensures
        is_command_name(name),
{
    reveal_strlit("command_list");
    if name.len() >= 12 {
        assert("command_list"@[0] != name.subrange(0, 12)[0]);
    }
}

/// A character that the protocol crate copies into the request line as it
/// is: it asks neither for quotes nor for a backslash, and ends no line.
pub open spec fn is_plain_char(c: char) -> bool {
    &&& c != ' '
    &&& c != '\t'
    &&& c != '\\'
    &&& c != '"'
    &&& c != '\''
    &&& c != '\n'
}

/// A token made of plain characters only.
pub open spec fn is_plain_token(token: Seq<char>) -> bool {
    forall|i: int| 0 <= i < token.len() ==> is_plain_char(#[trigger] token[i])
}

/// A request line with one more token at its end, after a space.
pub open spec fn line_with(line: Seq<char>, token: Seq<char>) -> Seq<char> {
    line + seq![' '] + token
}

/// The request line of a name and its tokens, in order: the name, then each
/// token after a space.
pub open spec fn request_line(name: Seq<char>, tokens: Seq<Seq<char>>) -> Seq<char>
    decreases tokens.len(),
{
    if tokens.len() == 0 {
        name
    } else {
        line_with(request_line(name, tokens.drop_last()), tokens.last())
    }
}

/// With no token the request line is the name alone.
pub proof fn lemma_line_of_none(name: Seq<char>)
    ensures
        request_line(name, seq![]) == name,
{
}

/// With one token the request line is the name, a space and the token.
pub proof fn lemma_line_of_one(name: Seq<char>, token: Seq<char>)
    ensures
        request_line(name, seq![token]) == name + seq![' '] + token,
{
    reveal_with_fuel(request_line, 2);
    assert(seq![token].drop_last() =~= Seq::<Seq<char>>::empty());
}

/// With two tokens the request line holds them in the order given.
pub proof fn lemma_line_of_two(name: Seq<char>, first: Seq<char>, second: Seq<char>)
    ensures
        request_line(name, seq![first, second]) == name + seq![' '] + first + seq![' '] + second,
{
    reveal_with_fuel(request_line, 2);
    assert(seq![first, second].drop_last() =~= seq![first]);
    lemma_line_of_one(name, first);
}

/// `mpd_protocol::Command::new`: a request line that holds the name and
/// nothing else. The crate panics on a name that it does not accept, so
/// such names are left out.
pub assume_specification[ mpd_protocol::Command::new ](command: &str) -> (raw: mpd_protocol::Command)
    requires
        is_command_name(command@),
    ensures
        command_text(raw) == command@,
;

/// `mpd_protocol::Command::argument` with a string: the request line grows
/// by one space and the token. The crate quotes or escapes some characters
/// and panics on a line break; a plain token holds none of them and is
/// copied as it is.
#[verifier::external_body]
pub(crate) fn with_token(raw: RawCommand, token: &str) -> (longer: RawCommand)
    requires
        is_plain_token(token@),
    ensures
        command_text(longer) == line_with(command_text(raw), token@),
{
    raw.argument(token)
}

/// `mpd_protocol::response::Frame::fields`: the fields of the frame, in the
/// order of the answer, each key and value copied into a string of its own.
#[verifier::external_body]
pub(crate) fn fields_of(frame: &RawFrame) -> (fields: Vec<(String, String)>)
    ensures
        fields.deep_view() == frame_fields(*frame),
{
    let mut fields = Vec::new();
    for (key, value) in frame.fields() {
        fields.push((key.to_owned(), value.to_owned()));
    }
    fields
}

/// A request line of a name and one token.
pub(crate) fn line_of_one(name: &str, token: &str) -> (raw: RawCommand)
    requires
        is_command_name(name@),
        is_plain_token(token@),
    ensures
        command_text(raw) == request_line(name@, seq![token@]),
{
    proof {
        lemma_line_of_one(name@, token@);
    }
    with_token(RawCommand::new(name), token)
}

/// A request line of a name and two tokens.
pub(crate) fn line_of_two(name: &str, first: &str, second: &str) -> (raw: RawCommand)
    requires
        is_command_name(name@),
        is_plain_token(first@),
        is_plain_token(second@),
    ensures
        command_text(raw) == request_line(name@, seq![first@, second@]),
{
    proof {
        lemma_line_of_two(name@, first@, second@);
    }
    with_token(with_token(RawCommand::new(name), first), second)
}

} // verus!
