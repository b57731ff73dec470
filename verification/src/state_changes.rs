//! The notifications that the server sends when its state changes.
//!
//! The transport waits for the server; this module decides. For each thing
//! that the transport reports, [`StateChanges::next`] says what the caller
//! gets: a subsystem, an error, or the end of the stream. Nothing is merged
//! and nothing is dropped: one notification is one item, in the order of
//! arrival.

use crate::commands::responses::{Field, FieldText};
use crate::raw::{fields_of, frame_fields};
use mpd_protocol::response::Frame as RawFrame;
use vstd::prelude::*;

verus! {

/// A part of the server that can change on its own.
#[derive(Clone, Copy, Debug, PartialEq, Eq, Structural)]
pub enum Subsystem {
    /// The song database: `database`.
    Database,
    /// A message on a channel that the client listens to: `message`.
    Message,
    /// The volume: `mixer`.
    Mixer,
    /// The options of playback: `options`.
    Options,
    /// The audio outputs: `output`.
    Output,
    /// The partitions: `partition`.
    Partition,
    /// The player: `player`.
    Player,
    /// The queue, which the protocol calls `playlist`.
    Queue,
    /// The sticker database: `sticker`.
    Sticker,
    /// The stored playlists: `stored_playlist`.
    StoredPlaylist,
    /// The channels that the client listens to: `subscription`.
    Subscription,
    /// A database update that started or ended: `update`.
    Update,
    /// The neighbours on the network: `neighbor`.
    Neighbor,
    /// The mounted storages: `mount`.
    Mount,
}

/// The name that the protocol gives a subsystem.
pub open spec fn subsystem_name(subsystem: Subsystem) -> Seq<char> {
    match subsystem {
        Subsystem::Database => "database"@,
        Subsystem::Message => "message"@,
        Subsystem::Mixer => "mixer"@,
        Subsystem::Options => "options"@,
        Subsystem::Output => "output"@,
        Subsystem::Partition => "partition"@,
        Subsystem::Player => "player"@,
        Subsystem::Queue => "playlist"@,
        Subsystem::Sticker => "sticker"@,
        Subsystem::StoredPlaylist => "stored_playlist"@,
        Subsystem::Subscription => "subscription"@,
        Subsystem::Update => "update"@,
        Subsystem::Neighbor => "neighbor"@,
        Subsystem::Mount => "mount"@,
    }
}

/// The subsystem that a name stands for, if the protocol defines the name.
pub open spec fn subsystem_of(name: Seq<char>) -> Option<Subsystem> {
    if name == "database"@ {
        Some(Subsystem::Database)
    } else if name == "message"@ {
        Some(Subsystem::Message)
    } else if name == "mixer"@ {
        Some(Subsystem::Mixer)
    } else if name == "options"@ {
        Some(Subsystem::Options)
    } else if name == "output"@ {
        Some(Subsystem::Output)
    } else if name == "partition"@ {
        Some(Subsystem::Partition)
    } else if name == "player"@ {
        Some(Subsystem::Player)
    } else if name == "playlist"@ {
        Some(Subsystem::Queue)
    } else if name == "sticker"@ {
        Some(Subsystem::Sticker)
    } else if name == "stored_playlist"@ {
        Some(Subsystem::StoredPlaylist)
    } else if name == "subscription"@ {
        Some(Subsystem::Subscription)
    } else if name == "update"@ {
        Some(Subsystem::Update)
    } else if name == "neighbor"@ {
        Some(Subsystem::Neighbor)
    } else if name == "mount"@ {
        Some(Subsystem::Mount)
    } else {
        None
    }
}

/// The length of a name and its first three characters. No two names of
/// subsystems agree in them.
spec fn name_mark(name: Seq<char>) -> (nat, char, char, char) {
    (name.len(), name[0], name[1], name[2])
}

/// Names and subsystems stand for each other: the name of a subsystem is
/// read back as that subsystem, and a name that is read as a subsystem is
/// the name of it.
pub proof fn lemma_subsystem_names_round_trip(subsystem: Subsystem, name: Seq<char>)
    ensures
        subsystem_of(subsystem_name(subsystem)) == Some(subsystem),
        subsystem_of(name) == Some(subsystem) ==> name == subsystem_name(subsystem),
{
    reveal_strlit("database");
    reveal_strlit("message");
    reveal_strlit("mixer");
    reveal_strlit("options");
    reveal_strlit("output");
    reveal_strlit("partition");
    reveal_strlit("player");
    reveal_strlit("playlist");
    reveal_strlit("sticker");
    reveal_strlit("stored_playlist");
    reveal_strlit("subscription");
    reveal_strlit("update");
    reveal_strlit("neighbor");
    reveal_strlit("mount");
    assert(name_mark("database"@) == (8nat, 'd', 'a', 't'));
    assert(name_mark("message"@) == (7nat, 'm', 'e', 's'));
    assert(name_mark("mixer"@) == (5nat, 'm', 'i', 'x'));
    assert(name_mark("options"@) == (7nat, 'o', 'p', 't'));
    assert(name_mark("output"@) == (6nat, 'o', 'u', 't'));
    assert(name_mark("partition"@) == (9nat, 'p', 'a', 'r'));
    assert(name_mark("player"@) == (6nat, 'p', 'l', 'a'));
    assert(name_mark("playlist"@) == (8nat, 'p', 'l', 'a'));
    assert(name_mark("sticker"@) == (7nat, 's', 't', 'i'));
    assert(name_mark("stored_playlist"@) == (15nat, 's', 't', 'o'));
    assert(name_mark("subscription"@) == (12nat, 's', 'u', 'b'));
    assert(name_mark("update"@) == (6nat, 'u', 'p', 'd'));
    assert(name_mark("neighbor"@) == (8nat, 'n', 'e', 'i'));
    assert(name_mark("mount"@) == (5nat, 'm', 'o', 'u'));
}

impl Subsystem {
    /// Reads a subsystem from the name that the protocol gives it.
    pub fn from_name(name: &str) -> (subsystem: Option<Subsystem>)
        ensures
            subsystem == subsystem_of(name@),
    {
        if *name == *"database" {
            Some(Subsystem::Database)
        } else if *name == *"message" {
            Some(Subsystem::Message)
        } else if *name == *"mixer" {
            Some(Subsystem::Mixer)
        } else if *name == *"options" {
            Some(Subsystem::Options)
        } else if *name == *"output" {
            Some(Subsystem::Output)
        } else if *name == *"partition" {
            Some(Subsystem::Partition)
        } else if *name == *"player" {
            Some(Subsystem::Player)
        } else if *name == *"playlist" {
            Some(Subsystem::Queue)
        } else if *name == *"sticker" {
            Some(Subsystem::Sticker)
        } else if *name == *"stored_playlist" {
            Some(Subsystem::StoredPlaylist)
        } else if *name == *"subscription" {
            Some(Subsystem::Subscription)
        } else if *name == *"update" {
            Some(Subsystem::Update)
        } else if *name == *"neighbor" {
            Some(Subsystem::Neighbor)
        } else if *name == *"mount" {
            Some(Subsystem::Mount)
        } else {
            None
        }
    }

    /// The name that the protocol gives this subsystem.
    pub fn as_str(self) -> (name: &'static str)
        ensures
            name@ == subsystem_name(self),
    {
        match self {
            Subsystem::Database => "database",
            Subsystem::Message => "message",
            Subsystem::Mixer => "mixer",
            Subsystem::Options => "options",
            Subsystem::Output => "output",
            Subsystem::Partition => "partition",
            Subsystem::Player => "player",
            Subsystem::Queue => "playlist",
            Subsystem::Sticker => "sticker",
            Subsystem::StoredPlaylist => "stored_playlist",
            Subsystem::Subscription => "subscription",
            Subsystem::Update => "update",
            Subsystem::Neighbor => "neighbor",
            Subsystem::Mount => "mount",
        }
    }
}

/// Why the stream hands out an error in place of a subsystem.
#[derive(Clone, Copy, Debug, PartialEq, Eq, Structural)]
pub enum StateChangeError {
    /// What the server sent is no notification.
    Malformed,
    /// The notification names a subsystem that the protocol does not define.
    UnknownSubsystem,
    /// The connection failed.
    ConnectionFailed,
}

/// What the transport reports when it is asked for the next notification.
#[derive(Clone, Debug, PartialEq, Eq)]
pub enum Notification {
    /// The server reported a change in the subsystem of this name.
    Changed(String),
    /// The server sent something that is no notification.
    Malformed,
    /// The connection failed.
    Failed,
    /// The connection was closed, by this side or by the server.
    Closed,
}

/// Whether a notification is what a field of the server's answer reports:
/// a field `changed` names the subsystem that has changed, and any other
/// field is no notification.
pub open spec fn reports(notification: Notification, field: FieldText) -> bool {
    if field.0 == "changed"@ {
        notification matches Notification::Changed(name) && name@ == field.1
    } else {
        notification is Malformed
    }
}

/// Reads the notifications that an answer of the server holds: one for each
/// field, in the order of the answer.
pub fn notifications_of(fields: &Vec<Field>) -> (reported: Vec<Notification>)
    ensures
        reported@.len() == fields@.len(),
        forall|i: int|
            0 <= i < fields@.len() ==> reports(#[trigger] reported@[i], fields.deep_view()[i]),
{
    let mut reported: Vec<Notification> = Vec::new();
    let mut i: usize = 0;
    while i < fields.len()
        invariant
            i <= fields.len(),
            reported@.len() == i,
            forall|j: int| 0 <= j < i ==> reports(#[trigger] reported@[j], fields.deep_view()[j]),
        decreases fields.len() - i,
    {
        let field = &fields[i];
        assert(fields.deep_view()[i as int] == (field.0@, field.1@));
        if *field.0.as_str() == *"changed" {
            reported.push(Notification::Changed(field.1.clone()));
        } else {
            reported.push(Notification::Malformed);
        }
        i += 1;
    }
    reported
}

/// Reads the notifications that a frame of the protocol crate holds.
pub fn frame_notifications(frame: &RawFrame) -> (reported: Vec<Notification>)
    ensures
        reported@.len() == frame_fields(*frame).len(),
        forall|i: int|
            0 <= i < reported@.len() ==> reports(#[trigger] reported@[i], frame_fields(*frame)[i]),
{
    let fields = fields_of(frame);
    notifications_of(&fields)
}

/// An item of the stream.
pub type StateChange = Result<Subsystem, StateChangeError>;

/// What a stream that has not ended hands out for a report of the
/// transport. Only the close of the connection hands out nothing.
pub open spec fn item_of(event: Notification) -> Option<StateChange> {
    match event {
        Notification::Changed(name) => match subsystem_of(name@) {
            Some(subsystem) => Some(Ok(subsystem)),
            None => Some(Err(StateChangeError::UnknownSubsystem)),
        },
        Notification::Malformed => Some(Err(StateChangeError::Malformed)),
        Notification::Failed => Some(Err(StateChangeError::ConnectionFailed)),
        Notification::Closed => None,
    }
}

/// Whether a report of the transport ends the stream: the connection was
/// closed or has failed. An error in one notification ends nothing.
pub open spec fn ends_stream(event: Notification) -> bool {
    event is Failed || event is Closed
}

/// The items that a stream hands out when it is asked once for each report
/// of the transport, in order. `ended` says whether the stream has ended
/// before the first of them.
pub open spec fn items_of(ended: bool, events: Seq<Notification>) -> Seq<StateChange>
    decreases events.len(),
{
    if events.len() == 0 || ended {
        seq![]
    } else {
        let rest = items_of(ends_stream(events[0]), events.drop_first());
        match item_of(events[0]) {
            Some(item) => seq![item] + rest,
            None => rest,
        }
    }
}

/// While the connection stands, the stream hands out one item for each
/// report, in the order of the reports. Two reports of the same change are
/// two items.
pub proof fn lemma_one_item_for_each_report(events: Seq<Notification>)
    requires
        forall|i: int| 0 <= i < events.len() ==> !ends_stream(#[trigger] events[i]),
    ensures
        items_of(false, events).len() == events.len(),
        forall|i: int|
            0 <= i < events.len() ==> Some(#[trigger] items_of(false, events)[i]) == item_of(
                events[i],
            ),
    decreases events.len(),
{
    if events.len() > 0 {
        let rest = events.drop_first();
        assert forall|i: int| 0 <= i < rest.len() implies !ends_stream(#[trigger] rest[i]) by {
            assert(rest[i] == events[i + 1]);
        }
        lemma_one_item_for_each_report(rest);
        assert(!ends_stream(events[0]));
        let items = items_of(false, events);
        assert forall|i: int| 0 <= i < events.len() implies Some(#[trigger] items[i]) == item_of(
            events[i],
        ) by {
            if i > 0 {
                assert(items[i] == items_of(false, rest)[i - 1]);
                assert(rest[i - 1] == events[i]);
            }
        }
    }
}

/// Once the connection was closed or has failed, the stream hands out
/// nothing more, whatever is reported after it.
pub proof fn lemma_nothing_after_the_end(events: Seq<Notification>)
    ensures
        items_of(true, events).len() == 0,
{
}

/// The stream of state changes, as far as it decides anything: whether it
/// has ended.
#[derive(Debug)]
pub struct StateChanges {
    ended: bool,
}

impl StateChanges {
    /// Whether the stream has ended.
    pub closed spec fn ended(&self) -> bool {
        self.ended
    }

    /// A stream on a connection that stands.
    pub fn new() -> (stream: StateChanges)
        ensures
            !stream.ended(),
    {
        StateChanges { ended: false }
    }

    /// Whether the stream has ended.
    pub fn is_ended(&self) -> (ended: bool)
        ensures
            ended == self.ended(),
    {
        self.ended
    }

    /// The next item of the stream, for what the transport reported when it
    /// was asked for the next notification. `None` is the end of the stream.
    pub fn next(&mut self, event: Notification) -> (item: Option<StateChange>)
        ensures
            old(self).ended() ==> item is None && final(self).ended(),
            !old(self).ended() ==> item == item_of(event) && final(self).ended() == ends_stream(
                event,
            ),
    {
        if self.ended {
            return None;
        }
        match event {
            Notification::Changed(name) => {
                match Subsystem::from_name(name.as_str()) {
                    Some(subsystem) => Some(Ok(subsystem)),
                    None => Some(Err(StateChangeError::UnknownSubsystem)),
                }
            },
            Notification::Malformed => Some(Err(StateChangeError::Malformed)),
            Notification::Failed => {
                self.ended = true;
                Some(Err(StateChangeError::ConnectionFailed))
            },
            Notification::Closed => {
                self.ended = true;
                None
            },
        }
    }
}

} // verus!
