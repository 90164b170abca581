//! Wolf's server-sent event stream: framing the byte stream into lines,
//! lines into events, and event payloads into lobby changes.

use vstd::prelude::*;

use crate::error::ApiError;
use crate::model::{Lobby, Runner};
use crate::text::{chars_of, push_char, starts_with, str_eq, string_of_range};

verus! {

/// The text `lines` stand for: each line followed by a line feed.
pub open spec fn join_lines(lines: Seq<Seq<char>>) -> Seq<char>
    decreases lines.len(),
{
    if lines.len() == 0 {
        Seq::empty()
    } else {
        join_lines(lines.drop_last()) + lines.last() + seq!['\n']
    }
}

/// `s` holds no line feed.
pub open spec fn no_newline(s: Seq<char>) -> bool {
    forall|i: int| 0 <= i < s.len() ==> s[i] != '\n'
}

/// The views of a list of strings.
pub open spec fn views(v: Seq<String>) -> Seq<Seq<char>> {
    v.map_values(|s: String| s@)
}

/// Splits a stream of text into lines, keeping an unfinished last line until
/// its line feed arrives.
pub struct LineBuffer {
    pending: Vec<char>,
}

impl LineBuffer {
    /// The text received but not yet handed out as a line.
    pub closed spec fn pending(&self) -> Seq<char> {
        self.pending@
    }

    pub fn new() -> (r: Self)
        ensures
            r.pending() == Seq::<char>::empty(),
    {
        LineBuffer { pending: Vec::new() }
    }

    /// Takes the next piece of the stream and hands out every line it completes,
    /// without their line feeds. Nothing is lost: the pending text and the
    /// piece together are the returned lines, each with its line feed, and
    /// then the new pending text.
    pub fn push(&mut self, chunk: &str) -> (lines: Vec<String>)
        requires
            no_newline(old(self).pending()),
        ensures
            old(self).pending() + chunk@ == join_lines(views(lines@)) + final(self).pending(),
            no_newline(final(self).pending()),
            forall|i: int| 0 <= i < lines@.len() ==> no_newline(#[trigger] lines@[i]@),
    {
        let piece = chars_of(chunk);
        let mut all: Vec<char> = Vec::new();
        let mut k: usize = 0;
        while k < self.pending.len()
            invariant
                k <= self.pending@.len(),
                all@ == self.pending@.subrange(0, k as int),
            decreases self.pending@.len() - k,
        {
            all.push(self.pending[k]);
            k = k + 1;
            assert(all@ =~= self.pending@.subrange(0, k as int));
        }
        let mut k: usize = 0;
        while k < piece.len()
            invariant
                k <= piece@.len(),
                all@ == self.pending@ + piece@.subrange(0, k as int),
            decreases piece@.len() - k,
        {
            all.push(piece[k]);
            k = k + 1;
            assert(all@ =~= self.pending@ + piece@.subrange(0, k as int));
        }
        assert(piece@.subrange(0, piece@.len() as int) =~= piece@);
        let mut lines: Vec<String> = Vec::new();
        let mut start: usize = 0;
        let mut i: usize = 0;
        while i < all.len()
            invariant
                start <= i <= all@.len(),
                all@.subrange(0, start as int) == join_lines(views(lines@)),
                forall|m: int| start <= m < i ==> all@[m] != '\n',
                forall|m: int| 0 <= m < lines@.len() ==> no_newline(#[trigger] lines@[m]@),
            decreases all@.len() - i,
        {
            if all[i] == '\n' {
                let line = string_of_range(&all, start, i);
                let ghost old_lines = lines@;
                lines.push(line);
                proof {
                    assert(views(lines@).drop_last() =~= views(old_lines));
                    assert(views(lines@).last() == line@);
                    assert(all@.subrange(0, i + 1) =~= all@.subrange(0, start as int)
                        + all@.subrange(start as int, i as int) + seq!['\n']);
                    assert forall|m: int| 0 <= m < lines@.len() implies no_newline(
                        #[trigger] lines@[m]@,
                    ) by {
                        if m < old_lines.len() {
                            assert(lines@[m] == old_lines[m]);
                        }
                    }
                }
                start = i + 1;
            }
            i = i + 1;
        }
        let mut rest: Vec<char> = Vec::new();
        let mut k: usize = start;
        while k < all.len()
            invariant
                start <= k <= all@.len(),
                rest@ == all@.subrange(start as int, k as int),
            decreases all@.len() - k,
        {
            rest.push(all[k]);
            k = k + 1;
            assert(rest@ =~= all@.subrange(start as int, k as int));
        }
        assert(all@ =~= all@.subrange(0, start as int) + rest@);
        self.pending = rest;
        lines
    }
}

/// `s` without the carriage returns at its end.
pub open spec fn strip_trailing_cr(s: Seq<char>) -> Seq<char>
    decreases s.len(),
{
    if s.len() > 0 && s.last() == '\r' {
        strip_trailing_cr(s.drop_last())
    } else {
        s
    }
}

/// A stream line without the carriage returns that end it (`\r\n` line ends).
pub fn without_carriage_return(line: &str) -> (r: String)
    ensures
        r@ == strip_trailing_cr(line@),
{
    let chars = chars_of(line);
    let mut end: usize = chars.len();
    assert(chars@.subrange(0, end as int) =~= line@);
    while end > 0 && chars[end - 1] == '\r'
        invariant
            end <= chars@.len(),
            chars@ == line@,
            strip_trailing_cr(chars@.subrange(0, end as int)) == strip_trailing_cr(line@),
        decreases end,
    {
        assert(chars@.subrange(0, end as int).drop_last() =~= chars@.subrange(0, end - 1));
        end = end - 1;
    }
    string_of_range(&chars, 0, end)
}

/// One complete event of the stream: its type and its accumulated data.
#[derive(Clone, Debug, PartialEq, Eq)]
pub struct EventFrame {
    pub event_type: String,
    pub data: String,
}

/// Collects `event:` and `data:` lines until a blank line completes the event.
#[derive(Clone, Debug)]
pub struct EventStreamParser {
    event_type: String,
    data: String,
}

pub open spec fn event_prefix() -> Seq<char> {
    seq!['e', 'v', 'e', 'n', 't', ':', ' ']
}

pub open spec fn data_prefix() -> Seq<char> {
    seq!['d', 'a', 't', 'a', ':', ' ']
}

/// The line sets the event type.
pub open spec fn is_event_line(line: Seq<char>) -> bool {
    line.len() >= 7 && line.subrange(0, 7) == event_prefix()
}

/// The line adds to the event data.
pub open spec fn is_data_line(line: Seq<char>) -> bool {
    !is_event_line(line) && line.len() >= 6 && line.subrange(0, 6) == data_prefix()
}

/// The event type and data after a non-blank line: `event: ` sets the type,
/// `data: ` appends to the data, and any other line changes nothing.
pub open spec fn after_line(event_type: Seq<char>, data: Seq<char>, line: Seq<char>) -> (
    Seq<char>,
    Seq<char>,
) {
    if is_event_line(line) {
        (line.subrange(7, line.len() as int), data)
    } else if is_data_line(line) {
        (event_type, data + line.subrange(6, line.len() as int))
    } else {
        (event_type, data)
    }
}

/// The type named by the last `event: ` line, or empty when there is none.
pub open spec fn last_event_type(lines: Seq<Seq<char>>) -> Seq<char>
    decreases lines.len(),
{
    if lines.len() == 0 {
        Seq::empty()
    } else if is_event_line(lines.last()) {
        lines.last().subrange(7, lines.last().len() as int)
    } else {
        last_event_type(lines.drop_last())
    }
}

/// The texts of the `data: ` lines, in order, without separators.
pub open spec fn collected_data(lines: Seq<Seq<char>>) -> Seq<char>
    decreases lines.len(),
{
    if lines.len() == 0 {
        Seq::empty()
    } else if is_data_line(lines.last()) {
        collected_data(lines.drop_last()) + lines.last().subrange(6, lines.last().len() as int)
    } else {
        collected_data(lines.drop_last())
    }
}

proof fn lemma_collects_prefix(
    types: Seq<Seq<char>>,
    datas: Seq<Seq<char>>,
    lines: Seq<Seq<char>>,
    n: int,
)
    requires
        types.len() == lines.len() + 1,
        datas.len() == lines.len() + 1,
        types[0] == Seq::<char>::empty(),
        datas[0] == Seq::<char>::empty(),
        forall|k: int|
            #![trigger lines[k]]
            0 <= k < lines.len() ==> (types[k + 1], datas[k + 1]) == after_line(
                types[k],
                datas[k],
                lines[k],
            ),
        0 <= n <= lines.len(),
    ensures
        types[n] == last_event_type(lines.take(n)),
        datas[n] == collected_data(lines.take(n)),
    decreases n,
{
    if n > 0 {
        lemma_collects_prefix(types, datas, lines, n - 1);
        assert(lines.take(n).drop_last() =~= lines.take(n - 1));
        assert(lines.take(n).last() == lines[n - 1]);
        let _ = lines[n - 1];
    } else {
        assert(lines.take(0) =~= Seq::<Seq<char>>::empty());
    }
}

/// Across the lines of one event: when the parser starts empty (new, or
/// just after a blank line) and takes the non-blank `lines`, its event type
/// is the one named by the last `event: ` line (empty without one) and its
/// data is the text of all `data: ` lines in order. `types[k]` and `datas[k]`
/// are the parser's type and data before line `k`, as `accept_line` states
/// them; the blank line that follows hands them out when the type is not
/// empty, and starts the next event empty.
pub proof fn lemma_event_collects_lines(
    types: Seq<Seq<char>>,
    datas: Seq<Seq<char>>,
    lines: Seq<Seq<char>>,
)
    requires
        types.len() == lines.len() + 1,
        datas.len() == lines.len() + 1,
        types[0] == Seq::<char>::empty(),
        datas[0] == Seq::<char>::empty(),
        forall|k: int|
            #![trigger lines[k]]
            0 <= k < lines.len() ==> lines[k].len() > 0 && (types[k + 1], datas[k + 1])
                == after_line(types[k], datas[k], lines[k]),
    ensures
        types.last() == last_event_type(lines),
        datas.last() == collected_data(lines),
{
    lemma_collects_prefix(types, datas, lines, lines.len() as int);
    assert(lines.take(lines.len() as int) =~= lines);
}

impl EventStreamParser {
    /// The type of the event being collected (empty before an `event:` line).
    pub closed spec fn event_type(&self) -> Seq<char> {
        self.event_type@
    }

    /// The data collected for the current event.
    pub closed spec fn data(&self) -> Seq<char> {
        self.data@
    }

    pub fn new() -> (r: Self)
        ensures
            r.event_type() == Seq::<char>::empty(),
            r.data() == Seq::<char>::empty(),
    {
        EventStreamParser { event_type: String::new(), data: String::new() }
    }

    /// Takes one line of the stream. A blank line ends the current event: it
    /// is handed out when it has a type, and the parser starts afresh either
    /// way. `event: ` sets the type, `data: ` appends to the data, and any
    /// other line is ignored.
    pub fn accept_line(&mut self, line: &str) -> (r: Option<EventFrame>)
        ensures
            line@.len() == 0 ==> {
                &&& final(self).event_type() == Seq::<char>::empty()
                &&& final(self).data() == Seq::<char>::empty()
                &&& (old(self).event_type().len() > 0 <==> r is Some)
                &&& r matches Some(f) ==> f.event_type@ == old(self).event_type() && f.data@
                    == old(self).data()
            },
            line@.len() > 0 ==> r is None && (final(self).event_type(), final(self).data())
                == after_line(old(self).event_type(), old(self).data(), line@),
    {
        if line.is_empty() {
            let mut event_type = String::new();
            std::mem::swap(&mut event_type, &mut self.event_type);
            let mut data = String::new();
            std::mem::swap(&mut data, &mut self.data);
            if event_type.as_str().is_empty() {
                return None;
            }
            return Some(EventFrame { event_type, data });
        }
        let chars = chars_of(line);
        let event_tag: [char; 7] = ['e', 'v', 'e', 'n', 't', ':', ' '];
        let data_tag: [char; 6] = ['d', 'a', 't', 'a', ':', ' '];
        assert(event_tag@ =~= event_prefix());
        assert(data_tag@ =~= data_prefix());
        if starts_with(&chars, &event_tag) {
            self.event_type = string_of_range(&chars, 7, chars.len());
        } else if starts_with(&chars, &data_tag) {
            let mut k: usize = 6;
            while k < chars.len()
                invariant
                    6 <= k <= chars@.len(),
                    chars@ == line@,
                    self.event_type@ == old(self).event_type@,
                    self.data@ == old(self).data@ + chars@.subrange(6, k as int),
                decreases chars@.len() - k,
            {
                push_char(&mut self.data, chars[k]);
                k = k + 1;
                assert(self.data@ =~= old(self).data@ + chars@.subrange(6, k as int));
            }
        }
        None
    }
}

/// The events the launcher tells apart.
#[derive(Clone, Copy, Debug, PartialEq, Eq, Structural)]
pub enum EventKind {
    CreateLobby,
    JoinLobby,
    LeaveLobby,
    StopLobby,
    Other,
}

/// The kind of an event by its type name.
pub open spec fn kind_of(event: Seq<char>) -> EventKind {
    if event == "wolf::core::events::CreateLobbyEvent"@ {
        EventKind::CreateLobby
    } else if event == "wolf::core::events::JoinLobbyEvent"@ {
        EventKind::JoinLobby
    } else if event == "wolf::core::events::LeaveLobbyEvent"@ {
        EventKind::LeaveLobby
    } else if event == "wolf::core::events::StopLobbyEvent"@ {
        EventKind::StopLobby
    } else {
        EventKind::Other
    }
}

pub fn event_kind(event: &str) -> (r: EventKind)
    ensures
        r == kind_of(event@),
{
    if str_eq(event, "wolf::core::events::CreateLobbyEvent") {
        EventKind::CreateLobby
    } else if str_eq(event, "wolf::core::events::JoinLobbyEvent") {
        EventKind::JoinLobby
    } else if str_eq(event, "wolf::core::events::LeaveLobbyEvent") {
        EventKind::LeaveLobby
    } else if str_eq(event, "wolf::core::events::StopLobbyEvent") {
        EventKind::StopLobby
    } else {
        EventKind::Other
    }
}

/// A lobby was created.
#[derive(Clone, Debug, PartialEq, Eq)]
pub struct CreateLobbyEvent {
    pub id: String,
    pub profile_id: String,
    pub name: String,
    pub icon_png_path: Option<String>,
    pub pin: Option<Vec<i64>>,
    pub multi_user: bool,
    pub stop_when_everyone_leaves: bool,
    pub runner: Runner,
}

/// A session joined a lobby.
#[derive(Clone, Debug, PartialEq, Eq)]
pub struct JoinLobbyEvent {
    pub lobby_id: String,
    pub moonlight_session_id: String,
}

/// A session left a lobby.
#[derive(Clone, Debug, PartialEq, Eq)]
pub struct LeaveLobbyEvent {
    pub lobby_id: String,
    pub moonlight_session_id: String,
}

/// A lobby was stopped.
#[derive(Clone, Debug, PartialEq, Eq)]
pub struct StopLobbyEvent {
    pub lobby_id: String,
    pub pin: Option<Vec<i64>>,
}

impl CreateLobbyEvent {
    /// The lobby the event describes: nobody is connected yet, and a PIN is
    /// required exactly when the event carries one.
    pub fn into_lobby(self) -> (r: Lobby)
        ensures
            r.id == self.id,
            r.name == self.name,
            r.icon_png_path == self.icon_png_path,
            r.multi_user == self.multi_user,
            r.pin_required == self.pin is Some,
            r.runner == self.runner,
            r.started_by_profile_id == self.profile_id,
            r.stop_when_everyone_leaves == self.stop_when_everyone_leaves,
            r.connected_sessions@ == Seq::<String>::empty(),
    {
        Lobby {
            connected_sessions: Vec::new(),
            icon_png_path: self.icon_png_path,
            id: self.id,
            multi_user: self.multi_user,
            name: self.name,
            pin_required: self.pin.is_some(),
            runner: self.runner,
            started_by_profile_id: self.profile_id,
            stop_when_everyone_leaves: self.stop_when_everyone_leaves,
        }
    }
}

/// A decoded event payload.
#[derive(Clone, Debug, PartialEq, Eq)]
pub enum EventPayload {
    CreateLobby(CreateLobbyEvent),
    JoinLobby(JoinLobbyEvent),
    LeaveLobby(LeaveLobbyEvent),
    StopLobby(StopLobbyEvent),
}

/// The kind of event a payload belongs to.
pub open spec fn payload_kind(p: EventPayload) -> EventKind {
    match p {
        EventPayload::CreateLobby(_) => EventKind::CreateLobby,
        EventPayload::JoinLobby(_) => EventKind::JoinLobby,
        EventPayload::LeaveLobby(_) => EventKind::LeaveLobby,
        EventPayload::StopLobby(_) => EventKind::StopLobby,
    }
}

/// A change Wolf reported.
#[derive(Clone, Debug, PartialEq, Eq)]
pub enum WolfEvent {
    LobbyCreated(Box<Lobby>),
    LobbyJoined(JoinLobbyEvent),
    LobbyLeft(LeaveLobbyEvent),
    LobbyStopped(String),
    Other(String),
}

/// Turns a complete event into a [`WolfEvent`]. Events of a kind the launcher
/// does not follow become `Other` with their type name, and carry no decoded
/// payload. For the others, `decoded` is the outcome of decoding the event's
/// data as that kind: a decoding failure is passed on, and a payload becomes
/// the matching change.
pub fn parse_event(event: String, decoded: Option<Result<EventPayload, ApiError>>) -> (r: Result<
    WolfEvent,
    ApiError,
>)
    requires
        kind_of(event@) == EventKind::Other <==> decoded is None,
        decoded matches Some(Ok(p)) ==> payload_kind(p) == kind_of(event@),
    ensures
        kind_of(event@) == EventKind::Other ==> r == Ok::<WolfEvent, ApiError>(
            WolfEvent::Other(event),
        ),
        decoded matches Some(Err(e)) ==> r == Err::<WolfEvent, ApiError>(e),
        decoded matches Some(Ok(EventPayload::CreateLobby(c))) ==> r matches Ok(
            WolfEvent::LobbyCreated(l),
        ) && l.id == c.id && l.started_by_profile_id == c.profile_id && l.name == c.name
            && l.multi_user == c.multi_user && l.pin_required == c.pin is Some && l.runner
            == c.runner && l.icon_png_path == c.icon_png_path && l.stop_when_everyone_leaves
            == c.stop_when_everyone_leaves && l.connected_sessions@.len() == 0,
        decoded matches Some(Ok(EventPayload::JoinLobby(j))) ==> r == Ok::<WolfEvent, ApiError>(
            WolfEvent::LobbyJoined(j),
        ),
        decoded matches Some(Ok(EventPayload::LeaveLobby(j))) ==> r == Ok::<WolfEvent, ApiError>(
            WolfEvent::LobbyLeft(j),
        ),
        decoded matches Some(Ok(EventPayload::StopLobby(s))) ==> r == Ok::<WolfEvent, ApiError>(
            WolfEvent::LobbyStopped(s.lobby_id),
        ),
{
    match decoded {
        None => Ok(WolfEvent::Other(event)),
        Some(Err(e)) => Err(e),
        Some(Ok(EventPayload::CreateLobby(c))) => Ok(WolfEvent::LobbyCreated(Box::new(c.into_lobby()))),
        Some(Ok(EventPayload::JoinLobby(j))) => Ok(WolfEvent::LobbyJoined(j)),
        Some(Ok(EventPayload::LeaveLobby(l))) => Ok(WolfEvent::LobbyLeft(l)),
        Some(Ok(EventPayload::StopLobby(s))) => Ok(WolfEvent::LobbyStopped(s.lobby_id)),
    }
}

} // verus!
