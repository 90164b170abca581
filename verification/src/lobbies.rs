//! Keeping a list of lobbies current as Wolf reports lobby changes.

use vstd::prelude::*;

use crate::events::WolfEvent;
use crate::model::Lobby;
use crate::text::str_eq;

verus! {

/// The lobby is not the one with id `id`.
pub open spec fn other_lobby(l: Lobby, id: Seq<char>) -> bool {
    l.id@ != id
}

/// The lobbies without the one(s) with id `id`, in order.
pub open spec fn without_lobby(lobbies: Seq<Lobby>, id: Seq<char>) -> Seq<Lobby> {
    lobbies.filter(|l: Lobby| other_lobby(l, id))
}

/// Removes every lobby with id `id`, keeping the order of the others.
pub fn remove_lobby(lobbies: &mut Vec<Lobby>, id: &str)
    ensures
        final(lobbies)@ == without_lobby(old(lobbies)@, id@),
{
    let ghost initial = lobbies@;
    let mut kept: Vec<Lobby> = Vec::new();
    let mut taken: Vec<Lobby> = Vec::new();
    std::mem::swap(&mut taken, lobbies);
    let n: usize = taken.len();
    let mut i: usize = 0;
    while i < n
        invariant
            i <= n,
            n == initial.len(),
            taken@ == initial.skip(i as int),
            kept@ == without_lobby(initial.take(i as int), id@),
        decreases n - i,
    {
        proof {
            reveal_with_fuel(Seq::filter, 1);
            assert(initial.take(i + 1).drop_last() =~= initial.take(i as int));
        }
        let item = taken.remove(0);
        assert(item == initial[i as int]);
        assert(taken@ =~= initial.skip(i + 1));
        if !str_eq(item.id.as_str(), id) {
            kept.push(item);
        }
        i = i + 1;
    }
    assert(initial.take(n as int) =~= initial);
    *lobbies = kept;
}

/// Puts `lobby` in place of any lobby with its id, at the end of the list.
pub fn replace_lobby(lobbies: &mut Vec<Lobby>, lobby: Lobby)
    ensures
        final(lobbies)@ == without_lobby(old(lobbies)@, lobby.id@).push(lobby),
{
    remove_lobby(lobbies, lobby.id.as_str());
    lobbies.push(lobby);
}

/// After a lobby is put in place, exactly one lobby has its id: the last one.
pub proof fn lemma_replace_leaves_one(lobbies: Seq<Lobby>, lobby: Lobby)
    ensures
        ({
            let r = without_lobby(lobbies, lobby.id@).push(lobby);
            &&& r.last() == lobby
            &&& forall|i: int| 0 <= i < r.len() - 1 ==> r[i].id@ != lobby.id@
        }),
{
    lemma_without_lobby_has_none(lobbies, lobby.id@);
}

/// After removal no lobby has the id.
pub proof fn lemma_without_lobby_has_none(lobbies: Seq<Lobby>, id: Seq<char>)
    ensures
        forall|i: int|
            0 <= i < without_lobby(lobbies, id).len() ==> without_lobby(lobbies, id)[i].id@ != id,
{
    assert forall|i: int| 0 <= i < without_lobby(lobbies, id).len() implies without_lobby(
        lobbies,
        id,
    )[i].id@ != id by {
        let f = |l: Lobby| other_lobby(l, id);
        assert(f(lobbies.filter(f)[i]));
    }
}

/// Removing id `id` keeps exactly the lobbies whose id differs: a lobby is
/// in the result if and only if it was in the list and has another id.
pub proof fn lemma_without_lobby_keeps_others(lobbies: Seq<Lobby>, id: Seq<char>)
    ensures
        forall|l: Lobby| #[trigger] without_lobby(lobbies, id).contains(l) <==> (lobbies.contains(l)
            && l.id@ != id),
        without_lobby(lobbies, id).len() <= lobbies.len(),
{
    let f = |l: Lobby| other_lobby(l, id);
    let w = without_lobby(lobbies, id);
    assert(w == lobbies.filter(f));
    lobbies.filter_lemma(f);
    assert forall|l: Lobby| #[trigger] w.contains(l) <==> (lobbies.contains(l) && l.id@ != id) by {
        if lobbies.contains(l) && l.id@ != id {
            let i = choose|i: int| 0 <= i < lobbies.len() && lobbies[i] == l;
            assert(f(lobbies[i]));
            assert(lobbies.filter(f).contains(lobbies[i]));
        }
        if w.contains(l) {
            lobbies.lemma_filter_contains_rev(f, l);
            let k = choose|k: int| 0 <= k < w.len() && w[k] == l;
            assert(f(lobbies.filter(f)[k]));
        }
    }
}

/// The position of the first lobby with id `id`.
pub open spec fn first_lobby(lobbies: Seq<Lobby>, id: Seq<char>) -> Option<int> {
    if exists|i: int| 0 <= i < lobbies.len() && lobbies[i].id@ == id {
        Some(
            choose|i: int|
                0 <= i < lobbies.len() && lobbies[i].id@ == id && forall|k: int|
                    0 <= k < i ==> lobbies[k].id@ != id,
        )
    } else {
        None
    }
}

/// The lobbies agree in everything but their sessions.
pub open spec fn same_but_sessions(a: Lobby, b: Lobby) -> bool {
    a == Lobby { connected_sessions: a.connected_sessions, ..b }
}

/// The sessions of a lobby as texts.
pub open spec fn session_ids(sessions: Seq<String>) -> Seq<Seq<char>> {
    sessions.map_values(|s: String| s@)
}

/// The session list after a session joined: unchanged when already there,
/// else with the session appended.
pub open spec fn joined(sessions: Seq<String>, session: String) -> Seq<String> {
    if session_ids(sessions).contains(session@) {
        sessions
    } else {
        sessions.push(session)
    }
}

/// The session list after a session left: every entry of it removed.
pub open spec fn left(sessions: Seq<String>, session: Seq<char>) -> Seq<String> {
    sessions.filter(|s: String| other_session(s, session))
}

/// The entry is not the session `session`.
pub open spec fn other_session(s: String, session: Seq<char>) -> bool {
    s@ != session
}

fn find_first_lobby(lobbies: &Vec<Lobby>, id: &str) -> (r: Option<usize>)
    ensures
        r matches Some(i) ==> first_lobby(lobbies@, id@) == Some(i as int) && i < lobbies@.len(),
        r is None ==> first_lobby(lobbies@, id@) is None,
{
    let n: usize = lobbies.len();
    let mut i: usize = 0;
    while i < n
        invariant
            i <= n,
            n == lobbies@.len(),
            forall|k: int| 0 <= k < i ==> lobbies@[k].id@ != id@,
        decreases n - i,
    {
        if str_eq(lobbies[i].id.as_str(), id) {
            proof {
                let w = choose|j: int|
                    0 <= j < lobbies@.len() && lobbies@[j].id@ == id@ && forall|k: int|
                        0 <= k < j ==> lobbies@[k].id@ != id@;
                assert(lobbies@[i as int].id@ == id@);
                if w < i {
                    assert(false);
                }
                if w > i {
                    assert(lobbies@[i as int].id@ != id@);
                }
            }
            return Some(i);
        }
        i = i + 1;
    }
    None
}

fn contains_session(sessions: &Vec<String>, session: &str) -> (r: bool)
    ensures
        r == session_ids(sessions@).contains(session@),
{
    let n: usize = sessions.len();
    let mut i: usize = 0;
    while i < n
        invariant
            i <= n,
            n == sessions@.len(),
            forall|k: int| 0 <= k < i ==> sessions@[k]@ != session@,
        decreases n - i,
    {
        if str_eq(sessions[i].as_str(), session) {
            assert(session_ids(sessions@)[i as int] == session@);
            return true;
        }
        i = i + 1;
    }
    assert forall|k: int| 0 <= k < session_ids(sessions@).len() implies session_ids(
        sessions@,
    )[k] != session@ by {
        assert(session_ids(sessions@)[k] == sessions@[k]@);
    }
    false
}

/// Records that `session` joined lobby `lobby_id`: the first lobby with the
/// id lists the session once; every other lobby is unchanged.
pub fn join_session(lobbies: &mut Vec<Lobby>, lobby_id: &str, session: String)
    ensures
        match first_lobby(old(lobbies)@, lobby_id@) {
            Some(i) => {
                &&& final(lobbies)@ == old(lobbies)@.update(i, final(lobbies)@[i])
                &&& same_but_sessions(final(lobbies)@[i], old(lobbies)@[i])
                &&& final(lobbies)@[i].connected_sessions@ == joined(
                    old(lobbies)@[i].connected_sessions@,
                    session,
                )
            },
            None => final(lobbies)@ == old(lobbies)@,
        },
{
    match find_first_lobby(lobbies, lobby_id) {
        None => {},
        Some(i) => {
            assert(first_lobby(lobbies@, lobby_id@) == Some(i as int));
            let ghost before = lobbies@;
            let mut lobby = lobbies.remove(i);
            if !contains_session(&lobby.connected_sessions, session.as_str()) {
                lobby.connected_sessions.push(session);
            }
            let ghost updated = lobby;
            lobbies.insert(i, lobby);
            assert(lobbies@ =~= before.update(i as int, updated));
        },
    }
}

/// Removes every occurrence of `session` from a session list.
pub fn remove_session(sessions: &mut Vec<String>, session: &str)
    ensures
        final(sessions)@ == left(old(sessions)@, session@),
{
    let ghost initial = sessions@;
    let mut kept: Vec<String> = Vec::new();
    let mut taken: Vec<String> = Vec::new();
    std::mem::swap(&mut taken, sessions);
    let n: usize = taken.len();
    let mut i: usize = 0;
    while i < n
        invariant
            i <= n,
            n == initial.len(),
            taken@ == initial.skip(i as int),
            kept@ == left(initial.take(i as int), session@),
        decreases n - i,
    {
        proof {
            reveal_with_fuel(Seq::filter, 1);
            assert(initial.take(i + 1).drop_last() =~= initial.take(i as int));
        }
        let item = taken.remove(0);
        assert(item == initial[i as int]);
        assert(taken@ =~= initial.skip(i + 1));
        if !str_eq(item.as_str(), session) {
            kept.push(item);
        }
        i = i + 1;
    }
    assert(initial.take(n as int) =~= initial);
    *sessions = kept;
}

/// Records that `session` left lobby `lobby_id`: the first lobby with the id
/// no longer lists it; every other lobby is unchanged.
pub fn leave_session(lobbies: &mut Vec<Lobby>, lobby_id: &str, session: &str)
    ensures
        match first_lobby(old(lobbies)@, lobby_id@) {
            Some(i) => {
                &&& final(lobbies)@ == old(lobbies)@.update(i, final(lobbies)@[i])
                &&& same_but_sessions(final(lobbies)@[i], old(lobbies)@[i])
                &&& final(lobbies)@[i].connected_sessions@ == left(
                    old(lobbies)@[i].connected_sessions@,
                    session@,
                )
            },
            None => final(lobbies)@ == old(lobbies)@,
        },
{
    match find_first_lobby(lobbies, lobby_id) {
        None => {},
        Some(i) => {
            assert(first_lobby(lobbies@, lobby_id@) == Some(i as int));
            let ghost before = lobbies@;
            let mut lobby = lobbies.remove(i);
            remove_session(&mut lobby.connected_sessions, session);
            let ghost updated = lobby;
            lobbies.insert(i, lobby);
            assert(lobbies@ =~= before.update(i as int, updated));
        },
    }
}

/// A joined session is listed exactly once, and joining never lists a
/// session twice.
pub proof fn lemma_join_lists_once(sessions: Seq<String>, session: String)
    requires
        session_ids(sessions).no_duplicates(),
    ensures
        session_ids(joined(sessions, session)).no_duplicates(),
        session_ids(joined(sessions, session)).contains(session@),
{
    let ids = session_ids(sessions);
    if !ids.contains(session@) {
        assert(session_ids(sessions.push(session)) =~= ids.push(session@));
        assert(ids.push(session@)[ids.len() as int] == session@);
    }
}

/// A session that left is no longer listed.
pub proof fn lemma_left_not_listed(sessions: Seq<String>, session: Seq<char>)
    ensures
        !session_ids(left(sessions, session)).contains(session),
{
    let f = |s: String| other_session(s, session);
    assert forall|k: int| 0 <= k < session_ids(left(sessions, session)).len() implies session_ids(
        left(sessions, session),
    )[k] != session by {
        assert(f(sessions.filter(f)[k]));
    }
}

/// A session leaving keeps every other session: a session is listed
/// afterwards if and only if it was listed before and is another session.
pub proof fn lemma_left_keeps_others(sessions: Seq<String>, session: Seq<char>)
    ensures
        forall|s: String| #[trigger] left(sessions, session).contains(s) <==> (sessions.contains(s)
            && s@ != session),
{
    let f = |s: String| other_session(s, session);
    let w = left(sessions, session);
    assert(w == sessions.filter(f));
    sessions.filter_lemma(f);
    assert forall|s: String| #[trigger] w.contains(s) <==> (sessions.contains(s) && s@ != session) by {
        if sessions.contains(s) && s@ != session {
            let i = choose|i: int| 0 <= i < sessions.len() && sessions[i] == s;
            assert(f(sessions[i]));
            assert(sessions.filter(f).contains(sessions[i]));
        }
        if w.contains(s) {
            sessions.lemma_filter_contains_rev(f, s);
            let k = choose|k: int| 0 <= k < w.len() && w[k] == s;
            assert(f(sessions.filter(f)[k]));
        }
    }
}

/// Only lobbies that several players can join.
pub fn multi_user_lobbies(lobbies: Vec<Lobby>) -> (r: Vec<Lobby>)
    ensures
        r@ == lobbies@.filter(|l: Lobby| l.multi_user),
{
    let ghost initial = lobbies@;
    let mut kept: Vec<Lobby> = Vec::new();
    let mut taken = lobbies;
    let n: usize = taken.len();
    let mut i: usize = 0;
    while i < n
        invariant
            i <= n,
            n == initial.len(),
            taken@ == initial.skip(i as int),
            kept@ == initial.take(i as int).filter(|l: Lobby| l.multi_user),
        decreases n - i,
    {
        proof {
            reveal_with_fuel(Seq::filter, 1);
            assert(initial.take(i + 1).drop_last() =~= initial.take(i as int));
        }
        let item = taken.remove(0);
        assert(item == initial[i as int]);
        assert(taken@ =~= initial.skip(i + 1));
        if item.multi_user {
            kept.push(item);
        }
        i = i + 1;
    }
    assert(initial.take(n as int) =~= initial);
    kept
}

/// Follows lobby changes on the apps screen of profile `profile_id`: a lobby
/// that profile created replaces any lobby with its id, at the end; a stopped
/// lobby disappears; other events change nothing.
pub fn apply_wolf_event(profile_id: &str, event: WolfEvent, lobbies: &mut Vec<Lobby>)
    ensures
        match event {
            WolfEvent::LobbyCreated(l) => if l.started_by_profile_id@ == profile_id@ {
                final(lobbies)@ == without_lobby(old(lobbies)@, l.id@).push(*l)
            } else {
                final(lobbies)@ == old(lobbies)@
            },
            WolfEvent::LobbyStopped(id) => final(lobbies)@ == without_lobby(old(lobbies)@, id@),
            _ => final(lobbies)@ == old(lobbies)@,
        },
{
    match event {
        WolfEvent::LobbyCreated(lobby) => {
            if str_eq(lobby.started_by_profile_id.as_str(), profile_id) {
                replace_lobby(lobbies, *lobby);
            }
        },
        WolfEvent::LobbyStopped(lobby_id) => {
            remove_lobby(lobbies, lobby_id.as_str());
        },
        _ => {},
    }
}

/// Follows lobby changes on the profiles screen, which lists shared lobbies:
/// a new shared lobby replaces any lobby with its id, at the end; a stopped
/// lobby disappears; joins and leaves update the first lobby with the id.
pub fn apply_lobby_event(event: WolfEvent, lobbies: &mut Vec<Lobby>)
    ensures
        match event {
            WolfEvent::LobbyCreated(l) => if l.multi_user {
                final(lobbies)@ == without_lobby(old(lobbies)@, l.id@).push(*l)
            } else {
                final(lobbies)@ == old(lobbies)@
            },
            WolfEvent::LobbyStopped(id) => final(lobbies)@ == without_lobby(old(lobbies)@, id@),
            WolfEvent::LobbyJoined(j) => match first_lobby(old(lobbies)@, j.lobby_id@) {
                Some(i) => {
                    &&& final(lobbies)@ == old(lobbies)@.update(i, final(lobbies)@[i])
                    &&& same_but_sessions(final(lobbies)@[i], old(lobbies)@[i])
                    &&& final(lobbies)@[i].connected_sessions@ == joined(
                        old(lobbies)@[i].connected_sessions@,
                        j.moonlight_session_id,
                    )
                },
                None => final(lobbies)@ == old(lobbies)@,
            },
            WolfEvent::LobbyLeft(e) => match first_lobby(old(lobbies)@, e.lobby_id@) {
                Some(i) => {
                    &&& final(lobbies)@ == old(lobbies)@.update(i, final(lobbies)@[i])
                    &&& same_but_sessions(final(lobbies)@[i], old(lobbies)@[i])
                    &&& final(lobbies)@[i].connected_sessions@ == left(
                        old(lobbies)@[i].connected_sessions@,
                        e.moonlight_session_id@,
                    )
                },
                None => final(lobbies)@ == old(lobbies)@,
            },
            WolfEvent::Other(_) => final(lobbies)@ == old(lobbies)@,
        },
{
    match event {
        WolfEvent::LobbyCreated(lobby) => {
            if lobby.multi_user {
                replace_lobby(lobbies, *lobby);
            }
        },
        WolfEvent::LobbyStopped(lobby_id) => {
            remove_lobby(lobbies, lobby_id.as_str());
        },
        WolfEvent::LobbyJoined(event) => {
            join_session(lobbies, event.lobby_id.as_str(), event.moonlight_session_id);
        },
        WolfEvent::LobbyLeft(event) => {
            leave_session(lobbies, event.lobby_id.as_str(), event.moonlight_session_id.as_str());
        },
        WolfEvent::Other(_) => {},
    }
}

} // verus!
