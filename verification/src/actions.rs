//! Footer action hints and the registry that maps the ids the page sends
//! back to the handlers that screens registered.

use vstd::prelude::*;

use crate::input::UiHint;
use crate::text::{concat, decimal, decimal_string, lemma_decimal_injective, owned, str_eq};

verus! {

/// A hint in the footer: what it shows, and the id of the handler to call
/// when it is pressed.
#[derive(Clone, Debug, PartialEq, Eq)]
pub struct ActionHint {
    pub action: UiHint,
    pub label: String,
    pub handler: Option<String>,
}

impl ActionHint {
    pub fn new(action: UiHint, label: &str) -> (r: ActionHint)
        ensures
            r.action == action,
            r.label@ == label@,
            r.handler is None,
    {
        ActionHint { action, label: owned(label), handler: None }
    }
}

/// The id of the `n`-th registered handler.
pub open spec fn handler_id(n: nat) -> Seq<char> {
    "action-"@ + decimal(n)
}

/// A registered handler, with the number its id was made from.
pub struct Registered<H> {
    pub number: u64,
    pub id: String,
    pub handler: H,
}

/// Handlers by id. Ids are `action-1`, `action-2`, ... in the order of
/// registration and are never reused.
pub struct ActionRegistry<H> {
    next_id: u64,
    handlers: Vec<Registered<H>>,
}

pub struct RegistryView<H> {
    pub next_id: u64,
    pub entries: Seq<Registered<H>>,
}

impl<H> View for ActionRegistry<H> {
    type V = RegistryView<H>;

    closed spec fn view(&self) -> RegistryView<H> {
        RegistryView { next_id: self.next_id, entries: self.handlers@ }
    }
}

pub open spec fn numbers_increasing<H>(entries: Seq<Registered<H>>) -> bool {
    forall|a: int, b: int| 0 <= a < b < entries.len() ==> entries[a].number < entries[b].number
}

impl<H> RegistryView<H> {
    /// Each id is made from its number, numbers rise in registration order,
    /// and every number was handed out before `next_id`.
    pub open spec fn wf(self) -> bool {
        &&& self.next_id >= 1
        &&& numbers_increasing(self.entries)
        &&& forall|a: int|
            0 <= a < self.entries.len() ==> {
                &&& 1 <= #[trigger] self.entries[a].number < self.next_id
                &&& self.entries[a].id@ == handler_id(self.entries[a].number as nat)
            }
    }
}

/// Some entry has the id.
pub open spec fn has_id<H>(entries: Seq<Registered<H>>, id: Seq<char>) -> bool {
    exists|i: int| 0 <= i < entries.len() && entries[i].id@ == id
}

/// The handler registered under `id`.
pub open spec fn handler_for<H>(entries: Seq<Registered<H>>, id: Seq<char>) -> Option<H> {
    if has_id(entries, id) {
        Some(entries[choose|i: int| 0 <= i < entries.len() && entries[i].id@ == id].handler)
    } else {
        None
    }
}

pub open spec fn other_id<H>(e: Registered<H>, id: Seq<char>) -> bool {
    e.id@ != id
}

pub open spec fn without_id<H>(entries: Seq<Registered<H>>, id: Seq<char>) -> Seq<Registered<H>> {
    entries.filter(|e: Registered<H>| other_id(e, id))
}

/// Two ids made from different numbers differ.
pub proof fn lemma_handler_ids_differ(a: nat, b: nat)
    requires
        a != b,
    ensures
        handler_id(a) != handler_id(b),
{
    if handler_id(a) == handler_id(b) {
        let p = "action-"@;
        assert(handler_id(a).skip(p.len() as int) =~= decimal(a));
        assert(handler_id(b).skip(p.len() as int) =~= decimal(b));
        lemma_decimal_injective(a, b);
    }
}

/// In a well-formed registry no two entries share an id.
pub proof fn lemma_ids_unique<H>(r: RegistryView<H>, a: int, b: int)
    requires
        r.wf(),
        0 <= a < r.entries.len(),
        0 <= b < r.entries.len(),
        a != b,
    ensures
        r.entries[a].id@ != r.entries[b].id@,
{
    lemma_handler_ids_differ(r.entries[a].number as nat, r.entries[b].number as nat);
}

impl<H: Copy> ActionRegistry<H> {
    pub fn new() -> (r: ActionRegistry<H>)
        ensures
            r@.wf(),
            r@.next_id == 1,
            r@.entries == Seq::<Registered<H>>::empty(),
    {
        ActionRegistry { next_id: 1, handlers: Vec::new() }
    }

    /// Registers `handler` under a new id, which is returned.
    pub fn register(&mut self, handler: H) -> (id: String)
        requires
            old(self)@.wf(),
            old(self)@.next_id < u64::MAX,
        ensures
            final(self)@.wf(),
            id@ == handler_id(old(self)@.next_id as nat),
            !has_id(old(self)@.entries, id@),
            final(self)@.next_id == old(self)@.next_id + 1,
            final(self)@.entries.len() == old(self)@.entries.len() + 1,
            final(self)@.entries.drop_last() == old(self)@.entries,
            final(self)@.entries.last().id@ == id@,
            final(self)@.entries.last().handler == handler,
    {
        let number = self.next_id;
        let digits = decimal_string(number);
        let id = concat("action-", digits.as_str());
        proof {
            assert forall|i: int| 0 <= i < self.handlers@.len() implies self.handlers@[i].id@
                != id@ by {
                lemma_handler_ids_differ(self.handlers@[i].number as nat, number as nat);
            }
        }
        let stored = owned(id.as_str());
        self.next_id = number + 1;
        self.handlers.push(Registered { number, id: stored, handler });
        assert(self.handlers@.drop_last() =~= old(self)@.entries);
        id
    }

    /// Drops the handler registered under `id`, if any.
    pub fn unregister(&mut self, id: &str)
        requires
            old(self)@.wf(),
        ensures
            final(self)@.wf(),
            final(self)@.next_id == old(self)@.next_id,
            final(self)@.entries == without_id(old(self)@.entries, id@),
    {
        let ghost initial = self.handlers@;
        let ghost next = self.next_id;
        let mut kept: Vec<Registered<H>> = Vec::new();
        let mut taken: Vec<Registered<H>> = Vec::new();
        std::mem::swap(&mut taken, &mut self.handlers);
        let n: usize = taken.len();
        let mut i: usize = 0;
        while i < n
            invariant
                i <= n,
                n == initial.len(),
                taken@ == initial.skip(i as int),
                kept@ == without_id(initial.take(i as int), id@),
                (RegistryView { next_id: next, entries: initial }).wf(),
                (RegistryView { next_id: next, entries: kept@ }).wf(),
                i < n ==> forall|k: int|
                    0 <= k < kept@.len() ==> kept@[k].number < initial[i as int].number,
            decreases n - i,
        {
            proof {
                reveal_with_fuel(Seq::filter, 1);
                assert(initial.take(i + 1).drop_last() =~= initial.take(i as int));
            }
            let item = taken.remove(0);
            assert(item == initial[i as int]);
            assert(taken@ =~= initial.skip(i + 1));
            if !str_eq(item.id.as_str(), id) {
                kept.push(item);
                assert(kept@.last() == initial[i as int]);
            }
            i = i + 1;
            assert(i < n ==> initial[i - 1].number < initial[i as int].number);
        }
        assert(initial.take(n as int) =~= initial);
        self.handlers = kept;
    }

    /// The handler registered under `id`; the caller calls it.
    pub fn call(&self, id: &str) -> (r: Option<H>)
        requires
            self@.wf(),
        ensures
            r == handler_for(self@.entries, id@),
    {
        let mut i: usize = 0;
        while i < self.handlers.len()
            invariant
                self@.wf(),
                i <= self.handlers@.len(),
                forall|k: int| 0 <= k < i ==> self.handlers@[k].id@ != id@,
            decreases self.handlers@.len() - i,
        {
            if str_eq(self.handlers[i].id.as_str(), id) {
                let h = self.handlers[i].handler;
                proof {
                    let entries = self.handlers@;
                    assert(has_id(entries, id@));
                    let j = choose|j: int| 0 <= j < entries.len() && entries[j].id@ == id@;
                    if j != i {
                        lemma_ids_unique(self@, i as int, j);
                    }
                }
                return Some(h);
            }
            i = i + 1;
        }
        None
    }
}

/// Once an id is unregistered, nothing answers to it.
pub proof fn lemma_unregistered_id_not_found<H>(entries: Seq<Registered<H>>, id: Seq<char>)
    ensures
        handler_for(without_id(entries, id), id) is None,
{
    let f = |e: Registered<H>| other_id(e, id);
    let w = without_id(entries, id);
    assert forall|i: int| 0 <= i < w.len() implies w[i].id@ != id by {
        assert(f(entries.filter(f)[i]));
    }
}

/// Unregistering an id keeps every other handler: an entry is kept if and
/// only if it was there and has another id.
pub proof fn lemma_unregister_keeps_others<H>(entries: Seq<Registered<H>>, id: Seq<char>)
    ensures
        forall|e: Registered<H>| #[trigger] without_id(entries, id).contains(e) <==> (
        entries.contains(e) && e.id@ != id),
{
    let f = |e: Registered<H>| other_id(e, id);
    let w = without_id(entries, id);
    assert(w == entries.filter(f));
    entries.filter_lemma(f);
    assert forall|e: Registered<H>| #[trigger] w.contains(e) <==> (entries.contains(e) && e.id@ != id) by {
        if entries.contains(e) && e.id@ != id {
            let i = choose|i: int| 0 <= i < entries.len() && entries[i] == e;
            assert(f(entries[i]));
            assert(entries.filter(f).contains(entries[i]));
        }
        if w.contains(e) {
            entries.lemma_filter_contains_rev(f, e);
            let k = choose|k: int| 0 <= k < w.len() && w[k] == e;
            assert(f(entries.filter(f)[k]));
        }
    }
}

/// A newly registered handler answers to the id it was given.
pub proof fn lemma_registered_id_found<H>(entries: Seq<Registered<H>>, e: Registered<H>)
    requires
        !has_id(entries, e.id@),
    ensures
        handler_for(entries.push(e), e.id@) == Some(e.handler),
{
    let s = entries.push(e);
    assert(s[s.len() - 1].id@ == e.id@);
    assert(has_id(s, e.id@));
}

} // verus!
