//! Toast notes: each shown note gets the next id, and dismissing an id
//! removes that note alone. Auto-hide delays are in milliseconds.

use vstd::prelude::*;

use crate::text::owned;

verus! {

/// Notes hide themselves after five seconds unless told otherwise.
pub const DEFAULT_AUTO_HIDE: u64 = 5000;

#[derive(Clone, Copy, Debug, PartialEq, Eq, Structural)]
pub enum ToastVariant {
    Info,
    Error,
}

#[derive(Clone, Copy, Debug, PartialEq, Eq, Structural)]
pub struct ToastOptions {
    pub variant: ToastVariant,
    pub auto_hide: Option<u64>,
}

impl Default for ToastOptions {
    /// An informational note that hides itself after the default delay.
    fn default() -> (r: ToastOptions)
        ensures
            r == (ToastOptions { variant: ToastVariant::Info, auto_hide: Some(DEFAULT_AUTO_HIDE) }),
    {
        ToastOptions { variant: ToastVariant::Info, auto_hide: Some(DEFAULT_AUTO_HIDE) }
    }
}

impl ToastOptions {
    /// An error note that hides itself after the default delay.
    pub fn error() -> (r: ToastOptions)
        ensures
            r == (ToastOptions { variant: ToastVariant::Error, auto_hide: Some(DEFAULT_AUTO_HIDE) }),
    {
        ToastOptions { variant: ToastVariant::Error, auto_hide: Some(DEFAULT_AUTO_HIDE) }
    }

    /// The same note, staying until dismissed.
    pub fn persistent(self) -> (r: ToastOptions)
        ensures
            r == (ToastOptions { auto_hide: None, ..self }),
    {
        ToastOptions { auto_hide: None, ..self }
    }
}

#[derive(Clone, Debug, PartialEq, Eq)]
pub struct ToastMessage {
    pub id: u64,
    pub message: String,
    pub variant: ToastVariant,
    pub auto_hide: Option<u64>,
}

/// The notes on screen, oldest first, and the id the next note gets.
pub struct ToastContext {
    messages: Vec<ToastMessage>,
    next_id: u64,
}

pub struct ToastsView {
    pub messages: Seq<ToastMessage>,
    pub next_id: u64,
}

impl View for ToastContext {
    type V = ToastsView;

    closed spec fn view(&self) -> ToastsView {
        ToastsView { messages: self.messages@, next_id: self.next_id }
    }
}

/// Ids rise from the oldest note to the newest.
pub open spec fn ids_increasing(messages: Seq<ToastMessage>) -> bool {
    forall|a: int, b: int| 0 <= a < b < messages.len() ==> messages[a].id < messages[b].id
}

/// Every note's id was handed out before `next_id`.
pub open spec fn ids_below(messages: Seq<ToastMessage>, next_id: u64) -> bool {
    forall|a: int| 0 <= a < messages.len() ==> #[trigger] messages[a].id < next_id
}

pub open spec fn other_note(m: ToastMessage, id: u64) -> bool {
    m.id != id
}

/// The notes without the one with id `id`, in order.
pub open spec fn without_note(messages: Seq<ToastMessage>, id: u64) -> Seq<ToastMessage> {
    messages.filter(|m: ToastMessage| other_note(m, id))
}

impl ToastsView {
    pub open spec fn wf(self) -> bool {
        &&& self.next_id >= 1
        &&& ids_increasing(self.messages)
        &&& ids_below(self.messages, self.next_id)
    }
}

impl ToastContext {
    /// No notes; the first gets id 1.
    pub fn new() -> (t: ToastContext)
        ensures
            t@.wf(),
            t@.messages == Seq::<ToastMessage>::empty(),
            t@.next_id == 1,
    {
        ToastContext { messages: Vec::new(), next_id: 1 }
    }

    pub fn messages(&self) -> (r: &Vec<ToastMessage>)
        ensures
            r@ == self@.messages,
    {
        &self.messages
    }

    fn next_message_id(&mut self) -> (id: u64)
        requires
            old(self)@.next_id < u64::MAX,
        ensures
            id == old(self)@.next_id,
            final(self)@.next_id == old(self)@.next_id + 1,
            final(self)@.messages == old(self)@.messages,
    {
        let id = self.next_id;
        self.next_id = id + 1;
        id
    }

    /// Shows a note with the given options, or the default ones: it goes
    /// last and gets the next id.
    pub fn show(&mut self, message: &str, options: Option<ToastOptions>)
        requires
            old(self)@.wf(),
            old(self)@.next_id < u64::MAX,
        ensures
            final(self)@.wf(),
            final(self)@.next_id == old(self)@.next_id + 1,
            ({
                let o = match options {
                    Some(o) => o,
                    None => ToastOptions { variant: ToastVariant::Info, auto_hide: Some(DEFAULT_AUTO_HIDE) },
                };
                final(self)@.messages.len() == old(self)@.messages.len() + 1
                    && final(self)@.messages.drop_last() == old(self)@.messages
                    && final(self)@.messages.last().id == old(self)@.next_id
                    && final(self)@.messages.last().message@ == message@
                    && final(self)@.messages.last().variant == o.variant
                    && final(self)@.messages.last().auto_hide == o.auto_hide
            }),
    {
        let options = match options {
            Some(o) => o,
            None => ToastOptions::default(),
        };
        let id = self.next_message_id();
        let note = ToastMessage {
            id,
            message: owned(message),
            variant: options.variant,
            auto_hide: options.auto_hide,
        };
        self.messages.push(note);
        assert(self.messages@.drop_last() =~= old(self)@.messages);
    }

    /// Removes the note with id `id`; the others stay in order.
    pub fn dismiss(&mut self, id: u64)
        requires
            old(self)@.wf(),
        ensures
            final(self)@.wf(),
            final(self)@.next_id == old(self)@.next_id,
            final(self)@.messages == without_note(old(self)@.messages, id),
    {
        let ghost initial = self.messages@;
        let ghost next = self.next_id;
        let mut kept: Vec<ToastMessage> = Vec::new();
        let mut taken: Vec<ToastMessage> = Vec::new();
        std::mem::swap(&mut taken, &mut self.messages);
        let n: usize = taken.len();
        let mut i: usize = 0;
        while i < n
            invariant
                i <= n,
                n == initial.len(),
                taken@ == initial.skip(i as int),
                kept@ == without_note(initial.take(i as int), id),
                ids_increasing(initial),
                ids_below(initial, next),
                ids_increasing(kept@),
                ids_below(kept@, next),
                i < n ==> forall|k: int| 0 <= k < kept@.len() ==> kept@[k].id < initial[i as int].id,
            decreases n - i,
        {
            proof {
                reveal_with_fuel(Seq::filter, 1);
                assert(initial.take(i + 1).drop_last() =~= initial.take(i as int));
            }
            let item = taken.remove(0);
            assert(item == initial[i as int]);
            assert(taken@ =~= initial.skip(i + 1));
            if item.id != id {
                kept.push(item);
                assert(kept@.last() == initial[i as int]);
            }
            i = i + 1;
            assert(i < n ==> initial[i - 1].id < initial[i as int].id);
        }
        assert(initial.take(n as int) =~= initial);
        self.messages = kept;
    }
}

/// Dismissing a note leaves no note with its id and keeps every other note.
pub proof fn lemma_dismiss_removes_exactly(messages: Seq<ToastMessage>, id: u64)
    ensures
        forall|k: int| 0 <= k < without_note(messages, id).len() ==> without_note(messages, id)[k].id
            != id,
        forall|m: ToastMessage| messages.contains(m) && m.id != id ==> without_note(
            messages,
            id,
        ).contains(m),
{
    let f = |m: ToastMessage| other_note(m, id);
    assert forall|k: int| 0 <= k < without_note(messages, id).len() implies without_note(
        messages,
        id,
    )[k].id != id by {
        assert(f(messages.filter(f)[k]));
    }
    assert forall|m: ToastMessage| messages.contains(m) && m.id != id implies without_note(
        messages,
        id,
    ).contains(m) by {
        messages.lemma_filter_contains_rev(f, m);
    }
}

/// Two notes on screen never share an id.
pub proof fn lemma_ids_unique(t: ToastsView, a: int, b: int)
    requires
        t.wf(),
        0 <= a < t.messages.len(),
        0 <= b < t.messages.len(),
        a != b,
    ensures
        t.messages[a].id != t.messages[b].id,
{
}

pub fn toast_tone(variant: ToastVariant) -> (r: &'static str)
    ensures
        variant == ToastVariant::Info ==> r@ == "border-border bg-card/95 text-card-foreground"@,
        variant == ToastVariant::Error ==> r@
            == "border-destructive bg-destructive/30 text-destructive-foreground"@,
{
    match variant {
        ToastVariant::Info => "border-border bg-card/95 text-card-foreground",
        ToastVariant::Error => "border-destructive bg-destructive/30 text-destructive-foreground",
    }
}

} // verus!
