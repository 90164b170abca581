//! The apps screen: each app's card and status, the order the cards are
//! shown in, and the actions offered for an app.

use vstd::prelude::*;

use crate::events::views;
use crate::model::{App, Lobby, Runner, app_image, docker_image, runner_label, same_app};
use crate::order::{lex_less, lex_lt, lemma_lex_irreflexive, lemma_lex_total, lemma_lex_transitive};
use crate::text::{chars_of, owned, str_eq, trim};

verus! {

broadcast use vstd::seq_lib::to_multiset_insert, vstd::seq_lib::to_multiset_contains;

/// How the apps are ordered.
#[derive(Clone, Copy, Debug, PartialEq, Eq, Structural)]
pub enum AppFilter {
    Default,
    Available,
    Alphabetical,
}

pub fn filter_label(filter: AppFilter) -> (r: &'static str)
    ensures
        filter == AppFilter::Default ==> r@ == "Default"@,
        filter == AppFilter::Available ==> r@ == "Available"@,
        filter == AppFilter::Alphabetical ==> r@ == "A-Z"@,
{
    match filter {
        AppFilter::Default => "Default",
        AppFilter::Available => "Available",
        AppFilter::Alphabetical => "A-Z",
    }
}

#[derive(Clone, Copy, Debug, PartialEq, Eq, Structural)]
pub enum AppStatusKind {
    Ready,
    Playing,
    MissingImage,
}

#[derive(Clone, Copy, Debug, PartialEq, Eq, Structural)]
pub enum AppStatusTone {
    Ready,
    Warning,
}

#[derive(Clone, Debug, PartialEq, Eq)]
pub struct AppStatus {
    pub kind: AppStatusKind,
    pub label: String,
    pub tone: AppStatusTone,
}

/// What an app card shows.
#[derive(Clone, Debug, PartialEq, Eq)]
pub struct AppCardData {
    pub id: String,
    pub title: String,
    pub runner: String,
    pub source: App,
    pub status: AppStatus,
    pub supports_hdr: bool,
    pub cover_src: Option<String>,
}

/// What can be done with an app.
#[derive(Clone, Copy, Debug, PartialEq, Eq, Structural)]
pub enum AppAction {
    Start,
    Connect,
    StartCoop,
    Stop,
    CheckUpdate,
    Download,
}

/// The value stored for `key` in a list of pairs; a later pair overrides an
/// earlier one, as when the pairs are collected into a map.
pub open spec fn value_for<V>(entries: Seq<(String, V)>, key: Seq<char>) -> Option<V>
    decreases entries.len(),
{
    if entries.len() == 0 {
        None
    } else if entries.last().0@ == key {
        Some(entries.last().1)
    } else {
        value_for(entries.drop_last(), key)
    }
}

/// In a list of pairs the last pair for a key decides: appending a pair for
/// `key` makes its value the one found, and pairs for other keys change
/// nothing.
pub proof fn lemma_last_pair_wins<V>(entries: Seq<(String, V)>, key: String, value: V, other: Seq<char>)
    ensures
        value_for(entries.push((key, value)), key@) == Some(value),
        other != key@ ==> value_for(entries.push((key, value)), other) == value_for(entries, other),
{
    assert(entries.push((key, value)).drop_last() =~= entries);
}

/// Whether an image is known to be present.
pub fn image_available(images: &[(String, bool)], image: &str) -> (r: Option<bool>)
    ensures
        r == value_for(images@, image@),
{
    let mut j: usize = images.len();
    assert(images@.take(j as int) =~= images@);
    while j > 0
        invariant
            j <= images@.len(),
            value_for(images@, image@) == value_for(images@.take(j as int), image@),
        decreases j,
    {
        proof {
            assert(images@.take(j as int).drop_last() =~= images@.take(j - 1));
            assert(images@.take(j as int).last() == images@[j - 1]);
        }
        if str_eq(images[j - 1].0.as_str(), image) {
            return Some(images[j - 1].1);
        }
        j = j - 1;
    }
    None
}

/// The cover image stored for an app id.
pub fn cover_for(covers: &[(String, String)], app_id: &str) -> (r: Option<String>)
    ensures
        r == value_for(covers@, app_id@),
{
    let mut j: usize = covers.len();
    assert(covers@.take(j as int) =~= covers@);
    while j > 0
        invariant
            j <= covers@.len(),
            value_for(covers@, app_id@) == value_for(covers@.take(j as int), app_id@),
        decreases j,
    {
        proof {
            assert(covers@.take(j as int).drop_last() =~= covers@.take(j - 1));
            assert(covers@.take(j as int).last() == covers@[j - 1]);
        }
        if str_eq(covers[j - 1].0.as_str(), app_id) {
            return Some(covers[j - 1].1.clone());
        }
        j = j - 1;
    }
    None
}

/// Two runners start the same thing: Docker runners with the same
/// container name, or process runners with the same command.
pub open spec fn runners_match_spec(app: Runner, lobby: Runner) -> bool {
    match (app, lobby) {
        (Runner::Docker(a), Runner::Docker(l)) => a.name@ == l.name@,
        (Runner::Cmd(a), Runner::Cmd(l)) => a.run_cmd@ == l.run_cmd@,
        _ => false,
    }
}

pub fn runner_matches(app_runner: &Runner, lobby_runner: &Runner) -> (r: bool)
    ensures
        r == runners_match_spec(*app_runner, *lobby_runner),
{
    match (app_runner, lobby_runner) {
        (Runner::Docker(a), Runner::Docker(l)) => str_eq(a.name.as_str(), l.name.as_str()),
        (Runner::Cmd(a), Runner::Cmd(l)) => str_eq(a.run_cmd.as_str(), l.run_cmd.as_str()),
        _ => false,
    }
}

/// The lobby runs the app for the profile, in the given mode: it was started
/// by the profile, its mode matches, and it has the app's title or runs the
/// same thing.
pub open spec fn app_lobby(profile_id: Seq<char>, app: App, lobby: Lobby, multi_user: bool) -> bool {
    &&& lobby.started_by_profile_id@ == profile_id
    &&& lobby.multi_user == multi_user
    &&& (lobby.name@ == app.title@ || runners_match_spec(app.runner, lobby.runner))
}

pub fn is_app_lobby(profile_id: &str, app: &App, lobby: &Lobby, multi_user: bool) -> (r: bool)
    ensures
        r == app_lobby(profile_id@, *app, *lobby, multi_user),
{
    str_eq(lobby.started_by_profile_id.as_str(), profile_id) && lobby.multi_user == multi_user && (
    str_eq(lobby.name.as_str(), app.title.as_str()) || runner_matches(&app.runner, &lobby.runner))
}

/// The app is being played: some single-player lobby of the profile runs it.
pub open spec fn app_running(profile_id: Seq<char>, app: App, lobbies: Seq<Lobby>) -> bool {
    exists|i: int| 0 <= i < lobbies.len() && app_lobby(profile_id, app, #[trigger] lobbies[i], false)
}

/// The app's image is not known to be missing.
pub open spec fn image_present(app: App, images: Seq<(String, bool)>) -> bool {
    match app_image(app) {
        Some(image) => match value_for(images, image@) {
            Some(present) => present,
            None => true,
        },
        None => true,
    }
}

/// The status of an app: playing when a lobby runs it, else missing when its
/// image is known to be absent, else ready.
pub open spec fn status_kind_of(
    profile_id: Seq<char>,
    app: App,
    lobbies: Seq<Lobby>,
    images: Seq<(String, bool)>,
) -> AppStatusKind {
    if app_running(profile_id, app, lobbies) {
        AppStatusKind::Playing
    } else if !image_present(app, images) {
        AppStatusKind::MissingImage
    } else {
        AppStatusKind::Ready
    }
}

pub open spec fn tone_of(kind: AppStatusKind) -> AppStatusTone {
    match kind {
        AppStatusKind::MissingImage => AppStatusTone::Warning,
        _ => AppStatusTone::Ready,
    }
}

pub open spec fn status_label_of(kind: AppStatusKind) -> Seq<char> {
    match kind {
        AppStatusKind::Playing => "Playing"@,
        AppStatusKind::MissingImage => "Missing image"@,
        AppStatusKind::Ready => "Ready"@,
    }
}

pub open spec fn runner_label_of(runner: Runner) -> Seq<char> {
    match runner {
        Runner::Docker(_) => "Docker"@,
        Runner::Cmd(_) => "Process"@,
    }
}

/// The card shows the app with its status for the profile.
pub open spec fn card_of(
    card: AppCardData,
    profile_id: Seq<char>,
    app: App,
    lobbies: Seq<Lobby>,
    images: Seq<(String, bool)>,
    covers: Seq<(String, String)>,
) -> bool {
    let kind = status_kind_of(profile_id, app, lobbies, images);
    &&& card.id == app.id
    &&& card.title == app.title
    &&& card.runner@ == runner_label_of(app.runner)
    &&& same_app(card.source, app)
    &&& card.status.kind == kind
    &&& card.status.tone == tone_of(kind)
    &&& card.status.label@ == status_label_of(kind)
    &&& card.supports_hdr == app.support_hdr
    &&& card.cover_src == value_for(covers, app.id@)
}

fn is_running(profile_id: &str, app: &App, lobbies: &[Lobby]) -> (r: bool)
    ensures
        r == app_running(profile_id@, *app, lobbies@),
{
    let mut i: usize = 0;
    while i < lobbies.len()
        invariant
            i <= lobbies@.len(),
            forall|k: int| 0 <= k < i ==> !app_lobby(profile_id@, *app, #[trigger] lobbies@[k], false),
        decreases lobbies@.len() - i,
    {
        if is_app_lobby(profile_id, app, &lobbies[i], false) {
            return true;
        }
        i = i + 1;
    }
    false
}

/// The card for one app.
pub fn app_card_data(
    profile_id: &str,
    app: App,
    lobbies: &[Lobby],
    images: &[(String, bool)],
    covers: &[(String, String)],
) -> (r: AppCardData)
    ensures
        card_of(r, profile_id@, app, lobbies@, images@, covers@),
{
    let image = docker_image(&app);
    let image_exists = match &image {
        Some(image) => match image_available(images, image.as_str()) {
            Some(present) => present,
            None => true,
        },
        None => true,
    };
    let running = is_running(profile_id, &app, lobbies);
    let status = if running {
        AppStatus { kind: AppStatusKind::Playing, label: owned("Playing"), tone: AppStatusTone::Ready }
    } else if !image_exists {
        AppStatus {
            kind: AppStatusKind::MissingImage,
            label: owned("Missing image"),
            tone: AppStatusTone::Warning,
        }
    } else {
        AppStatus { kind: AppStatusKind::Ready, label: owned("Ready"), tone: AppStatusTone::Ready }
    };
    let cover_src = cover_for(covers, app.id.as_str());
    AppCardData {
        id: app.id.clone(),
        title: app.title.clone(),
        runner: owned(runner_label(&app.runner)),
        source: app.copy(),
        status,
        supports_hdr: app.support_hdr,
        cover_src,
    }
}

/// The card sorts first under the "Available" order: it is not flagged.
pub open spec fn ready_card(card: AppCardData) -> bool {
    card.status.tone == AppStatusTone::Ready
}

/// The key cards are ordered by alphabetically: the lower-cased title.
pub open spec fn title_key(card: AppCardData) -> Seq<char> {
    lowercase(card.title@)
}

/// The lower-case form of a text, by Unicode's case mapping.
pub uninterp spec fn lowercase(s: Seq<char>) -> Seq<char>;

/// The lower-case form of `s` by `str::to_lowercase`, a function of the text alone.
#[verifier::external_body]
fn to_lowercase(s: &str) -> (r: String)
    ensures
        r@ == lowercase(s@),
{
    s.to_lowercase()
}

/// `x` placed into `s` after every card whose key is not greater than its own,
/// scanning from the end: one step of a stable insertion sort.
pub open spec fn insert_by_title(s: Seq<AppCardData>, x: AppCardData) -> Seq<AppCardData>
    decreases s.len(),
{
    if s.len() == 0 {
        seq![x]
    } else if !lex_lt(title_key(x), title_key(s.last())) {
        s.push(x)
    } else {
        insert_by_title(s.drop_last(), x).push(s.last())
    }
}

/// The cards in alphabetical order of their keys, equal keys keeping their
/// initial order.
pub open spec fn sort_by_title(cards: Seq<AppCardData>) -> Seq<AppCardData>
    decreases cards.len(),
{
    if cards.len() == 0 {
        Seq::empty()
    } else {
        insert_by_title(sort_by_title(cards.drop_last()), cards.last())
    }
}

/// The cards in the order a filter asks for.
pub open spec fn arranged(cards: Seq<AppCardData>, filter: AppFilter) -> Seq<AppCardData> {
    match filter {
        AppFilter::Default => cards,
        AppFilter::Available => cards.filter(|c: AppCardData| ready_card(c)) + cards.filter(
            |c: AppCardData| !ready_card(c),
        ),
        AppFilter::Alphabetical => sort_by_title(cards),
    }
}

proof fn lemma_insert_at(s: Seq<AppCardData>, x: AppCardData, j: int)
    requires
        0 <= j <= s.len(),
        forall|k: int| j <= k < s.len() ==> lex_lt(title_key(x), #[trigger] title_key(s[k])),
        j == 0 || !lex_lt(title_key(x), title_key(s[j - 1])),
    ensures
        insert_by_title(s, x) == s.insert(j, x),
    decreases s.len(),
{
    if s.len() == j {
        assert(s.insert(j, x) =~= s.push(x));
        if s.len() == 0 {
            assert(s.push(x) =~= seq![x]);
        }
    } else {
        assert(lex_lt(title_key(x), title_key(s[s.len() - 1])));
        lemma_insert_at(s.drop_last(), x, j);
        assert(s.drop_last().insert(j, x).push(s.last()) =~= s.insert(j, x));
    }
}

/// Cards in non-decreasing order of their keys.
pub open spec fn sorted_by_title(s: Seq<AppCardData>) -> bool {
    forall|i: int, j: int| 0 <= i < j < s.len() ==> !lex_lt(title_key(s[j]), title_key(s[i]))
}

proof fn lemma_insert_sorted(s: Seq<AppCardData>, x: AppCardData)
    requires
        sorted_by_title(s),
    ensures
        sorted_by_title(insert_by_title(s, x)),
        insert_by_title(s, x).to_multiset() == s.to_multiset().insert(x),
    decreases s.len(),
{
    if s.len() == 0 {
        assert(insert_by_title(s, x) =~= s.insert(0, x));
    } else if !lex_lt(title_key(x), title_key(s.last())) {
        assert(s.push(x) =~= s.insert(s.len() as int, x));
        let r = s.push(x);
        assert forall|i: int, j: int| 0 <= i < j < r.len() implies !lex_lt(
            title_key(r[j]),
            title_key(r[i]),
        ) by {
            if j == s.len() && i < s.len() - 1 {
                if lex_lt(title_key(x), title_key(s[i])) {
                    lemma_lex_total(title_key(s[i]), title_key(s.last()));
                    if lex_lt(title_key(s[i]), title_key(s.last())) {
                        lemma_lex_transitive(title_key(x), title_key(s[i]), title_key(s.last()));
                    }
                }
            }
        }
    } else {
        let t = insert_by_title(s.drop_last(), x);
        lemma_insert_sorted(s.drop_last(), x);
        let r = t.push(s.last());
        assert(r.to_multiset() == t.to_multiset().insert(s.last())) by {
            assert(t.push(s.last()) =~= t.insert(t.len() as int, s.last()));
        }
        assert(s.to_multiset() == s.drop_last().to_multiset().insert(s.last())) by {
            assert(s.drop_last().insert(s.len() - 1, s.last()) =~= s);
        }
        assert forall|i: int, j: int| 0 <= i < j < r.len() implies !lex_lt(
            title_key(r[j]),
            title_key(r[i]),
        ) by {
            if j == r.len() - 1 {
                let y = t[i];
                assert(t.to_multiset().contains(y));
                if y == x {
                    if lex_lt(title_key(s.last()), title_key(x)) {
                        lemma_lex_transitive(title_key(x), title_key(s.last()), title_key(x));
                        lemma_lex_irreflexive(title_key(x));
                    }
                } else {
                    assert(s.drop_last().to_multiset().contains(y));
                    assert(s.drop_last().contains(y));
                    let k = choose|k: int| 0 <= k < s.drop_last().len() && s.drop_last()[k] == y;
                    assert(s[k] == y);
                }
            }
        }
    }
}

/// The alphabetical order is sorted by lower-cased title and holds exactly
/// the cards it was given.
pub proof fn lemma_sort_by_title_sorted(cards: Seq<AppCardData>)
    ensures
        sorted_by_title(sort_by_title(cards)),
        sort_by_title(cards).to_multiset() == cards.to_multiset(),
    decreases cards.len(),
{
    if cards.len() > 0 {
        lemma_sort_by_title_sorted(cards.drop_last());
        lemma_insert_sorted(sort_by_title(cards.drop_last()), cards.last());
        assert(cards.drop_last().insert(cards.len() - 1, cards.last()) =~= cards);
    }
}

fn arrange_by_title(cards: Vec<AppCardData>) -> (r: Vec<AppCardData>)
    ensures
        r@ == sort_by_title(cards@),
{
    let ghost initial = cards@;
    let mut rest = cards;
    let mut sorted: Vec<AppCardData> = Vec::new();
    let mut keys: Vec<Vec<char>> = Vec::new();
    let n: usize = rest.len();
    let mut i: usize = 0;
    while i < n
        invariant
            i <= n,
            n == initial.len(),
            rest@ == initial.skip(i as int),
            sorted@ == sort_by_title(initial.take(i as int)),
            keys@.len() == sorted@.len(),
            forall|k: int| 0 <= k < keys@.len() ==> #[trigger] keys@[k]@ == title_key(sorted@[k]),
        decreases n - i,
    {
        let card = rest.remove(0);
        assert(card == initial[i as int]);
        assert(rest@ =~= initial.skip(i + 1));
        let lower = to_lowercase(card.title.as_str());
        let key = chars_of(lower.as_str());
        let mut j: usize = sorted.len();
        while j > 0 && lex_less(&key, &keys[j - 1])
            invariant
                j <= sorted@.len(),
                keys@.len() == sorted@.len(),
                forall|k: int| 0 <= k < keys@.len() ==> #[trigger] keys@[k]@ == title_key(sorted@[k]),
                key@ == title_key(card),
                forall|k: int| j <= k < sorted@.len() ==> lex_lt(title_key(card), #[trigger] title_key(sorted@[k])),
            decreases j,
        {
            j = j - 1;
        }
        proof {
            lemma_insert_at(sorted@, card, j as int);
            assert(initial.take(i + 1).drop_last() =~= initial.take(i as int));
            assert(initial.take(i + 1).last() == card);
        }
        let ghost old_sorted = sorted@;
        let ghost old_keys = keys@;
        sorted.insert(j, card);
        keys.insert(j, key);
        proof {
            assert forall|k: int| 0 <= k < keys@.len() implies #[trigger] keys@[k]@ == title_key(sorted@[k]) by {
                if k < j {
                    assert(keys@[k] == old_keys[k]);
                    assert(sorted@[k] == old_sorted[k]);
                } else if k > j {
                    assert(keys@[k] == old_keys[k - 1]);
                    assert(sorted@[k] == old_sorted[k - 1]);
                }
            }
        }
        i = i + 1;
    }
    assert(initial.take(n as int) =~= initial);
    sorted
}

/// The card shows no warning: its status tone is the ready one.
pub open spec fn no_warning(card: AppCardData) -> bool {
    card.status.tone == AppStatusTone::Ready
}

/// Under the "Available" order, the cards without a warning come first and
/// the cards with one after, each group in the order the cards were given:
/// so a card being played (which shows no warning) stays among the ready
/// cards, ahead of every card whose image is missing.
pub proof fn lemma_available_keeps_unwarned_first(cards: Seq<AppCardData>)
    ensures
        arranged(cards, AppFilter::Available) == cards.filter(|c: AppCardData| no_warning(c))
            + cards.filter(|c: AppCardData| !no_warning(c)),
        forall|i: int, j: int|
            0 <= i < j < arranged(cards, AppFilter::Available).len() && !no_warning(
                #[trigger] arranged(cards, AppFilter::Available)[i],
            ) ==> !no_warning(#[trigger] arranged(cards, AppFilter::Available)[j]),
{
    let p = |c: AppCardData| ready_card(c);
    let q = |c: AppCardData| no_warning(c);
    assert(p =~= q);
    let np = |c: AppCardData| !ready_card(c);
    let nq = |c: AppCardData| !no_warning(c);
    assert(np =~= nq);
    let a = arranged(cards, AppFilter::Available);
    let first = cards.filter(q);
    let second = cards.filter(nq);
    assert(a == first + second);
    cards.filter_lemma(q);
    cards.filter_lemma(nq);
    assert forall|i: int, j: int|
        0 <= i < j < a.len() && !no_warning(#[trigger] a[i]) implies !no_warning(#[trigger] a[j]) by {
        if i < first.len() {
            assert(q(first[i]));
        }
        if j >= first.len() {
            assert(nq(second[j - first.len()]));
        }
    }
}

fn arrange_available(cards: Vec<AppCardData>) -> (r: Vec<AppCardData>)
    ensures
        r@ == cards@.filter(|c: AppCardData| ready_card(c)) + cards@.filter(
            |c: AppCardData| !ready_card(c),
        ),
{
    let ghost initial = cards@;
    let mut rest = cards;
    let mut ready: Vec<AppCardData> = Vec::new();
    let mut flagged: Vec<AppCardData> = Vec::new();
    let n: usize = rest.len();
    let mut i: usize = 0;
    while i < n
        invariant
            i <= n,
            n == initial.len(),
            rest@ == initial.skip(i as int),
            ready@ == initial.take(i as int).filter(|c: AppCardData| ready_card(c)),
            flagged@ == initial.take(i as int).filter(|c: AppCardData| !ready_card(c)),
        decreases n - i,
    {
        proof {
            reveal_with_fuel(Seq::filter, 1);
            assert(initial.take(i + 1).drop_last() =~= initial.take(i as int));
        }
        let card = rest.remove(0);
        assert(card == initial[i as int]);
        assert(rest@ =~= initial.skip(i + 1));
        if card.status.tone == AppStatusTone::Ready {
            ready.push(card);
        } else {
            flagged.push(card);
        }
        i = i + 1;
    }
    assert(initial.take(n as int) =~= initial);
    ready.append(&mut flagged);
    ready
}

/// `cards` are the cards of `apps`, one for one, in the same order.
pub open spec fn cards_for(
    cards: Seq<AppCardData>,
    profile_id: Seq<char>,
    apps: Seq<App>,
    lobbies: Seq<Lobby>,
    images: Seq<(String, bool)>,
    covers: Seq<(String, String)>,
) -> bool {
    &&& cards.len() == apps.len()
    &&& forall|i: int|
        0 <= i < apps.len() ==> card_of(#[trigger] cards[i], profile_id, apps[i], lobbies, images, covers)
}

/// The cards of the profile's apps, in the order the filter asks for: as
/// listed; cards without a warning first, otherwise as listed; or by
/// lower-cased title, equal titles as listed.
pub fn sorted_apps(
    profile_id: &str,
    apps: Vec<App>,
    lobbies: &[Lobby],
    images: &[(String, bool)],
    covers: &[(String, String)],
    filter: AppFilter,
) -> (r: Vec<AppCardData>)
    ensures
        exists|cards: Seq<AppCardData>|
            #[trigger] cards_for(cards, profile_id@, apps@, lobbies@, images@, covers@) && r@
                == arranged(cards, filter),
{
    let ghost initial = apps@;
    let mut rest = apps;
    let mut cards: Vec<AppCardData> = Vec::new();
    let n: usize = rest.len();
    let mut i: usize = 0;
    while i < n
        invariant
            i <= n,
            n == initial.len(),
            rest@ == initial.skip(i as int),
            cards@.len() == i,
            forall|k: int|
                0 <= k < i ==> card_of(
                    #[trigger] cards@[k],
                    profile_id@,
                    initial[k],
                    lobbies@,
                    images@,
                    covers@,
                ),
        decreases n - i,
    {
        let app = rest.remove(0);
        assert(app == initial[i as int]);
        assert(rest@ =~= initial.skip(i + 1));
        let card = app_card_data(profile_id, app, lobbies, images, covers);
        cards.push(card);
        i = i + 1;
    }
    let ghost all = cards@;
    assert(cards_for(all, profile_id@, initial, lobbies@, images@, covers@));
    match filter {
        AppFilter::Default => cards,
        AppFilter::Available => arrange_available(cards),
        AppFilter::Alphabetical => arrange_by_title(cards),
    }
}

proof fn lemma_card_of_copy(
    card: AppCardData,
    profile_id: Seq<char>,
    copy: App,
    app: App,
    lobbies: Seq<Lobby>,
    images: Seq<(String, bool)>,
    covers: Seq<(String, String)>,
)
    requires
        same_app(copy, app),
        card_of(card, profile_id, copy, lobbies, images, covers),
    ensures
        card_of(card, profile_id, app, lobbies, images, covers),
{
    assert(app_image(copy) == app_image(app));
    assert forall|l: Lobby| app_lobby(profile_id, copy, l, false) == app_lobby(profile_id, app, l, false) by {}
    assert(app_running(profile_id, copy, lobbies) == app_running(profile_id, app, lobbies)) by {
        if app_running(profile_id, copy, lobbies) {
            let i = choose|i: int| 0 <= i < lobbies.len() && app_lobby(profile_id, copy, #[trigger] lobbies[i], false);
            assert(app_lobby(profile_id, app, lobbies[i], false));
        }
        if app_running(profile_id, app, lobbies) {
            let i = choose|i: int| 0 <= i < lobbies.len() && app_lobby(profile_id, app, #[trigger] lobbies[i], false);
            assert(app_lobby(profile_id, copy, lobbies[i], false));
        }
    }
}

/// Copies of the apps, one for one.
pub fn copy_apps(apps: &[App]) -> (r: Vec<App>)
    ensures
        r@.len() == apps@.len(),
        forall|i: int| 0 <= i < apps@.len() ==> same_app(#[trigger] r@[i], apps@[i]),
{
    let mut r: Vec<App> = Vec::new();
    let mut i: usize = 0;
    while i < apps.len()
        invariant
            i <= apps@.len(),
            r@.len() == i,
            forall|k: int| 0 <= k < i ==> same_app(#[trigger] r@[k], apps@[k]),
        decreases apps@.len() - i,
    {
        r.push(apps[i].copy());
        i = i + 1;
    }
    r
}

/// The card at position `index` of the arranged cards, if there is one.
pub fn selected_app_data(
    profile_id: &str,
    apps: &[App],
    lobbies: &[Lobby],
    images: &[(String, bool)],
    covers: &[(String, String)],
    filter: AppFilter,
    index: usize,
) -> (r: Option<AppCardData>)
    ensures
        exists|cards: Seq<AppCardData>|
            #[trigger] cards_for(cards, profile_id@, apps@, lobbies@, images@, covers@) && r == if index
                < arranged(cards, filter).len() {
                Some(arranged(cards, filter)[index as int])
            } else {
                None
            },
{
    let copies = copy_apps(apps);
    let ghost copied = copies@;
    let mut sorted = sorted_apps(profile_id, copies, lobbies, images, covers, filter);
    let ghost cards = choose|cards: Seq<AppCardData>|
        #[trigger] cards_for(cards, profile_id@, copied, lobbies@, images@, covers@) && sorted@
            == arranged(cards, filter);
    proof {
        assert forall|i: int| 0 <= i < apps@.len() implies card_of(
            #[trigger] cards[i],
            profile_id@,
            apps@[i],
            lobbies@,
            images@,
            covers@,
        ) by {
            assert(card_of(cards[i], profile_id@, copied[i], lobbies@, images@, covers@));
            lemma_card_of_copy(cards[i], profile_id@, copied[i], apps@[i], lobbies@, images@, covers@);
        }
        assert(cards_for(cards, profile_id@, apps@, lobbies@, images@, covers@));
    }
    if index < sorted.len() {
        Some(sorted.swap_remove(index))
    } else {
        None
    }
}

/// The actions offered for an app: only downloading when its image is
/// missing; connecting, stopping or updating while it is played; otherwise
/// starting alone or in co-op, or updating.
pub fn app_actions(app: &AppCardData) -> (r: Vec<AppAction>)
    ensures
        app.status.kind == AppStatusKind::MissingImage ==> r@ == seq![AppAction::Download],
        app.status.kind == AppStatusKind::Playing ==> r@ == seq![
            AppAction::Connect,
            AppAction::Stop,
            AppAction::CheckUpdate,
        ],
        app.status.kind == AppStatusKind::Ready ==> r@ == seq![
            AppAction::Start,
            AppAction::StartCoop,
            AppAction::CheckUpdate,
        ],
{
    let mut r: Vec<AppAction> = Vec::new();
    if app.status.kind == AppStatusKind::MissingImage {
        r.push(AppAction::Download);
    } else if app.status.kind == AppStatusKind::Playing {
        r.push(AppAction::Connect);
        r.push(AppAction::Stop);
        r.push(AppAction::CheckUpdate);
    } else {
        r.push(AppAction::Start);
        r.push(AppAction::StartCoop);
        r.push(AppAction::CheckUpdate);
    }
    assert(r@ =~= seq![AppAction::Download] || r@ =~= seq![
        AppAction::Connect,
        AppAction::Stop,
        AppAction::CheckUpdate,
    ] || r@ =~= seq![AppAction::Start, AppAction::StartCoop, AppAction::CheckUpdate]);
    r
}

/// The app's icon path, when it has one that is not blank.
pub open spec fn cover_path_of(app: App) -> Option<String> {
    match app.icon_png_path {
        Some(p) => if crate::text::trim_seq(p@).len() > 0 {
            Some(p)
        } else {
            None
        },
        None => None,
    }
}

pub fn cover_path(app: &App) -> (r: Option<String>)
    ensures
        r == cover_path_of(*app),
{
    match &app.icon_png_path {
        Some(p) => {
            let t = trim(p.as_str());
            if t.as_str().is_empty() {
                None
            } else {
                Some(p.clone())
            }
        },
        None => None,
    }
}

/// The images the apps use, each once, in order of first use.
pub open spec fn distinct_images(apps: Seq<App>) -> Seq<String>
    decreases apps.len(),
{
    if apps.len() == 0 {
        Seq::empty()
    } else {
        let acc = distinct_images(apps.drop_last());
        match app_image(apps.last()) {
            Some(image) => if views(acc).contains(image@) {
                acc
            } else {
                acc.push(image)
            },
            None => acc,
        }
    }
}

fn contains_text(list: &Vec<String>, item: &str) -> (r: bool)
    ensures
        r == views(list@).contains(item@),
{
    let mut i: usize = 0;
    while i < list.len()
        invariant
            i <= list@.len(),
            forall|k: int| 0 <= k < i ==> list@[k]@ != item@,
        decreases list@.len() - i,
    {
        if str_eq(list[i].as_str(), item) {
            assert(views(list@)[i as int] == item@);
            return true;
        }
        i = i + 1;
    }
    assert forall|k: int| 0 <= k < list@.len() implies views(list@)[k] != item@ by {
        assert(views(list@)[k] == list@[k]@);
    }
    false
}

/// The Docker images to look up for the apps, without repeats.
pub fn unique_images(apps: &[App]) -> (r: Vec<String>)
    ensures
        r@ == distinct_images(apps@),
{
    let mut r: Vec<String> = Vec::new();
    let mut i: usize = 0;
    while i < apps.len()
        invariant
            i <= apps@.len(),
            r@ == distinct_images(apps@.take(i as int)),
        decreases apps@.len() - i,
    {
        proof {
            assert(apps@.take(i + 1).drop_last() =~= apps@.take(i as int));
            assert(apps@.take(i + 1).last() == apps@[i as int]);
        }
        match docker_image(&apps[i]) {
            Some(image) => {
                if !contains_text(&r, image.as_str()) {
                    r.push(image);
                }
            },
            None => {},
        }
        i = i + 1;
    }
    assert(apps@.take(apps@.len() as int) =~= apps@);
    r
}

/// The image list holds no image twice, and every app's image is on it.
pub proof fn lemma_distinct_images(apps: Seq<App>)
    ensures
        views(distinct_images(apps)).no_duplicates(),
        forall|i: int|
            0 <= i < apps.len() && app_image(#[trigger] apps[i]) is Some ==> views(
                distinct_images(apps),
            ).contains(app_image(apps[i])->0@),
    decreases apps.len(),
{
    if apps.len() > 0 {
        let prev = apps.drop_last();
        lemma_distinct_images(prev);
        let acc = distinct_images(prev);
        let seen = views(acc);
        match app_image(apps.last()) {
            Some(image) => {
                if !seen.contains(image@) {
                    assert(views(acc.push(image)) =~= seen.push(image@));
                    assert(seen.push(image@)[seen.len() as int] == image@);
                }
            },
            None => {},
        }
        let out = views(distinct_images(apps));
        assert forall|i: int|
            0 <= i < apps.len() && app_image(#[trigger] apps[i]) is Some implies out.contains(
            app_image(apps[i])->0@,
        ) by {
            if i < apps.len() - 1 {
                assert(apps[i] == prev[i]);
                let w = choose|k: int| 0 <= k < seen.len() && seen[k] == app_image(apps[i])->0@;
                assert(out[w] == seen[w]);
            } else {
                if !seen.contains(app_image(apps[i])->0@) {
                    assert(out[seen.len() as int] == app_image(apps[i])->0@);
                }
            }
        }
    }
}

/// The apps whose cover must be loaded, with their icon paths.
pub open spec fn cover_requests_of(apps: Seq<App>) -> Seq<(String, String)>
    decreases apps.len(),
{
    if apps.len() == 0 {
        Seq::empty()
    } else {
        let acc = cover_requests_of(apps.drop_last());
        match cover_path_of(apps.last()) {
            Some(path) => acc.push((apps.last().id, path)),
            None => acc,
        }
    }
}

pub fn cover_requests(apps: &[App]) -> (r: Vec<(String, String)>)
    ensures
        r@ == cover_requests_of(apps@),
{
    let mut r: Vec<(String, String)> = Vec::new();
    let mut i: usize = 0;
    while i < apps.len()
        invariant
            i <= apps@.len(),
            r@ == cover_requests_of(apps@.take(i as int)),
        decreases apps@.len() - i,
    {
        proof {
            assert(apps@.take(i + 1).drop_last() =~= apps@.take(i as int));
            assert(apps@.take(i + 1).last() == apps@[i as int]);
        }
        match cover_path(&apps[i]) {
            Some(path) => {
                r.push((apps[i].id.clone(), path));
            },
            None => {},
        }
        i = i + 1;
    }
    assert(apps@.take(apps@.len() as int) =~= apps@);
    r
}

} // verus!
