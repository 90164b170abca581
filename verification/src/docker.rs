//! Progress of a Docker image pull, as Wolf streams it layer by layer.

use vstd::prelude::*;

use crate::error::ApiError;
use crate::text::{owned, trim};

verus! {

/// The progress of one image layer.
#[derive(Clone, Debug, PartialEq, Eq)]
pub struct LayerProgress {
    pub id: String,
    pub current: i64,
    pub total: i64,
}

/// The position of the first layer with the given id.
pub open spec fn find_layer(layers: Seq<LayerProgress>, id: Seq<char>) -> Option<int>
    decreases layers.len(),
{
    if layers.len() == 0 {
        None
    } else {
        match find_layer(layers.drop_last(), id) {
            Some(i) => Some(i),
            None => if layers.last().id@ == id {
                Some(layers.len() - 1)
            } else {
                None
            },
        }
    }
}

/// The layers after recording `(current, total)` for layer `id`: the layer
/// is updated in place when known, and appended otherwise.
pub open spec fn upserted(layers: Seq<LayerProgress>, id: String, current: i64, total: i64) -> Seq<
    LayerProgress,
> {
    match find_layer(layers, id@) {
        Some(i) => layers.update(i, LayerProgress { id: layers[i].id, current, total }),
        None => layers.push(LayerProgress { id, current, total }),
    }
}

/// No two layers share an id.
pub open spec fn ids_unique(layers: Seq<LayerProgress>) -> bool {
    forall|i: int, j: int|
        0 <= i < layers.len() && 0 <= j < layers.len() && i != j ==> layers[i].id@ != layers[j].id@
}

proof fn lemma_find_layer(layers: Seq<LayerProgress>, id: Seq<char>)
    ensures
        find_layer(layers, id) matches Some(i) ==> 0 <= i < layers.len() && layers[i].id@ == id
            && (forall|k: int| 0 <= k < i ==> layers[k].id@ != id),
        find_layer(layers, id) is None ==> forall|k: int|
            0 <= k < layers.len() ==> layers[k].id@ != id,
    decreases layers.len(),
{
    if layers.len() > 0 {
        lemma_find_layer(layers.drop_last(), id);
        assert forall|k: int| 0 <= k < layers.len() - 1 implies layers[k] == layers.drop_last()[k] by {}
    }
}

/// Recording progress keeps layer ids unique, and leaves exactly one layer
/// with the recorded id, holding the recorded values.
pub proof fn lemma_upsert_keeps_ids_unique(
    layers: Seq<LayerProgress>,
    id: String,
    current: i64,
    total: i64,
)
    requires
        ids_unique(layers),
    ensures
        ids_unique(upserted(layers, id, current, total)),
        exists|i: int|
            0 <= i < upserted(layers, id, current, total).len() && #[trigger] upserted(
                layers,
                id,
                current,
                total,
            )[i].id@ == id@ && upserted(layers, id, current, total)[i].current == current
                && upserted(layers, id, current, total)[i].total == total,
        forall|i: int, j: int|
            0 <= i < upserted(layers, id, current, total).len() && 0 <= j < upserted(
                layers,
                id,
                current,
                total,
            ).len() && upserted(layers, id, current, total)[i].id@ == id@ && upserted(
                layers,
                id,
                current,
                total,
            )[j].id@ == id@ ==> i == j,
{
    lemma_find_layer(layers, id@);
    let l = upserted(layers, id, current, total);
    match find_layer(layers, id@) {
        Some(i) => {
            assert(l[i].id@ == id@);
        },
        None => {
            assert(l[layers.len() as int].id@ == id@);
        },
    }
}

/// The sum of the layers' current progress.
pub open spec fn sum_current(layers: Seq<LayerProgress>) -> int
    decreases layers.len(),
{
    if layers.len() == 0 {
        0
    } else {
        sum_current(layers.drop_last()) + layers.last().current
    }
}

/// The sum of the layers' totals.
pub open spec fn sum_total(layers: Seq<LayerProgress>) -> int
    decreases layers.len(),
{
    if layers.len() == 0 {
        0
    } else {
        sum_total(layers.drop_last()) + layers.last().total
    }
}

/// Adding up the layers in order never leaves the range of `i64`.
pub open spec fn sums_fit(layers: Seq<LayerProgress>) -> bool {
    forall|k: int|
        0 <= k <= layers.len() ==> i64::MIN <= #[trigger] sum_current(layers.take(k)) <= i64::MAX
            && i64::MIN <= sum_total(layers.take(k)) <= i64::MAX
}

/// Records `(current, total)` for layer `id` in place.
pub fn upsert_layer(layers: &mut Vec<LayerProgress>, id: String, current: i64, total: i64)
    ensures
        final(layers)@ == upserted(old(layers)@, id, current, total),
{
    proof {
        lemma_find_layer(old(layers)@, id@);
    }
    let n: usize = layers.len();
    let mut i: usize = 0;
    while i < n
        invariant
            i <= n,
            n == layers@.len(),
            layers@ == old(layers)@,
            forall|k: int| 0 <= k < i ==> layers@[k].id@ != id@,
        decreases n - i,
    {
        if layers[i].id == id {
            proof {
                assert(find_layer(layers@, id@) == Some(i as int)) by {
                    lemma_find_layer(layers@, id@);
                    if let Some(j) = find_layer(layers@, id@) {
                        assert(j == i as int);
                    }
                }
            }
            let layer_id = layers[i].id.clone();
            layers.set(i, LayerProgress { id: layer_id, current, total });
            return;
        }
        i = i + 1;
    }
    layers.push(LayerProgress { id, current, total });
}

/// A pull progress percentage, `numerator / denominator`, between 0 and 99.
#[derive(Clone, Copy, Debug, PartialEq, Eq)]
pub struct Percent {
    num: u128,
    den: u128,
}

impl Percent {
    pub closed spec fn numer(&self) -> int {
        self.num as int
    }

    pub closed spec fn denom(&self) -> int {
        self.den as int
    }

    /// The denominator is positive and fits `i64`, and the value lies in `[0, 99]`.
    pub closed spec fn wf(&self) -> bool {
        &&& 1 <= self.den <= i64::MAX
        &&& self.num <= 99 * self.den
    }

    /// A valid percentage has a positive denominator.
    proof fn lemma_wf_denom(&self)
        requires
            self.wf(),
        ensures
            self.denom() > 0,
            0 <= self.numer() <= 99 * self.denom(),
    {
    }

    pub fn numerator(&self) -> (r: u128)
        ensures
            r == self.numer(),
    {
        self.num
    }

    pub fn denominator(&self) -> (r: u128)
        ensures
            r == self.denom(),
    {
        self.den
    }
}

/// `a <= b` as fractions.
pub open spec fn percent_le(a: Percent, b: Percent) -> bool {
    a.numer() * b.denom() <= b.numer() * a.denom()
}

proof fn lemma_compare_parts(a: int, b: int, c: int, d: int, qa: int, ra: int, qb: int, rb: int)
    by (nonlinear_arith)
    requires
        b > 0,
        d > 0,
        a == qa * b + ra,
        c == qb * d + rb,
        0 <= ra < b,
        0 <= rb < d,
    ensures
        qa < qb ==> a * d < c * b,
        qa > qb ==> a * d > c * b,
        qa == qb ==> (a * d <= c * b <==> ra * d <= rb * b),
{
    if qa < qb {
        assert(a < (qa + 1) * b);
        assert(a * d < (qa + 1) * b * d);
        assert((qa + 1) * b * d <= qb * b * d);
        assert(qb * d * b <= c * b);
    }
    if qa > qb {
        assert(c < (qb + 1) * d);
        assert(c * b < (qb + 1) * d * b);
        assert((qb + 1) * d * b <= qa * d * b);
        assert(qa * b * d <= a * d);
    }
}

fn le(a: Percent, b: Percent) -> (r: bool)
    requires
        a.wf(),
        b.wf(),
    ensures
        r == percent_le(a, b),
{
    let qa: u128 = a.num / a.den;
    let qb: u128 = b.num / b.den;
    let ra: u128 = a.num % a.den;
    let rb: u128 = b.num % b.den;
    proof {
        vstd::arithmetic::div_mod::lemma_fundamental_div_mod(a.num as int, a.den as int);
        vstd::arithmetic::div_mod::lemma_fundamental_div_mod(b.num as int, b.den as int);
        assert(qa * a.den == a.den * qa) by (nonlinear_arith);
        assert(qb * b.den == b.den * qb) by (nonlinear_arith);
        lemma_compare_parts(
            a.num as int,
            a.den as int,
            b.num as int,
            b.den as int,
            qa as int,
            ra as int,
            qb as int,
            rb as int,
        );
        assert(ra * b.den <= (i64::MAX as int) * (i64::MAX as int)) by (nonlinear_arith)
            requires
                ra < a.den <= i64::MAX,
                b.den <= i64::MAX,
        ;
        assert(rb * a.den <= (i64::MAX as int) * (i64::MAX as int)) by (nonlinear_arith)
            requires
                rb < b.den <= i64::MAX,
                a.den <= i64::MAX,
        ;
    }
    if qa != qb {
        qa < qb
    } else {
        ra * b.den <= rb * a.den
    }
}

/// The raw progress `(50 * total + 50 * current) / total` while unpacking,
/// `50 * current / total` while downloading, clamped to `[0, 99]`, as a
/// numerator and denominator.
pub open spec fn raw_numerator(current: int, total: int, unpacking: bool) -> int {
    if unpacking {
        50 * total + 50 * current
    } else {
        50 * current
    }
}

pub open spec fn clamped(current: int, total: int, unpacking: bool) -> (int, int) {
    let n = raw_numerator(current, total, unpacking);
    if n < 0 {
        (0, 1)
    } else if n > 99 * total {
        (99, 1)
    } else {
        (n, total)
    }
}

/// How recording `(current, total)` for layer `id` takes the progress state
/// `s` to `t` and what it reports as `r`. The layer is recorded; nothing is
/// reported while the known total is 500 bytes or less. Otherwise the pull
/// counts as unpacking once the summed current progress falls by more than
/// 30% of its last value; the candidate progress is 0–50% while downloading
/// and 50–100% while unpacking, clamped to `[0, 99]`; the reported progress is
/// the candidate when that is not below the last reported progress, else the
/// last reported progress. So it lies in `[0, 99]` and never falls.
pub open spec fn progress_update(
    s: PullProgressState,
    id: String,
    current: i64,
    total: i64,
    t: PullProgressState,
    r: Option<Percent>,
) -> bool {
    &&& t.wf()
    &&& t.layers() == upserted(s.layers(), id, current, total)
    &&& percent_le(s.last_progress(), t.last_progress())
    &&& r matches Some(p) ==> p.denom() > 0 && 0 <= p.numer() <= 99 * p.denom() && percent_le(
        s.last_progress(),
        p,
    )
    &&& ({
        let l = t.layers();
        let cur = sum_current(l);
        let tot = sum_total(l);
        if tot <= 500 {
            &&& r is None
            &&& t.last_current() == s.last_current()
            &&& t.last_progress() == s.last_progress()
            &&& t.unpacking() == s.unpacking()
        } else {
            let unpacking = s.unpacking() || (s.last_current() > 0 && s.last_current() > cur + (
            s.last_current() * 3) / 10);
            let c = clamped(cur, tot, unpacking);
            let candidate_larger = s.last_progress().numer() * c.1 <= c.0 * s.last_progress().denom();
            &&& t.unpacking() == unpacking
            &&& t.last_current() == cur
            &&& r == Some(t.last_progress())
            &&& candidate_larger ==> t.last_progress().numer() * c.1 == c.0
                * t.last_progress().denom()
            &&& !candidate_larger ==> t.last_progress() == s.last_progress()
        }
    })
}

/// Pull progress over all layers, as the stream reports them.
#[derive(Debug)]
pub struct PullProgressState {
    layers: Vec<LayerProgress>,
    last_current: i64,
    last_progress: Percent,
    unpacking: bool,
}

impl PullProgressState {
    pub closed spec fn layers(&self) -> Seq<LayerProgress> {
        self.layers@
    }

    pub closed spec fn last_current(&self) -> i64 {
        self.last_current
    }

    pub closed spec fn last_progress(&self) -> Percent {
        self.last_progress
    }

    /// Whether the pull has moved on from downloading to unpacking.
    pub closed spec fn unpacking(&self) -> bool {
        self.unpacking
    }

    pub closed spec fn wf(&self) -> bool {
        &&& self.last_progress.wf()
        &&& ids_unique(self.layers@)
    }

    pub fn new() -> (r: Self)
        ensures
            r.wf(),
            r.layers() == Seq::<LayerProgress>::empty(),
            r.last_current() == 0,
            r.last_progress().numer() == 0,
            !r.unpacking(),
    {
        PullProgressState {
            layers: Vec::new(),
            last_current: 0,
            last_progress: Percent { num: 0, den: 1 },
            unpacking: false,
        }
    }

    /// Records a layer's progress and returns the overall progress, or
    /// `None` while the known total is still 500 bytes or less. The pull
    /// counts as unpacking once the summed current progress falls by more than
    /// 30% of its last value; the progress is 0–50% while downloading and
    /// 50–100% while unpacking, clamped to `[0, 99]`, and never below the
    /// progress already reported.
    pub fn update_layer(&mut self, layer_id: String, current_progress: i64, total: i64) -> (r:
        Option<Percent>)
        requires
            old(self).wf(),
            sums_fit(upserted(old(self).layers(), layer_id, current_progress, total)),
            sum_total(upserted(old(self).layers(), layer_id, current_progress, total)) > 500
                && old(self).last_current() > 0 ==> old(self).last_current() * 3 <= i64::MAX
                && sum_current(upserted(old(self).layers(), layer_id, current_progress, total)) + (
            old(self).last_current() * 3) / 10 <= i64::MAX,
        ensures
            progress_update(*old(self), layer_id, current_progress, total, *final(self), r),
    {
        proof {
            lemma_upsert_keeps_ids_unique(self.layers@, layer_id, current_progress, total);
        }
        upsert_layer(&mut self.layers, layer_id, current_progress, total);
        let ghost l = self.layers@;
        let n: usize = self.layers.len();
        let mut current: i64 = 0;
        let mut sum: i64 = 0;
        let mut i: usize = 0;
        while i < n
            invariant
                i <= n,
                n == l.len(),
                self.layers@ == l,
                sums_fit(l),
                current == sum_current(l.take(i as int)),
                sum == sum_total(l.take(i as int)),
            decreases n - i,
        {
            proof {
                assert(l.take(i + 1).drop_last() =~= l.take(i as int));
                assert(l.take(i + 1).last() == l[i as int]);
                let _ = sum_current(l.take(i + 1));
            }
            current = current + self.layers[i].current;
            sum = sum + self.layers[i].total;
            i = i + 1;
        }
        assert(l.take(n as int) =~= l);
        if sum <= 500 {
            return None;
        }
        if self.last_current > 0 && self.last_current > current + self.last_current * 3 / 10 {
            self.unpacking = true;
        }
        self.last_current = current;
        let numerator: i128 = if self.unpacking {
            50 * (sum as i128) + 50 * (current as i128)
        } else {
            50 * (current as i128)
        };
        let den: i128 = sum as i128;
        let candidate = if numerator < 0 {
            Percent { num: 0, den: 1 }
        } else if numerator > 99 * den {
            Percent { num: 99, den: 1 }
        } else {
            Percent { num: numerator as u128, den: den as u128 }
        };
        let ghost before = self.last_progress;
        if le(self.last_progress, candidate) {
            self.last_progress = candidate;
        }
        proof {
            let c = clamped(current as int, sum as int, self.unpacking);
            assert(c.0 == candidate.num && c.1 == candidate.den);
            lemma_progress_never_falls(before, self.last_progress, c);
        }
        Some(self.last_progress)
    }
}

/// What `update_layer` needs of its inputs: the sums over the recorded
/// layers stay within `i64`, as does the drop test of the unpacking rule.
pub open spec fn update_fits(
    layers: Seq<LayerProgress>,
    last_current: i64,
    id: String,
    current: i64,
    total: i64,
) -> bool {
    let l = upserted(layers, id, current, total);
    &&& sums_fit(l)
    &&& sum_total(l) > 500 && last_current > 0 ==> last_current * 3 <= i64::MAX && sum_current(l)
        + (last_current * 3) / 10 <= i64::MAX
}

fn copy_layers(layers: &Vec<LayerProgress>) -> (r: Vec<LayerProgress>)
    ensures
        r@ == layers@,
{
    let mut r: Vec<LayerProgress> = Vec::new();
    let mut i: usize = 0;
    while i < layers.len()
        invariant
            i <= layers@.len(),
            r@ == layers@.take(i as int),
        decreases layers@.len() - i,
    {
        let l = &layers[i];
        r.push(LayerProgress { id: l.id.clone(), current: l.current, total: l.total });
        i = i + 1;
        assert(r@ =~= layers@.take(i as int));
    }
    assert(layers@.take(layers@.len() as int) =~= layers@);
    r
}

/// Whether the sums of `layers` stay within `i64` at every step, and their
/// final values when they do.
#[verifier::spinoff_prover]
fn checked_sums(layers: &Vec<LayerProgress>) -> (r: Option<(i64, i64)>)
    ensures
        r is Some <==> sums_fit(layers@),
        r matches Some(p) ==> p.0 == sum_current(layers@) && p.1 == sum_total(layers@),
{
    let ghost l = layers@;
    let n: usize = layers.len();
    let mut current: i64 = 0;
    let mut sum: i64 = 0;
    let mut i: usize = 0;
    assert(l.take(0) =~= Seq::<LayerProgress>::empty());
    while i < n
        invariant
            i <= n,
            n == l.len(),
            l == layers@,
            current == sum_current(l.take(i as int)),
            sum == sum_total(l.take(i as int)),
            forall|k: int|
                0 <= k <= i ==> i64::MIN <= #[trigger] sum_current(l.take(k)) <= i64::MAX
                    && i64::MIN <= sum_total(l.take(k)) <= i64::MAX,
        decreases n - i,
    {
        proof {
            assert(l.take(i + 1).drop_last() =~= l.take(i as int));
            assert(l.take(i + 1).last() == l[i as int]);
        }
        let c: i128 = current as i128 + layers[i].current as i128;
        let t: i128 = sum as i128 + layers[i].total as i128;
        assert(sum_current(l.take(i + 1)) == c);
        assert(sum_total(l.take(i + 1)) == t);
        if c < i64::MIN as i128 || c > i64::MAX as i128 || t < i64::MIN as i128 || t > i64::MAX
            as i128 {
            proof {
                assert(sum_current(l.take(i + 1)) == c);
                assert(sum_total(l.take(i + 1)) == t);
                assert(!(i64::MIN <= sum_current(l.take(i + 1)) <= i64::MAX && i64::MIN <= sum_total(
                    l.take(i + 1),
                ) <= i64::MAX));
            }
            return None;
        }
        current = c as i64;
        sum = t as i64;
        proof {
            assert forall|k: int| 0 <= k <= i + 1 implies i64::MIN <= #[trigger] sum_current(
                l.take(k),
            ) <= i64::MAX && i64::MIN <= sum_total(l.take(k)) <= i64::MAX by {
                if k == i + 1 {
                    assert(sum_current(l.take(i + 1)) == c);
                }
            }
        }
        i = i + 1;
    }
    assert(l.take(n as int) =~= l);
    Some((current, sum))
}

impl PullProgressState {
    /// Whether `update_layer` accepts these values in this state.
    pub fn fits(&self, layer_id: &String, current_progress: i64, total: i64) -> (r: bool)
        requires
            self.wf(),
        ensures
            r == update_fits(self.layers(), self.last_current(), *layer_id, current_progress, total),
    {
        let mut copy = copy_layers(&self.layers);
        upsert_layer(&mut copy, layer_id.clone(), current_progress, total);
        match checked_sums(&copy) {
            None => false,
            Some((cur, tot)) => {
                if tot > 500 && self.last_current > 0 {
                    let last: i128 = self.last_current as i128;
                    last * 3 <= i64::MAX as i128 && cur as i128 + (last * 3) / 10 <= i64::MAX as i128
                } else {
                    true
                }
            },
        }
    }
}

impl PullStream {
    /// Whether `accept` takes this message in this state.
    pub fn fits(&self, event: &PullProgress) -> (r: bool)
        requires
            self.wf(),
        ensures
            r == (event.success != Some(true) && event.layer_id is Some ==> update_fits(
                self.progress().layers(),
                self.progress().last_current(),
                event.layer_id->0,
                event.current_progress,
                event.total,
            )),
    {
        if event.success == Some(true) {
            return true;
        }
        match &event.layer_id {
            None => true,
            Some(id) => self.progress.fits(id, event.current_progress, event.total),
        }
    }
}

/// The reported progress never falls: it is at least the progress reported before.
pub proof fn lemma_progress_never_falls(before: Percent, after: Percent, c: (int, int))
    requires
        before.wf(),
        c.1 > 0,
        (before.numer() * c.1 <= c.0 * before.denom()) ==> after.numer() * c.1 == c.0
            * after.denom(),
        !(before.numer() * c.1 <= c.0 * before.denom()) ==> after == before,
        after.denom() > 0,
    ensures
        percent_le(before, after),
{
    if before.numer() * c.1 <= c.0 * before.denom() {
        assert(before.numer() * after.denom() <= after.numer() * before.denom()) by (nonlinear_arith)
            requires
                before.numer() * c.1 <= c.0 * before.denom(),
                after.numer() * c.1 == c.0 * after.denom(),
                c.1 > 0,
                after.denom() > 0,
                before.denom() > 0,
        ;
    }
}

proof fn lemma_percent_le_transitive(a: Percent, b: Percent, c: Percent)
    requires
        a.denom() > 0,
        b.denom() > 0,
        c.denom() > 0,
        percent_le(a, b),
        percent_le(b, c),
    ensures
        percent_le(a, c),
{
    let (an, ad, bn, bd, cn, cd) = (a.numer(), a.denom(), b.numer(), b.denom(), c.numer(), c.denom());
    assert(an * cd <= cn * ad) by (nonlinear_arith)
        requires
            ad > 0,
            bd > 0,
            cd > 0,
            an * bd <= bn * ad,
            bn * cd <= cn * bd,
    {
        assert(an * bd * cd <= bn * ad * cd);
        assert(bn * cd * ad <= cn * bd * ad);
        assert((an * cd) * bd <= (cn * ad) * bd);
    }
}

/// The states of a pull's progress along successive `update_layer` calls:
/// `states[k + 1]` is `states[k]` after recording `layers[k]`, with result
/// `results[k]`.
pub open spec fn progress_chain(
    states: Seq<PullProgressState>,
    layers: Seq<LayerProgress>,
    results: Seq<Option<Percent>>,
) -> bool {
    &&& states.len() == layers.len() + 1
    &&& results.len() == layers.len()
    &&& states[0].wf()
    &&& forall|k: int|
        #![trigger layers[k]]
        0 <= k < layers.len() ==> progress_update(
            states[k],
            layers[k].id,
            layers[k].current,
            layers[k].total,
            states[k + 1],
            results[k],
        )
}

proof fn lemma_chain_never_falls(
    states: Seq<PullProgressState>,
    layers: Seq<LayerProgress>,
    results: Seq<Option<Percent>>,
    i: int,
    j: int,
)
    requires
        progress_chain(states, layers, results),
        0 <= i <= j < states.len(),
    ensures
        percent_le(states[i].last_progress(), states[j].last_progress()),
        states[i].wf(),
        states[j].wf(),
    decreases j - i,
{
    if j > 0 {
        assert(progress_update(
            states[j - 1],
            layers[j - 1].id,
            layers[j - 1].current,
            layers[j - 1].total,
            states[j],
            results[j - 1],
        ));
    }
    if i == j {
        assert(states[j].wf());
        states[i].last_progress().lemma_wf_denom();
        assert(percent_le(states[i].last_progress(), states[j].last_progress())) by (nonlinear_arith)
            requires
                states[i].last_progress() == states[j].last_progress(),
        ;
    } else {
        lemma_chain_never_falls(states, layers, results, i, j - 1);
        states[i].last_progress().lemma_wf_denom();
        states[j - 1].last_progress().lemma_wf_denom();
        states[j].last_progress().lemma_wf_denom();
        lemma_percent_le_transitive(
            states[i].last_progress(),
            states[j - 1].last_progress(),
            states[j].last_progress(),
        );
    }
}

/// Over any run of `update_layer` calls from a valid state, every reported
/// progress lies in `[0, 99]`, nothing is reported exactly while the known
/// total is 500 bytes or less, and a later report is never below an earlier
/// one.
pub proof fn lemma_reported_progress_never_falls(
    states: Seq<PullProgressState>,
    layers: Seq<LayerProgress>,
    results: Seq<Option<Percent>>,
    i: int,
    j: int,
)
    requires
        progress_chain(states, layers, results),
        0 <= i < j < results.len(),
        results[i] is Some,
        results[j] is Some,
    ensures
        percent_le(results[i]->0, results[j]->0),
        results[j]->0.denom() > 0 && 0 <= results[j]->0.numer() <= 99 * results[j]->0.denom(),
        forall|k: int|
            0 <= k < results.len() ==> (#[trigger] results[k] is None <==> sum_total(
                states[k + 1].layers(),
            ) <= 500),
{
    assert(progress_update(states[i], layers[i].id, layers[i].current, layers[i].total, states[i + 1], results[i]));
    assert(progress_update(states[j], layers[j].id, layers[j].current, layers[j].total, states[j + 1], results[j]));
    lemma_chain_never_falls(states, layers, results, i + 1, j + 1);
    assert forall|k: int| 0 <= k < results.len() implies (#[trigger] results[k] is None <==> sum_total(
        states[k + 1].layers(),
    ) <= 500) by {
        assert(progress_update(states[k], layers[k].id, layers[k].current, layers[k].total, states[k + 1], results[k]));
    }
}

/// One progress message of the pull stream.
#[derive(Clone, Debug, PartialEq, Eq)]
pub struct PullProgress {
    pub success: Option<bool>,
    pub layer_id: Option<String>,
    pub current_progress: i64,
    pub total: i64,
}

/// What to do after a progress message.
#[derive(Clone, Copy, Debug, PartialEq, Eq)]
pub enum PullStep {
    /// Wolf reported success; the flag tells whether any layer was downloaded.
    Finished(bool),
    /// Report this progress.
    Report(Percent),
    /// Nothing to report.
    Continue,
}

/// The progress a step reports, if any.
pub open spec fn reported(step: PullStep) -> Option<Percent> {
    match step {
        PullStep::Report(p) => Some(p),
        _ => None,
    }
}

/// The state of reading a pull stream.
#[derive(Debug)]
pub struct PullStream {
    progress: PullProgressState,
    downloaded: bool,
}

impl PullStream {
    pub closed spec fn progress(&self) -> PullProgressState {
        self.progress
    }

    /// Whether any layer has reported progress.
    pub closed spec fn downloaded(&self) -> bool {
        self.downloaded
    }

    pub closed spec fn wf(&self) -> bool {
        self.progress.wf()
    }

    pub fn new() -> (r: Self)
        ensures
            r.wf(),
            !r.downloaded(),
            r.progress().layers() == Seq::<LayerProgress>::empty(),
    {
        PullStream { progress: PullProgressState::new(), downloaded: false }
    }

    /// Handles one message: success ends the pull; a message without a layer
    /// is skipped; a layer message marks the pull as downloading and updates
    /// the progress.
    pub fn accept(&mut self, event: PullProgress) -> (r: PullStep)
        requires
            old(self).wf(),
            event.success != Some(true) && event.layer_id is Some ==> {
                let l = upserted(
                    old(self).progress().layers(),
                    event.layer_id->0,
                    event.current_progress,
                    event.total,
                );
                &&& sums_fit(l)
                &&& sum_total(l) > 500 && old(self).progress().last_current() > 0 ==> old(
                    self,
                ).progress().last_current() * 3 <= i64::MAX && sum_current(l) + (old(
                    self,
                ).progress().last_current() * 3) / 10 <= i64::MAX
            },
        ensures
            final(self).wf(),
            event.success == Some(true) ==> r == PullStep::Finished(old(self).downloaded())
                && *final(self) == *old(self),
            event.success != Some(true) && event.layer_id is None ==> r == PullStep::Continue
                && *final(self) == *old(self),
            event.success != Some(true) && event.layer_id is Some ==> {
                &&& final(self).downloaded()
                &&& !(r is Finished)
                &&& progress_update(
                    old(self).progress(),
                    event.layer_id->0,
                    event.current_progress,
                    event.total,
                    final(self).progress(),
                    reported(r),
                )
            },
    {
        if event.success == Some(true) {
            return PullStep::Finished(self.downloaded);
        }
        match event.layer_id {
            None => PullStep::Continue,
            Some(layer_id) => {
                self.downloaded = true;
                match self.progress.update_layer(layer_id, event.current_progress, event.total) {
                    Some(p) => PullStep::Report(p),
                    None => PullStep::Continue,
                }
            },
        }
    }

    /// The error for a stream that ended before Wolf reported success.
    pub fn ended_early() -> (r: ApiError)
        ensures
            r matches ApiError::Status { status, body } && status == 200 && body@
                == "Docker pull stream ended before Wolf reported success"@,
    {
        ApiError::Status {
            status: 200,
            body: owned("Docker pull stream ended before Wolf reported success"),
        }
    }
}

/// A pull stream line, trimmed, or `None` when nothing but white space.
pub fn significant_line(line: &str) -> (r: Option<String>)
    ensures
        r matches Some(s) ==> s@ == crate::text::trim_seq(line@) && s@.len() > 0,
        r is None <==> crate::text::trim_seq(line@).len() == 0,
{
    let t = trim(line);
    if t.as_str().is_empty() {
        None
    } else {
        Some(t)
    }
}

} // verus!
