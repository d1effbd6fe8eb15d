//! Tiered selection: each quality tier, in order, claims the first format of
//! its preference sequence that the backend offers and no earlier tier took.

use vstd::prelude::*;

use crate::format::FormatLabel;

verus! {

/// One of the three output qualities produced per request.
#[derive(Clone, Copy, PartialEq, Eq, Structural, Debug)]
pub enum TierLabel {
    Best,
    Medium,
    Low,
}

impl TierLabel {
    /// The label's name, used as the stem of the stored file.
    pub open spec fn name_spec(self) -> Seq<char> {
        match self {
            TierLabel::Best => "best"@,
            TierLabel::Medium => "medium"@,
            TierLabel::Low => "low"@,
        }
    }

    pub fn name(&self) -> (r: &'static str)
        ensures
            r@ == self.name_spec(),
    {
        match self {
            TierLabel::Best => "best",
            TierLabel::Medium => "medium",
            TierLabel::Low => "low",
        }
    }
}

/// A tier and its flattened preference sequence, tried front to back.
pub struct TierPolicy {
    pub tier: TierLabel,
    pub prefs: Vec<FormatLabel>,
}

/// The outcome of selection for one tier: the format it claimed, if any.
#[derive(Clone, Copy, PartialEq, Eq, Structural, Debug)]
pub struct TierAssignment {
    pub tier: TierLabel,
    pub format: Option<FormatLabel>,
}

/// The first format of `prefs` that is offered in `avail` and not yet in `used`.
pub open spec fn claim(prefs: Seq<FormatLabel>, avail: Seq<FormatLabel>, used: Seq<FormatLabel>) -> Option<FormatLabel>
    decreases prefs.len(),
{
    if prefs.len() == 0 {
        None
    } else if avail.contains(prefs[0]) && !used.contains(prefs[0]) {
        Some(prefs[0])
    } else {
        claim(prefs.drop_first(), avail, used)
    }
}

/// The claimed formats after a tier's claim `c`.
pub open spec fn claimed_after(c: Option<FormatLabel>, used: Seq<FormatLabel>) -> Seq<FormatLabel> {
    match c {
        Some(f) => used.push(f),
        None => used,
    }
}

/// What each tier of `tiers` claims, in order, when `used` is already claimed.
pub open spec fn assign(tiers: Seq<Seq<FormatLabel>>, avail: Seq<FormatLabel>, used: Seq<FormatLabel>) -> Seq<Option<FormatLabel>>
    decreases tiers.len(),
{
    if tiers.len() == 0 {
        seq![]
    } else {
        let c = claim(tiers[0], avail, used);
        seq![c] + assign(tiers.drop_first(), avail, claimed_after(c, used))
    }
}

/// The preference sequences of a list of policies.
pub open spec fn pref_lists(policies: Seq<TierPolicy>) -> Seq<Seq<FormatLabel>> {
    policies.map_values(|p: TierPolicy| p.prefs@)
}

fn contains_format(v: &Vec<FormatLabel>, f: FormatLabel) -> (r: bool)
    ensures
        r == v@.contains(f),
{
    let mut i: usize = 0;
    while i < v.len()
        invariant
            i <= v@.len(),
            forall|j: int| 0 <= j < i ==> v@[j] != f,
        decreases v@.len() - i,
    {
        if v[i] == f {
            return true;
        }
        i = i + 1;
    }
    false
}

/// Claims for one tier: the first format of `prefs` offered in `available`
/// and not in `used`, which is then added to `used`.
pub fn claim_format(prefs: &Vec<FormatLabel>, available: &Vec<FormatLabel>, used: &mut Vec<FormatLabel>) -> (r: Option<FormatLabel>)
    ensures
        r == claim(prefs@, available@, old(used)@),
        final(used)@ == claimed_after(r, old(used)@),
{
    let mut i: usize = 0;
    assert(prefs@.subrange(0, prefs@.len() as int) =~= prefs@);
    while i < prefs.len()
        invariant
            i <= prefs@.len(),
            *used == *old(used),
            claim(prefs@, available@, used@) == claim(prefs@.subrange(i as int, prefs@.len() as int), available@, used@),
        decreases prefs@.len() - i,
    {
        let f = prefs[i];
        let ghost rest = prefs@.subrange(i as int, prefs@.len() as int);
        assert(rest.drop_first() =~= prefs@.subrange(i + 1, prefs@.len() as int));
        if contains_format(available, f) && !contains_format(used, f) {
            used.push(f);
            return Some(f);
        }
        i = i + 1;
    }
    None
}

/// Runs the tiers of `policies` in order against the offered formats.
/// The result holds one assignment per policy, in the same order.
pub fn select(available: &Vec<FormatLabel>, policies: &Vec<TierPolicy>) -> (r: Vec<TierAssignment>)
    ensures
        r@.len() == policies@.len(),
        forall|i: int| 0 <= i < r@.len() ==> (#[trigger] r@[i]).tier == policies@[i].tier,
        forall|i: int|
            0 <= i < r@.len() ==> (#[trigger] r@[i]).format == assign(pref_lists(policies@), available@, seq![])[i],
{
    let ghost lists = pref_lists(policies@);
    let mut used: Vec<FormatLabel> = Vec::new();
    let mut r: Vec<TierAssignment> = Vec::new();
    let mut i: usize = 0;
    proof {
        assert(lists.subrange(0, lists.len() as int) =~= lists);
        lemma_assign_len(lists, available@, seq![]);
    }
    while i < policies.len()
        invariant
            i <= policies@.len(),
            lists == pref_lists(policies@),
            r@.len() == i,
            assign(lists, available@, seq![]).len() == lists.len(),
            forall|k: int| 0 <= k < i ==> r@[k].tier == policies@[k].tier,
            forall|k: int| 0 <= k < i ==> r@[k].format == assign(lists, available@, seq![])[k],
            assign(lists.subrange(i as int, lists.len() as int), available@, used@).len() == lists.len() - i,
            forall|k: int| 0 <= k < lists.len() - i ==>
                assign(lists, available@, seq![])[i + k]
                    == #[trigger] assign(lists.subrange(i as int, lists.len() as int), available@, used@)[k],
        decreases policies@.len() - i,
    {
        let ghost rest = lists.subrange(i as int, lists.len() as int);
        let ghost before = used@;
        let c = claim_format(&policies[i].prefs, available, &mut used);
        proof {
            assert(rest[0] == policies@[i as int].prefs@);
            assert(rest.drop_first() =~= lists.subrange(i + 1, lists.len() as int));
            let next = lists.subrange(i + 1, lists.len() as int);
            lemma_assign_len(rest, available@, before);
            lemma_assign_len(next, available@, used@);
            assert(assign(rest, available@, before) == seq![c] + assign(next, available@, used@));
            assert(assign(lists, available@, seq![])[i + 0] == assign(rest, available@, before)[0]);
            assert forall|k: int| 0 <= k < lists.len() - (i + 1) implies
                assign(lists, available@, seq![])[i + 1 + k]
                    == #[trigger] assign(lists.subrange(i + 1, lists.len() as int), available@, used@)[k] by {
                assert(assign(rest, available@, before)[k + 1] == assign(next, available@, used@)[k]);
            }
        }
        let a = TierAssignment { tier: policies[i].tier, format: c };
        r.push(a);
        assert(r@[i as int] == a);
        i = i + 1;
    }
    r
}

proof fn lemma_assign_len(tiers: Seq<Seq<FormatLabel>>, avail: Seq<FormatLabel>, used: Seq<FormatLabel>)
    ensures
        assign(tiers, avail, used).len() == tiers.len(),
    decreases tiers.len(),
{
    if tiers.len() > 0 {
        lemma_assign_len(tiers.drop_first(), avail, claimed_after(claim(tiers[0], avail, used), used));
    }
}


/// Primary preferences of the best tier: lossless first, then high-bitrate lossy.
pub open spec fn best_primary() -> Seq<FormatLabel> {
    seq![
        FormatLabel::FLAC_FLAC_24BIT,
        FormatLabel::FLAC_FLAC,
        FormatLabel::MP3_320,
        FormatLabel::AAC_320,
        FormatLabel::MP3_256,
        FormatLabel::OGG_VORBIS_320,
    ]
}

/// Primary preferences of the medium tier.
pub open spec fn medium_primary() -> Seq<FormatLabel> {
    seq![
        FormatLabel::MP3_160,
        FormatLabel::MP3_160_ENC,
        FormatLabel::AAC_48,
        FormatLabel::AAC_24,
        FormatLabel::XHE_AAC_24,
        FormatLabel::OGG_VORBIS_320,
        FormatLabel::MP4_128,
    ]
}

/// Primary preferences of the low tier.
pub open spec fn low_primary() -> Seq<FormatLabel> {
    seq![
        FormatLabel::AAC_24,
        FormatLabel::XHE_AAC_24,
        FormatLabel::XHE_AAC_16,
        FormatLabel::XHE_AAC_12,
        FormatLabel::OGG_VORBIS_160,
        FormatLabel::MP3_96,
        FormatLabel::OGG_VORBIS_96,
    ]
}

/// The flattened preference sequences of best, medium and low: each tier's
/// own list first, then the others' lists as fallbacks.
pub open spec fn default_pref_lists() -> Seq<Seq<FormatLabel>> {
    seq![
        best_primary() + medium_primary() + low_primary(),
        medium_primary() + low_primary() + best_primary(),
        low_primary() + medium_primary() + best_primary(),
    ]
}

/// A format that some tier ranks at all.
pub open spec fn is_ranked(f: FormatLabel) -> bool {
    (best_primary() + medium_primary() + low_primary()).contains(f)
}

fn best_primary_list() -> (r: Vec<FormatLabel>)
    ensures
        r@ == best_primary(),
{
    let r = vec![
        FormatLabel::FLAC_FLAC_24BIT,
        FormatLabel::FLAC_FLAC,
        FormatLabel::MP3_320,
        FormatLabel::AAC_320,
        FormatLabel::MP3_256,
        FormatLabel::OGG_VORBIS_320,
    ];
    assert(r@ =~= best_primary());
    r
}

fn medium_primary_list() -> (r: Vec<FormatLabel>)
    ensures
        r@ == medium_primary(),
{
    let r = vec![
        FormatLabel::MP3_160,
        FormatLabel::MP3_160_ENC,
        FormatLabel::AAC_48,
        FormatLabel::AAC_24,
        FormatLabel::XHE_AAC_24,
        FormatLabel::OGG_VORBIS_320,
        FormatLabel::MP4_128,
    ];
    assert(r@ =~= medium_primary());
    r
}

fn low_primary_list() -> (r: Vec<FormatLabel>)
    ensures
        r@ == low_primary(),
{
    let r = vec![
        FormatLabel::AAC_24,
        FormatLabel::XHE_AAC_24,
        FormatLabel::XHE_AAC_16,
        FormatLabel::XHE_AAC_12,
        FormatLabel::OGG_VORBIS_160,
        FormatLabel::MP3_96,
        FormatLabel::OGG_VORBIS_96,
    ];
    assert(r@ =~= low_primary());
    r
}

fn concat3(mut a: Vec<FormatLabel>, mut b: Vec<FormatLabel>, mut c: Vec<FormatLabel>) -> (r: Vec<FormatLabel>)
    ensures
        r@ == a@ + b@ + c@,
{
    a.append(&mut b);
    a.append(&mut c);
    a
}

/// The policies of the three tiers, in the order best, medium, low.
pub fn default_policies() -> (r: Vec<TierPolicy>)
    ensures
        r@.len() == 3,
        r@[0].tier == TierLabel::Best,
        r@[1].tier == TierLabel::Medium,
        r@[2].tier == TierLabel::Low,
        pref_lists(r@) == default_pref_lists(),
{
    let best = TierPolicy {
        tier: TierLabel::Best,
        prefs: concat3(best_primary_list(), medium_primary_list(), low_primary_list()),
    };
    let medium = TierPolicy {
        tier: TierLabel::Medium,
        prefs: concat3(medium_primary_list(), low_primary_list(), best_primary_list()),
    };
    let low = TierPolicy {
        tier: TierLabel::Low,
        prefs: concat3(low_primary_list(), medium_primary_list(), best_primary_list()),
    };
    let r = vec![best, medium, low];
    assert(pref_lists(r@) =~= default_pref_lists());
    r
}

/// Selects the best, medium and low tiers from the offered formats.
pub fn select_tiers(available: &Vec<FormatLabel>) -> (r: Vec<TierAssignment>)
    ensures
        r@.len() == 3,
        r@[0].tier == TierLabel::Best,
        r@[1].tier == TierLabel::Medium,
        r@[2].tier == TierLabel::Low,
        forall|i: int| 0 <= i < 3 ==> r@[i].format == assign(default_pref_lists(), available@, seq![])[i],
{
    let policies = default_policies();
    let r = select(available, &policies);
    assert(r@[0].tier == policies@[0].tier);
    assert(r@[1].tier == policies@[1].tier);
    assert(r@[2].tier == policies@[2].tier);
    proof {
        lemma_assign_len(default_pref_lists(), available@, seq![]);
    }
    r
}

/// True when at least one tier claimed a format.
pub fn any_assigned(assignments: &Vec<TierAssignment>) -> (r: bool)
    ensures
        r == exists|i: int| 0 <= i < assignments@.len() && assignments@[i].format is Some,
{
    let mut i: usize = 0;
    while i < assignments.len()
        invariant
            i <= assignments@.len(),
            forall|j: int| 0 <= j < i ==> assignments@[j].format is None,
        decreases assignments@.len() - i,
    {
        if assignments[i].format.is_some() {
            return true;
        }
        i = i + 1;
    }
    false
}


/// `f` is offered and not yet claimed.
pub open spec fn open_for(f: FormatLabel, avail: Seq<FormatLabel>, used: Seq<FormatLabel>) -> bool {
    avail.contains(f) && !used.contains(f)
}

proof fn lemma_claim_none(prefs: Seq<FormatLabel>, avail: Seq<FormatLabel>, used: Seq<FormatLabel>)
    ensures
        claim(prefs, avail, used) is None <==> forall|j: int|
            0 <= j < prefs.len() ==> !open_for(#[trigger] prefs[j], avail, used),
    decreases prefs.len(),
{
    if prefs.len() > 0 {
        let rest = prefs.drop_first();
        lemma_claim_none(rest, avail, used);
        assert forall|j: int| 0 < j < prefs.len() implies prefs[j] == rest[j - 1] by {}
    }
}

proof fn lemma_claim_some(prefs: Seq<FormatLabel>, avail: Seq<FormatLabel>, used: Seq<FormatLabel>)
    ensures
        claim(prefs, avail, used) matches Some(f) ==> open_for(f, avail, used),
    decreases prefs.len(),
{
    if prefs.len() > 0 {
        lemma_claim_some(prefs.drop_first(), avail, used);
    }
}

proof fn lemma_claim_first(prefs: Seq<FormatLabel>, avail: Seq<FormatLabel>, used: Seq<FormatLabel>, k: int)
    requires
        0 <= k < prefs.len(),
        open_for(prefs[k], avail, used),
        forall|j: int| 0 <= j < k ==> !open_for(#[trigger] prefs[j], avail, used),
    ensures
        claim(prefs, avail, used) == Some(prefs[k]),
    decreases prefs.len(),
{
    if k > 0 {
        let rest = prefs.drop_first();
        assert(!open_for(prefs[0], avail, used));
        assert forall|j: int| 0 <= j < k - 1 implies !open_for(#[trigger] rest[j], avail, used) by {
            assert(rest[j] == prefs[j + 1]);
        }
        lemma_claim_first(rest, avail, used, k - 1);
    }
}

proof fn lemma_claim_prefix(p: Seq<FormatLabel>, q: Seq<FormatLabel>, avail: Seq<FormatLabel>, used: Seq<FormatLabel>)
    requires
        claim(p, avail, used) is Some,
    ensures
        claim(p + q, avail, used) == claim(p, avail, used),
    decreases p.len(),
{
    assert((p + q)[0] == p[0]);
    if !(avail.contains(p[0]) && !used.contains(p[0])) {
        assert((p + q).drop_first() =~= p.drop_first() + q);
        lemma_claim_prefix(p.drop_first(), q, avail, used);
    }
}

proof fn lemma_assign_fresh(tiers: Seq<Seq<FormatLabel>>, avail: Seq<FormatLabel>, used: Seq<FormatLabel>)
    ensures
        forall|k: int| 0 <= k < tiers.len() ==>
            (#[trigger] assign(tiers, avail, used)[k] matches Some(f) ==> open_for(f, avail, used)),
    decreases tiers.len(),
{
    if tiers.len() > 0 {
        let c = claim(tiers[0], avail, used);
        let next = claimed_after(c, used);
        let rest = tiers.drop_first();
        lemma_claim_some(tiers[0], avail, used);
        lemma_assign_fresh(rest, avail, next);
        lemma_assign_len(rest, avail, next);
        assert forall|k: int| 0 < k < tiers.len() implies
            (#[trigger] assign(tiers, avail, used)[k] matches Some(f) ==> open_for(f, avail, used)) by {
            assert(assign(tiers, avail, used)[k] == assign(rest, avail, next)[k - 1]);
            if let Some(f) = assign(rest, avail, next)[k - 1] {
                if used.contains(f) {
                    let w = choose|w: int| 0 <= w < used.len() && used[w] == f;
                    assert(next[w] == f);
                }
            }
        }
    }
}

proof fn lemma_assign_distinct(tiers: Seq<Seq<FormatLabel>>, avail: Seq<FormatLabel>, used: Seq<FormatLabel>)
    ensures
        forall|i: int, j: int|
            0 <= i < j < tiers.len() && (#[trigger] assign(tiers, avail, used)[i]) is Some
                ==> assign(tiers, avail, used)[i] != #[trigger] assign(tiers, avail, used)[j],
    decreases tiers.len(),
{
    if tiers.len() > 0 {
        let c = claim(tiers[0], avail, used);
        let next = claimed_after(c, used);
        let rest = tiers.drop_first();
        let all = assign(tiers, avail, used);
        lemma_assign_distinct(rest, avail, next);
        lemma_assign_fresh(rest, avail, next);
        lemma_assign_len(rest, avail, next);
        assert forall|i: int, j: int|
            0 <= i < j < tiers.len() && (#[trigger] all[i]) is Some implies all[i] != #[trigger] all[j] by {
            assert(all[j] == assign(rest, avail, next)[j - 1]);
            if i == 0 {
                let f = c.unwrap();
                assert(next[used.len() as int] == f);
                if let Some(g) = assign(rest, avail, next)[j - 1] {
                    assert(!next.contains(g));
                }
            } else {
                assert(all[i] == assign(rest, avail, next)[i - 1]);
            }
        }
    }
}

/// Whenever some offered format is ranked by the tier preferences, selection
/// assigns at least one tier (the best tier, in fact).
pub proof fn some_tier_assigned(available: Seq<FormatLabel>)
    requires
        exists|f: FormatLabel| available.contains(f) && is_ranked(f),
    ensures
        assign(default_pref_lists(), available, seq![])[0] is Some,
        exists|i: int| 0 <= i < 3 && assign(default_pref_lists(), available, seq![])[i] is Some,
{
    let f = choose|f: FormatLabel| available.contains(f) && is_ranked(f);
    let first = default_pref_lists()[0];
    assert(first == best_primary() + medium_primary() + low_primary());
    let j = choose|j: int| 0 <= j < first.len() && first[j] == f;
    assert(open_for(first[j], available, seq![]));
    lemma_claim_none(first, available, seq![]);
    assert(assign(default_pref_lists(), available, seq![])[0] == claim(first, available, seq![]));
}

/// No two tiers are assigned the same format, whatever the policies.
pub proof fn tier_formats_distinct(available: Seq<FormatLabel>, policies: Seq<TierPolicy>)
    ensures
        forall|i: int, j: int|
            0 <= i < j < policies.len() && (#[trigger] assign(pref_lists(policies), available, seq![])[i]) is Some
                ==> assign(pref_lists(policies), available, seq![])[i]
                    != #[trigger] assign(pref_lists(policies), available, seq![])[j],
{
    lemma_assign_distinct(pref_lists(policies), available, seq![]);
}

/// When the best tier's own list holds an offered format, the best tier gets
/// the first offered format of that list, the `k`-th, and no lower-ranked one.
pub proof fn best_tier_takes_top_primary(available: Seq<FormatLabel>, k: int)
    requires
        0 <= k < best_primary().len(),
        available.contains(best_primary()[k]),
        forall|j: int| 0 <= j < k ==> !available.contains(#[trigger] best_primary()[j]),
    ensures
        assign(default_pref_lists(), available, seq![])[0] == Some(best_primary()[k]),
{
    let empty: Seq<FormatLabel> = seq![];
    assert forall|j: int| 0 <= j < k implies !open_for(#[trigger] best_primary()[j], available, empty) by {}
    lemma_claim_first(best_primary(), available, empty, k);
    lemma_claim_prefix(best_primary(), medium_primary(), available, empty);
    lemma_claim_prefix(best_primary() + medium_primary(), low_primary(), available, empty);
    assert(assign(default_pref_lists(), available, empty)[0]
        == claim(best_primary() + medium_primary() + low_primary(), available, empty));
}

} // verus!
