//! `/routing`: a feasibility score for each property of a curated market
//! catalog, given a client profile, and the best three matches.
use vstd::prelude::*;
use crate::text::{
    contains_sub, decimal, digit_char, digits, has_substring, join_seq, join_strings, owned,
    push_decimal, push_decimal_u64, push_str, str_eq, string_views,
};

verus! {

/// One property of the market catalog. Distances are in tenths of a mile.
#[derive(Clone, Copy)]
pub struct Property {
    pub name: &'static str,
    pub rent: u32,
    pub voucher: bool,
    pub has_deposit: bool,
    pub dist_tenths: u32,
    pub fam: bool,
    pub vets: bool,
    pub youth: bool,
}

/// The catalog the routing helper ranks.
pub open spec fn catalog() -> Seq<Property> {
    seq![
        Property { name: "HumanKind Villas", rent: 0, voucher: true, has_deposit: false, dist_tenths: 3, fam: true, vets: false, youth: true },
        Property { name: "Hilltop Village", rent: 575, voucher: true, has_deposit: false, dist_tenths: 18, fam: true, vets: false, youth: true },
        Property { name: "VASH — Wichita VA", rent: 0, voucher: true, has_deposit: false, dist_tenths: 15, fam: false, vets: true, youth: false },
        Property { name: "NEXTenant — Prairie Wind", rent: 695, voucher: true, has_deposit: true, dist_tenths: 12, fam: true, vets: true, youth: true },
        Property { name: "NEXTenant — Riverside Commons", rent: 725, voucher: true, has_deposit: true, dist_tenths: 8, fam: true, vets: true, youth: true },
        Property { name: "Pawnee Crossing Duplexes", rent: 650, voucher: true, has_deposit: true, dist_tenths: 42, fam: true, vets: true, youth: false },
        Property { name: "NEXTenant — Douglas Ave Flats", rent: 775, voucher: true, has_deposit: true, dist_tenths: 4, fam: true, vets: true, youth: true },
        Property { name: "Sunflower Court", rent: 750, voucher: false, has_deposit: true, dist_tenths: 34, fam: true, vets: true, youth: false },
        Property { name: "Maple Ridge Apartments", rent: 825, voucher: false, has_deposit: true, dist_tenths: 21, fam: true, vets: true, youth: false },
        Property { name: "Central Park Towers", rent: 950, voucher: false, has_deposit: true, dist_tenths: 2, fam: false, vets: false, youth: false },
    ]
}

/// The catalog, as values.
pub fn properties() -> (v: [Property; 10])
    ensures
        v@ == catalog(),
{
    [
        Property { name: "HumanKind Villas", rent: 0, voucher: true, has_deposit: false, dist_tenths: 3, fam: true, vets: false, youth: true },
        Property { name: "Hilltop Village", rent: 575, voucher: true, has_deposit: false, dist_tenths: 18, fam: true, vets: false, youth: true },
        Property { name: "VASH — Wichita VA", rent: 0, voucher: true, has_deposit: false, dist_tenths: 15, fam: false, vets: true, youth: false },
        Property { name: "NEXTenant — Prairie Wind", rent: 695, voucher: true, has_deposit: true, dist_tenths: 12, fam: true, vets: true, youth: true },
        Property { name: "NEXTenant — Riverside Commons", rent: 725, voucher: true, has_deposit: true, dist_tenths: 8, fam: true, vets: true, youth: true },
        Property { name: "Pawnee Crossing Duplexes", rent: 650, voucher: true, has_deposit: true, dist_tenths: 42, fam: true, vets: true, youth: false },
        Property { name: "NEXTenant — Douglas Ave Flats", rent: 775, voucher: true, has_deposit: true, dist_tenths: 4, fam: true, vets: true, youth: true },
        Property { name: "Sunflower Court", rent: 750, voucher: false, has_deposit: true, dist_tenths: 34, fam: true, vets: true, youth: false },
        Property { name: "Maple Ridge Apartments", rent: 825, voucher: false, has_deposit: true, dist_tenths: 21, fam: true, vets: true, youth: false },
        Property { name: "Central Park Towers", rent: 950, voucher: false, has_deposit: true, dist_tenths: 2, fam: false, vets: false, youth: false },
    ]
}

/// A scored property.
pub struct RouteMatch {
    pub name: &'static str,
    pub rent: u32,
    pub has_deposit: bool,
    pub dist_tenths: u32,
    pub score: i32,
    pub reasons: Vec<String>,
}

/// The ranking the page shows.
pub struct RouteResult {
    pub top: Vec<RouteMatch>,
    pub top_score: i32,
    pub hint: &'static str,
    pub summary: String,
}

// ------- the score, term by term -------------------------------------------

/// Properties that house veterans only.
pub open spec fn is_vash(p: Property) -> bool {
    has_substring(p.name@, "VASH"@)
}

/// Whether the client holds a voucher.
pub open spec fn holds_voucher(voucher: Seq<char>) -> bool {
    voucher == "hcv"@ || voucher == "vash"@
}

/// Properties that the stress-mode rule prefers for zero-income clients.
pub open spec fn is_stress_preferred(p: Property) -> bool {
    has_substring(p.name@, "HumanKind"@) || has_substring(p.name@, "Hilltop"@)
}

pub open spec fn voucher_adj(p: Property, hv: bool, income: int) -> int {
    if p.voucher && hv {
        15
    } else if !p.voucher && hv {
        -20
    } else if !p.voucher && !hv && income < p.rent * 3 {
        -35
    } else {
        0
    }
}

pub open spec fn voucher_reasons(p: Property, hv: bool, income: int) -> Seq<Seq<char>> {
    if p.voucher && hv {
        seq!["voucher match"@]
    } else if !p.voucher && hv {
        seq!["no voucher accepted"@]
    } else if !p.voucher && !hv && income < p.rent * 3 {
        seq!["income below 3× rent"@]
    } else {
        seq![]
    }
}

pub open spec fn rent_adj(p: Property) -> int {
    if p.rent == 0 { 25 } else { 0 }
}

pub open spec fn rent_reasons(p: Property) -> Seq<Seq<char>> {
    if p.rent == 0 { seq!["$0 rent"@] } else { seq![] }
}

pub open spec fn deposit_adj(p: Property, deposit: int) -> int {
    if !p.has_deposit {
        10
    } else if deposit < p.rent {
        -15
    } else {
        0
    }
}

pub open spec fn deposit_reasons(p: Property, deposit: int) -> Seq<Seq<char>> {
    if !p.has_deposit {
        seq!["no deposit"@]
    } else if deposit < p.rent {
        seq!["deposit gap"@]
    } else {
        seq![]
    }
}

pub open spec fn distance_adj(within: bool) -> int {
    if within { 8 } else { -12 }
}

pub open spec fn distance_reasons(within: bool) -> Seq<Seq<char>> {
    if within { seq![] } else { seq!["beyond max distance"@] }
}

pub open spec fn family_adj(p: Property, family: Seq<char>) -> int {
    if family == "veteran"@ {
        (if p.vets { 5int } else { 0int }) + (if is_vash(p) { 20int } else { 0int })
    } else if family == "family"@ {
        if p.fam { 3 } else { 0 }
    } else if family == "youth"@ {
        if !p.youth { -10 } else { 0 }
    } else {
        0
    }
}

pub open spec fn family_reasons(p: Property, family: Seq<char>) -> Seq<Seq<char>> {
    if family == "veteran"@ && is_vash(p) {
        seq!["VASH-aligned"@]
    } else {
        seq![]
    }
}

pub open spec fn stress_adj(p: Property, income: int) -> int {
    if income == 0 && is_stress_preferred(p) { 15 } else { 0 }
}

pub open spec fn stress_reasons(p: Property, income: int) -> Seq<Seq<char>> {
    if income == 0 && is_stress_preferred(p) { seq!["stress-mode preferred"@] } else { seq![] }
}

/// The score before clamping: 50 plus every adjustment.
pub open spec fn raw_score(
    p: Property,
    income: int,
    voucher: Seq<char>,
    deposit: int,
    within: bool,
    family: Seq<char>,
) -> int {
    50 + voucher_adj(p, holds_voucher(voucher), income) + rent_adj(p) + deposit_adj(p, deposit)
        + distance_adj(within) + family_adj(p, family) + stress_adj(p, income)
}

/// Every reason, in the order the rules are applied.
pub open spec fn all_reasons(
    p: Property,
    income: int,
    voucher: Seq<char>,
    deposit: int,
    within: bool,
    family: Seq<char>,
) -> Seq<Seq<char>> {
    voucher_reasons(p, holds_voucher(voucher), income) + rent_reasons(p) + deposit_reasons(
        p,
        deposit,
    ) + distance_reasons(within) + family_reasons(p, family) + stress_reasons(p, income)
}

pub open spec fn clamp(x: int, lo: int, hi: int) -> int {
    if x < lo { lo } else if x > hi { hi } else { x }
}

/// Whether veterans-only housing rules the property out for this client.
pub open spec fn vash_excluded(p: Property, family: Seq<char>) -> bool {
    is_vash(p) && family != "veteran"@
}

/// The feasibility score of `p` for the client, 0 to 100.
pub open spec fn score_of(
    p: Property,
    income: int,
    voucher: Seq<char>,
    deposit: int,
    within: bool,
    family: Seq<char>,
) -> int {
    if vash_excluded(p, family) {
        0
    } else {
        clamp(raw_score(p, income, voucher, deposit, within, family), 0, 100)
    }
}

/// The reasons shown for `p`: the first three that apply.
pub open spec fn reasons_of(
    p: Property,
    income: int,
    voucher: Seq<char>,
    deposit: int,
    within: bool,
    family: Seq<char>,
) -> Seq<Seq<char>> {
    if vash_excluded(p, family) {
        seq!["veterans only"@]
    } else {
        let all = all_reasons(p, income, voucher, deposit, within, family);
        if all.len() > 3 { all.take(3) } else { all }
    }
}

fn push_reason(reasons: &mut Vec<String>, r: &str)
    ensures
        string_views(final(reasons)@) == string_views(old(reasons)@).push(r@),
{
    reasons.push(owned(r));
    assert(string_views(reasons@) =~= string_views(old(reasons)@).push(r@));
}

fn voucher_step(p: &Property, has_voucher: bool, income: i64, reasons: &mut Vec<String>) -> (adj: i32)
    ensures
        adj == voucher_adj(*p, has_voucher, income as int),
        string_views(final(reasons)@) == string_views(old(reasons)@) + voucher_reasons(
            *p,
            has_voucher,
            income as int,
        ),
{
    let ghost before = string_views(reasons@);
    if p.voucher && has_voucher {
        push_reason(reasons, "voucher match");
        15
    } else if !p.voucher && has_voucher {
        push_reason(reasons, "no voucher accepted");
        -20
    } else if !p.voucher && !has_voucher && income < (p.rent as i64) * 3 {
        push_reason(reasons, "income below 3× rent");
        -35
    } else {
        assert(string_views(reasons@) =~= before + voucher_reasons(*p, has_voucher, income as int));
        0
    }
}

fn cost_step(p: &Property, deposit: i64, reasons: &mut Vec<String>) -> (adj: i32)
    ensures
        adj == rent_adj(*p) + deposit_adj(*p, deposit as int),
        string_views(final(reasons)@) == string_views(old(reasons)@) + rent_reasons(*p)
            + deposit_reasons(*p, deposit as int),
{
    let ghost before = string_views(reasons@);
    let mut adj: i32 = 0;
    if p.rent == 0 {
        adj = adj + 25;
        push_reason(reasons, "$0 rent");
    }
    let ghost mid = string_views(reasons@);
    assert(mid =~= before + rent_reasons(*p));
    if !p.has_deposit {
        adj = adj + 10;
        push_reason(reasons, "no deposit");
    } else if deposit < p.rent as i64 {
        adj = adj - 15;
        push_reason(reasons, "deposit gap");
    }
    assert(string_views(reasons@) =~= mid + deposit_reasons(*p, deposit as int));
    adj
}

fn distance_step(within: bool, reasons: &mut Vec<String>) -> (adj: i32)
    ensures
        adj == distance_adj(within),
        string_views(final(reasons)@) == string_views(old(reasons)@) + distance_reasons(within),
{
    if within {
        assert(string_views(reasons@) =~= string_views(old(reasons)@) + distance_reasons(within));
        8
    } else {
        push_reason(reasons, "beyond max distance");
        -12
    }
}

fn family_step(p: &Property, family: &str, is_vash: bool, reasons: &mut Vec<String>) -> (adj: i32)
    requires
        is_vash == self::is_vash(*p),
    ensures
        adj == family_adj(*p, family@),
        string_views(final(reasons)@) == string_views(old(reasons)@) + family_reasons(*p, family@),
{
    let mut adj: i32 = 0;
    if str_eq(family, "veteran") {
        if p.vets {
            adj = adj + 5;
        }
        if is_vash {
            adj = adj + 20;
            push_reason(reasons, "VASH-aligned");
        }
    } else if str_eq(family, "family") {
        if p.fam {
            adj = adj + 3;
        }
    } else if str_eq(family, "youth") {
        if !p.youth {
            adj = adj - 10;
        }
    }
    assert(string_views(reasons@) =~= string_views(old(reasons)@) + family_reasons(*p, family@));
    adj
}

fn stress_step(p: &Property, income: i64, reasons: &mut Vec<String>) -> (adj: i32)
    ensures
        adj == stress_adj(*p, income as int),
        string_views(final(reasons)@) == string_views(old(reasons)@) + stress_reasons(
            *p,
            income as int,
        ),
{
    if income == 0 && (contains_sub(p.name, "HumanKind") || contains_sub(p.name, "Hilltop")) {
        push_reason(reasons, "stress-mode preferred");
        15
    } else {
        assert(string_views(reasons@) =~= string_views(old(reasons)@) + stress_reasons(
            *p,
            income as int,
        ));
        0
    }
}

/// Scores one property for a client. `within_max_distance` says whether the
/// property lies within the client's maximum travel distance.
pub fn score_one(
    p: &Property,
    income: i64,
    voucher: &str,
    deposit: i64,
    within_max_distance: bool,
    family: &str,
) -> (m: RouteMatch)
    ensures
        m.name == p.name,
        m.rent == p.rent,
        m.has_deposit == p.has_deposit,
        m.dist_tenths == p.dist_tenths,
        m.score == score_of(*p, income as int, voucher@, deposit as int, within_max_distance, family@),
        string_views(m.reasons@) == reasons_of(
            *p,
            income as int,
            voucher@,
            deposit as int,
            within_max_distance,
            family@,
        ),
        0 <= m.score <= 100,
{
    let is_vash = contains_sub(p.name, "VASH");
    let is_veteran = str_eq(family, "veteran");
    let mut reasons: Vec<String> = Vec::new();
    if is_vash && !is_veteran {
        push_reason(&mut reasons, "veterans only");
        assert(string_views(reasons@) =~= seq!["veterans only"@]);
        return RouteMatch {
            name: p.name,
            rent: p.rent,
            has_deposit: p.has_deposit,
            dist_tenths: p.dist_tenths,
            score: 0,
            reasons,
        };
    }
    let has_voucher = str_eq(voucher, "hcv") || str_eq(voucher, "vash");
    assert(string_views(reasons@) =~= Seq::<Seq<char>>::empty());
    let a1 = voucher_step(p, has_voucher, income, &mut reasons);
    let a2 = cost_step(p, deposit, &mut reasons);
    let a3 = distance_step(within_max_distance, &mut reasons);
    let a4 = family_step(p, family, is_vash, &mut reasons);
    let a5 = stress_step(p, income, &mut reasons);
    let ghost all = string_views(reasons@);
    assert(all =~= all_reasons(
        *p,
        income as int,
        voucher@,
        deposit as int,
        within_max_distance,
        family@,
    ));
    let raw: i32 = 50 + a1 + a2 + a3 + a4 + a5;
    let score = if raw < 0 {
        0
    } else if raw > 100 {
        100
    } else {
        raw
    };
    if reasons.len() > 3 {
        reasons.truncate(3);
        assert(string_views(reasons@) =~= all.take(3));
    }
    RouteMatch {
        name: p.name,
        rent: p.rent,
        has_deposit: p.has_deposit,
        dist_tenths: p.dist_tenths,
        score,
        reasons,
    }
}

// ------- picking the best few ---------------------------------------------

/// Whether entry `a` comes before entry `b` when the entries are sorted by
/// descending score with ties kept in their original order.
pub open spec fn ranks_ahead(s: Seq<int>, a: int, b: int) -> bool {
    s[a] > s[b] || (s[a] == s[b] && a < b)
}

/// Whether index `x` is among `top`.
pub open spec fn picked(top: Seq<usize>, x: int) -> bool {
    exists|i: int| 0 <= i < top.len() && top[i] as int == x
}

/// `top` lists the first `min(k, s.len())` indices of `s` in the stable
/// descending order: the same indices, in the same order, that sorting by
/// descending score and taking `k` gives.
pub open spec fn leads(s: Seq<int>, top: Seq<usize>, k: nat) -> bool {
    &&& top.len() == if s.len() < k { s.len() } else { k }
    &&& forall|i: int| 0 <= i < top.len() ==> #[trigger] top[i] < s.len()
    &&& forall|i: int, j: int|
        0 <= i < j < top.len() ==> ranks_ahead(s, #[trigger] top[i] as int, #[trigger] top[j] as int)
    &&& forall|i: int, x: int|
        #![trigger top[i], picked(top, x)]
        0 <= i < top.len() && 0 <= x < s.len() && !picked(top, x) ==> ranks_ahead(
            s,
            top[i] as int,
            x,
        )
}

proof fn lemma_unpicked_exists(top: Seq<usize>, n: nat)
    requires
        top.len() < n,
    ensures
        exists|x: int| 0 <= x < n && !picked(top, x),
{
    let ti = top.map_values(|v: usize| v as int);
    ti.lemma_cardinality_of_set();
    vstd::set_lib::lemma_int_range(0, n as int);
    if forall|x: int| 0 <= x < n ==> picked(top, x) {
        assert(vstd::set_lib::set_int_range(0, n as int).subset_of(ti.to_set())) by {
            assert forall|x: int| #[trigger] vstd::set_lib::set_int_range(0, n as int).contains(x) implies ti.to_set().contains(x) by {
                assert(picked(top, x));
                let i = choose|i: int| 0 <= i < top.len() && top[i] as int == x;
                assert(ti[i] == x);
                assert(ti.contains(x));
            }
        }
        vstd::seq_lib::seq_to_set_is_finite(ti);
        vstd::set_lib::lemma_len_subset(vstd::set_lib::set_int_range(0, n as int), ti.to_set());
    }
}

fn is_picked(top: &Vec<usize>, x: usize) -> (r: bool)
    ensures
        r == picked(top@, x as int),
{
    let mut i: usize = 0;
    while i < top.len()
        invariant
            i <= top@.len(),
            forall|j: int| 0 <= j < i ==> top@[j] != x,
        decreases top.len() - i,
    {
        if top[i] == x {
            return true;
        }
        i = i + 1;
    }
    false
}

fn ahead(scores: &Vec<i32>, a: usize, b: usize) -> (r: bool)
    requires
        a < scores@.len(),
        b < scores@.len(),
    ensures
        r == ranks_ahead(int_seq(scores@), a as int, b as int),
{
    scores[a] > scores[b] || (scores[a] == scores[b] && a < b)
}

/// The scores as mathematical integers.
pub open spec fn int_seq(s: Seq<i32>) -> Seq<int> {
    s.map_values(|v: i32| v as int)
}

fn best_unpicked(scores: &Vec<i32>, top: &Vec<usize>) -> (r: Option<usize>)
    ensures
        r matches Some(b) ==> {
            &&& b < scores@.len()
            &&& !picked(top@, b as int)
            &&& forall|x: int|
                0 <= x < scores@.len() && !picked(top@, x) && x != b ==> ranks_ahead(
                    int_seq(scores@),
                    b as int,
                    x,
                )
        },
        r is None ==> forall|x: int| 0 <= x < scores@.len() ==> picked(top@, x),
{
    let n = scores.len();
    let ghost s = int_seq(scores@);
    let mut best: Option<usize> = None;
    let mut j: usize = 0;
    while j < n
        invariant
            n == scores@.len(),
            s == int_seq(scores@),
            j <= n,
            best is None ==> forall|x: int| 0 <= x < j ==> picked(top@, x),
            best matches Some(b) ==> {
                &&& b < j
                &&& !picked(top@, b as int)
                &&& forall|x: int|
                    0 <= x < j && !picked(top@, x) && x != b ==> ranks_ahead(s, b as int, x)
            },
        decreases n - j,
    {
        if !is_picked(top, j) {
            match best {
                None => {
                    best = Some(j);
                },
                Some(b) => {
                    if ahead(scores, j, b) {
                        best = Some(j);
                    }
                },
            }
        }
        j = j + 1;
    }
    best
}

/// The indices of the `k` best scores, best first, ties in original order.
pub fn leading_indices(scores: &Vec<i32>, k: usize) -> (top: Vec<usize>)
    ensures
        leads(int_seq(scores@), top@, k as nat),
{
    let ghost s = int_seq(scores@);
    let n = scores.len();
    let mut top: Vec<usize> = Vec::new();
    while top.len() < k && top.len() < n
        invariant
            s == int_seq(scores@),
            n == scores@.len(),
            top@.len() <= k,
            top@.len() <= n,
            forall|i: int| 0 <= i < top@.len() ==> #[trigger] top@[i] < n,
            forall|i: int, j: int|
                0 <= i < j < top@.len() ==> ranks_ahead(s, #[trigger] top@[i] as int, #[trigger] top@[j] as int),
            forall|i: int, x: int|
                #![trigger top@[i], picked(top@, x)]
                0 <= i < top@.len() && 0 <= x < n && !picked(top@, x) ==> ranks_ahead(
                    s,
                    top@[i] as int,
                    x,
                ),
        decreases n - top@.len(),
    {
        proof {
            lemma_unpicked_exists(top@, n as nat);
        }
        let r = best_unpicked(scores, &top);
        match r {
            None => {
                assert(false);
            },
            Some(b) => {
                let ghost old_top = top@;
                top.push(b);
                assert forall|x: int| 0 <= x < n && !picked(top@, x) implies !picked(old_top, x) && x != b by {
                    if picked(old_top, x) {
                        let i = choose|i: int| 0 <= i < old_top.len() && old_top[i] as int == x;
                        assert(top@[i] == old_top[i]);
                    }
                    if x == b {
                        assert(top@[old_top.len() as int] == b);
                    }
                }
                assert forall|i: int, x: int|
                    #![trigger top@[i], picked(top@, x)]
                    0 <= i < top@.len() && 0 <= x < n && !picked(top@, x) implies ranks_ahead(
                    s,
                    top@[i] as int,
                    x,
                ) by {
                    assert(!picked(old_top, x) && x != b);
                    if i < old_top.len() {
                        assert(top@[i] == old_top[i]);
                        assert(ranks_ahead(s, old_top[i] as int, x));
                    } else {
                        assert(top@[i] == b);
                        assert(ranks_ahead(s, b as int, x));
                    }
                }
                assert forall|i: int, j: int|
                    0 <= i < j < top@.len() implies ranks_ahead(s, #[trigger] top@[i] as int, #[trigger] top@[j] as int) by {
                    if j < old_top.len() {
                        assert(top@[i] == old_top[i]);
                        assert(top@[j] == old_top[j]);
                    } else {
                        assert(top@[i] == old_top[i]);
                        assert(top@[j] == b);
                    }
                }
            },
        }
    }
    top
}

// ------- the whole ranking -----------------------------------------------

/// Whether the property at catalog position `i` is within the client's
/// maximum distance; positions past the end of `within` are not.
pub open spec fn within_at(within: Seq<bool>, i: int) -> bool {
    0 <= i < within.len() && within[i]
}

/// Every catalog property's score for the client.
pub open spec fn catalog_scores(
    income: int,
    voucher: Seq<char>,
    deposit: int,
    within: Seq<bool>,
    family: Seq<char>,
) -> Seq<int> {
    Seq::new(
        catalog().len(),
        |i: int| score_of(catalog()[i], income, voucher, deposit, within_at(within, i), family),
    )
}

/// `m` is the scoring of `p` for the client.
pub open spec fn scored_as(
    m: RouteMatch,
    p: Property,
    income: int,
    voucher: Seq<char>,
    deposit: int,
    within: bool,
    family: Seq<char>,
) -> bool {
    &&& m.name == p.name
    &&& m.rent == p.rent
    &&& m.has_deposit == p.has_deposit
    &&& m.dist_tenths == p.dist_tenths
    &&& m.score == score_of(p, income, voucher, deposit, within, family)
    &&& string_views(m.reasons@) == reasons_of(p, income, voucher, deposit, within, family)
}

/// The one-line verdict for a top score.
pub open spec fn hint_of(score: int) -> Seq<char> {
    if score >= 70 {
        "feasible · proceed to placement"@
    } else if score >= 45 {
        "feasible with assistance"@
    } else {
        "structural barriers — escalate"@
    }
}

/// The one-line verdict for a top score.
pub fn feasibility_hint(score: i32) -> (h: &'static str)
    ensures
        h@ == hint_of(score as int),
{
    if score >= 70 {
        "feasible · proceed to placement"
    } else if score >= 45 {
        "feasible with assistance"
    } else {
        "structural barriers — escalate"
    }
}

fn within_flag(within: &[bool], i: usize) -> (b: bool)
    ensures
        b == within_at(within@, i as int),
{
    i < within.len() && within[i]
}

/// Whatever the scores, the first of the leading indices has the highest
/// score of all.
pub proof fn lemma_leader_is_best(s: Seq<int>, top: Seq<usize>, k: nat)
    requires
        leads(s, top, k),
        top.len() > 0,
    ensures
        forall|x: int| 0 <= x < s.len() ==> #[trigger] s[x] <= s[top[0] as int],
{
    assert forall|x: int| 0 <= x < s.len() implies #[trigger] s[x] <= s[top[0] as int] by {
        if picked(top, x) {
            let i = choose|i: int| 0 <= i < top.len() && top[i] as int == x;
            if i > 0 {
                assert(ranks_ahead(s, top[0] as int, top[i] as int));
            }
        } else {
            assert(ranks_ahead(s, top[0] as int, x));
        }
    }
}

/// Ranks the catalog for a client and keeps the three best matches.
/// `within[i]` says whether catalog property `i` is within the client's
/// maximum travel distance. The time of presenting does not change the
/// ranking.
pub fn score_all(
    income: i64,
    voucher: &str,
    deposit: i64,
    within: &[bool],
    family: &str,
    _when_present: &str,
) -> (r: RouteResult)
    ensures
        ({
            let s = catalog_scores(income as int, voucher@, deposit as int, within@, family@);
            exists|idx: Seq<usize>|
                {
                    &&& leads(s, idx, 3)
                    &&& r.top@.len() == idx.len()
                    &&& forall|t: int|
                        0 <= t < idx.len() ==> scored_as(
                            #[trigger] r.top@[t],
                            catalog()[idx[t] as int],
                            income as int,
                            voucher@,
                            deposit as int,
                            within_at(within@, idx[t] as int),
                            family@,
                        )
                }
        }),
        r.top@.len() == 3,
        r.top_score == r.top@[0].score,
        forall|i: int|
            0 <= i < catalog().len() ==> #[trigger] catalog_scores(
                income as int,
                voucher@,
                deposit as int,
                within@,
                family@,
            )[i] <= r.top_score,
        r.hint@ == hint_of(r.top_score as int),
        r.summary@ == r.top@[0].name@ + " leads ("@ + decimal(r.top_score as int) + "/100). "@
            + r.hint@ + "."@,
{
    let props = properties();
    let ghost s = catalog_scores(income as int, voucher@, deposit as int, within@, family@);
    let mut scores: Vec<i32> = Vec::new();
    let mut i: usize = 0;
    while i < 10
        invariant
            i <= 10,
            props@ == catalog(),
            s == catalog_scores(income as int, voucher@, deposit as int, within@, family@),
            scores@.len() == i,
            forall|j: int| 0 <= j < i ==> scores@[j] as int == s[j],
        decreases 10 - i,
    {
        let m = score_one(&props[i], income, voucher, deposit, within_flag(within, i), family);
        scores.push(m.score);
        i = i + 1;
    }
    assert(int_seq(scores@) =~= s);
    let idx = leading_indices(&scores, 3);
    let mut top: Vec<RouteMatch> = Vec::new();
    let mut t: usize = 0;
    while t < idx.len()
        invariant
            props@ == catalog(),
            s == catalog_scores(income as int, voucher@, deposit as int, within@, family@),
            leads(s, idx@, 3),
            t <= idx@.len(),
            top@.len() == t,
            forall|u: int|
                0 <= u < t ==> scored_as(
                    #[trigger] top@[u],
                    catalog()[idx@[u] as int],
                    income as int,
                    voucher@,
                    deposit as int,
                    within_at(within@, idx@[u] as int),
                    family@,
                ),
        decreases idx.len() - t,
    {
        let k = idx[t];
        assert(k < 10);
        let m = score_one(&props[k], income, voucher, deposit, within_flag(within, k), family);
        top.push(m);
        t = t + 1;
    }
    proof {
        lemma_leader_is_best(s, idx@, 3);
        assert(scored_as(top@[0], catalog()[idx@[0] as int], income as int, voucher@, deposit as int, within_at(within@, idx@[0] as int), family@));
    }
    let top_score = top[0].score;
    let hint = feasibility_hint(top_score);
    let mut summary = owned(top[0].name);
    push_str(&mut summary, " leads (");
    push_decimal(&mut summary, top_score as i64);
    push_str(&mut summary, "/100). ");
    push_str(&mut summary, hint);
    push_str(&mut summary, ".");
    RouteResult { top, top_score, hint, summary }
}

// ------- where to start --------------------------------------------------

/// The intake points for a client, in the order to try them, with why.
pub open spec fn intake_plan(family: Seq<char>, when_present: Seq<char>) -> Seq<(Seq<char>, Seq<char>)> {
    let after_hours = when_present == "after"@ || family == "youth"@;
    let vets: Seq<(Seq<char>, Seq<char>)> = if family == "veteran"@ {
        seq![("VASH Housing — Wichita VA"@, "veterans only · HUD-VASH + VA case mgmt"@)]
    } else {
        seq![]
    };
    let rest: Seq<(Seq<char>, Seq<char>)> = if after_hours {
        (if family == "youth"@ {
            seq![("CrossRoads Youth Intake"@, "24/7 walk-in · hold capacity for DCF youth"@)]
        } else {
            seq![]
        }) + seq![("211 Kansas"@, "24/7 phone · live transfer · overloaded today"@)]
    } else {
        seq![
            ("H.O.T. Team"@, "M–F 7:00–15:30 · live transfer"@),
            ("Center of Hope"@, "reduced hours · Open Door overflow"@),
        ]
    };
    let all = vets + rest;
    if all.len() > 3 { all.take(3) } else { all }
}

/// The character views of a list of (name, rationale) pairs.
pub open spec fn pair_views(v: Seq<(&str, &str)>) -> Seq<(Seq<char>, Seq<char>)> {
    v.map_values(|p: (&str, &str)| (p.0@, p.1@))
}

fn push_pair(v: &mut Vec<(&'static str, &'static str)>, a: &'static str, b: &'static str)
    ensures
        pair_views(final(v)@) == pair_views(old(v)@).push((a@, b@)),
{
    v.push((a, b));
    assert(pair_views(v@) =~= pair_views(old(v)@).push((a@, b@)));
}

/// Where a client should start: the intake points to try, in order.
pub fn intake_for(family: &str, when_present: &str) -> (r: Vec<(&'static str, &'static str)>)
    ensures
        pair_views(r@) == intake_plan(family@, when_present@),
{
    let is_youth = str_eq(family, "youth");
    let after_hours = str_eq(when_present, "after") || is_youth;
    let mut intakes: Vec<(&'static str, &'static str)> = Vec::new();
    assert(pair_views(intakes@) =~= Seq::<(Seq<char>, Seq<char>)>::empty());
    if str_eq(family, "veteran") {
        push_pair(&mut intakes, "VASH Housing — Wichita VA", "veterans only · HUD-VASH + VA case mgmt");
    }
    let ghost vets = pair_views(intakes@);
    if after_hours {
        if is_youth {
            push_pair(&mut intakes, "CrossRoads Youth Intake", "24/7 walk-in · hold capacity for DCF youth");
        }
        push_pair(&mut intakes, "211 Kansas", "24/7 phone · live transfer · overloaded today");
    } else {
        push_pair(&mut intakes, "H.O.T. Team", "M–F 7:00–15:30 · live transfer");
        push_pair(&mut intakes, "Center of Hope", "reduced hours · Open Door overflow");
    }
    let ghost all = pair_views(intakes@);
    assert(all =~= intake_plan(family@, when_present@) || all.len() > 3);
    if intakes.len() > 3 {
        intakes.truncate(3);
        assert(pair_views(intakes@) =~= all.take(3));
    }
    intakes
}

// ------- how a match is shown ---------------------------------------------

/// `n` written with at least two digits.
pub open spec fn two_digits(n: nat) -> Seq<char> {
    if n < 10 { seq!['0'] + digits(n) } else { digits(n) }
}

/// The rank badge of the match at position `i`: `"{:02} · {score}"` of
/// `i + 1`.
pub fn rank_label(i: usize, score: i32) -> (r: String)
    requires
        i < u64::MAX,
    ensures
        r@ == two_digits((i + 1) as nat) + " · "@ + decimal(score as int),
{
    let n = (i as u64) + 1;
    let mut r = String::new();
    if n < 10 {
        push_str(&mut r, "0");
    }
    push_decimal_u64(&mut r, n);
    push_str(&mut r, " · ");
    push_decimal(&mut r, score as i64);
    proof {
        reveal_strlit("0");
    }
    assert(r@ =~= two_digits((i + 1) as nat) + " · "@ + decimal(score as int));
    r
}

/// A distance in tenths of a mile, written with one decimal.
pub open spec fn tenths_text(t: nat) -> Seq<char> {
    digits(t / 10) + seq!['.'] + seq![digit_char(t % 10)]
}

/// The headline of a match: name, rent, deposit flag and distance.
pub open spec fn headline_text(m: RouteMatch) -> Seq<char> {
    m.name@ + " · $"@ + decimal(m.rent as int) + (if m.has_deposit { " + dep"@ } else { ""@ }) + " · "@
        + tenths_text(m.dist_tenths as nat) + " mi"@
}

/// `"{name} · ${rent}{ + dep} · {miles:.1} mi"` for a match.
pub fn match_headline(m: &RouteMatch) -> (r: String)
    ensures
        r@ == headline_text(*m),
{
    let mut r = owned(m.name);
    push_str(&mut r, " · $");
    push_decimal_u64(&mut r, m.rent as u64);
    if m.has_deposit {
        push_str(&mut r, " + dep");
    } else {
        push_str(&mut r, "");
    }
    push_str(&mut r, " · ");
    push_decimal_u64(&mut r, (m.dist_tenths / 10) as u64);
    push_str(&mut r, ".");
    push_decimal_u64(&mut r, (m.dist_tenths % 10) as u64);
    push_str(&mut r, " mi");
    assert(digits((m.dist_tenths % 10) as nat) == seq![digit_char((m.dist_tenths % 10) as nat)]);
    proof {
        reveal_strlit(".");
        reveal_strlit("");
    }
    assert(r@ =~= headline_text(*m));
    r
}

/// Why a match ranks where it does: its reasons joined by `" · "`, or
/// `"baseline match"` when none applied.
pub fn match_rationale(m: &RouteMatch) -> (r: String)
    ensures
        m.reasons@.len() == 0 ==> r@ == "baseline match"@,
        m.reasons@.len() > 0 ==> r@ == join_seq(string_views(m.reasons@), " · "@),
{
    if m.reasons.len() == 0 {
        owned("baseline match")
    } else {
        join_strings(&m.reasons, " · ")
    }
}

// ------- the stress-mode routing rule ---------------------------------------

proof fn lemma_absent_char(hay: Seq<char>, needle: Seq<char>, k: int)
    requires
        0 <= k < needle.len(),
        forall|i: int| 0 <= i < hay.len() ==> hay[i] != needle[k],
    ensures
        !has_substring(hay, needle),
{
    if has_substring(hay, needle) {
        let i = choose|i: int| 0 <= i && i + needle.len() <= hay.len() && #[trigger] hay.subrange(i, i + needle.len()) == needle;
        assert(hay.subrange(i, i + needle.len())[k] == hay[i + k]);
    }
}

proof fn lemma_prefix_present(hay: Seq<char>, needle: Seq<char>)
    requires
        needle.len() <= hay.len(),
        hay.subrange(0, needle.len() as int) == needle,
    ensures
        has_substring(hay, needle),
{
    assert(hay.subrange(0int, 0int + needle.len()) == needle);
}

/// Which catalog names carry the veterans-only and stress-mode markers.
proof fn lemma_catalog_markers()
    ensures
        !is_vash(catalog()[0]) && is_stress_preferred(catalog()[0]),
        !is_vash(catalog()[1]) && is_stress_preferred(catalog()[1]),
        forall|i: int| 3 <= i < 10 ==> !is_vash(#[trigger] catalog()[i]) && !is_stress_preferred(catalog()[i]),
{
    reveal_strlit("VASH");
    reveal_strlit("HumanKind");
    reveal_strlit("Hilltop");
    reveal_strlit("HumanKind Villas");
    reveal_strlit("Hilltop Village");
    reveal_strlit("NEXTenant — Prairie Wind");
    reveal_strlit("NEXTenant — Riverside Commons");
    reveal_strlit("Pawnee Crossing Duplexes");
    reveal_strlit("NEXTenant — Douglas Ave Flats");
    reveal_strlit("Sunflower Court");
    reveal_strlit("Maple Ridge Apartments");
    reveal_strlit("Central Park Towers");
    let c = catalog();
    // "VASH" needs an 'S'; "HumanKind" a 'K'; "Hilltop" an 'H'.
    lemma_absent_char(c[0].name@, "VASH"@, 2);
    assert(c[0].name@.subrange(0, 9) =~= "HumanKind"@);
    lemma_prefix_present(c[0].name@, "HumanKind"@);
    lemma_absent_char(c[1].name@, "VASH"@, 2);
    assert(c[1].name@.subrange(0, 7) =~= "Hilltop"@);
    lemma_prefix_present(c[1].name@, "Hilltop"@);
    assert forall|i: int| 3 <= i < 10 implies !is_vash(#[trigger] catalog()[i]) && !is_stress_preferred(catalog()[i]) by {
        if i == 7 {
            lemma_absent_char(c[i].name@, "VASH"@, 0);
        } else {
            lemma_absent_char(c[i].name@, "VASH"@, 2);
        }
        lemma_absent_char(c[i].name@, "HumanKind"@, 5);
        lemma_absent_char(c[i].name@, "Hilltop"@, 0);
    }
}

/// For a client with no income and no deposit capacity, the stress-mode
/// rule holds: HumanKind Villas and Hilltop Village ($0 move-in, no income
/// prerequisite) are always among the three matches shown, whatever the
/// voucher, household type and distances.
pub proof fn lemma_stress_mode_prefers_zero_move_in(
    voucher: Seq<char>,
    within: Seq<bool>,
    family: Seq<char>,
    top: Seq<usize>,
)
    requires
        leads(catalog_scores(0, voucher, 0, within, family), top, 3),
    ensures
        picked(top, 0),
        picked(top, 1),
{
    lemma_catalog_markers();
    let s = catalog_scores(0, voucher, 0, within, family);
    let c = catalog();
    assert(s.len() == 10);
    assert(top.len() == 3);
    assert(s[0] >= 88);
    assert(s[1] >= 63);
    assert(s[0] >= s[1]);
    assert forall|i: int| 3 <= i < 10 implies #[trigger] s[i] <= 63 by {
        assert(!is_vash(c[i]) && !is_stress_preferred(c[i]));
    }
    assert(top[0] != top[1] && top[1] != top[2] && top[0] != top[2]) by {
        assert(ranks_ahead(s, top[0] as int, top[1] as int));
        assert(ranks_ahead(s, top[1] as int, top[2] as int));
        assert(ranks_ahead(s, top[0] as int, top[2] as int));
    }
    if !picked(top, 1) {
        assert forall|k: int| 0 <= k < 3 implies (top[k] == 0 || top[k] == 2) by {
            assert(ranks_ahead(s, top[k] as int, 1));
            if top[k] >= 3 {
                assert(s[top[k] as int] <= 63);
            }
        }
        assert(false);
    }
    if !picked(top, 0) {
        assert forall|k: int| 0 <= k < 3 implies top[k] == 2 by {
            assert(ranks_ahead(s, top[k] as int, 0));
            if top[k] >= 3 {
                assert(s[top[k] as int] <= 63);
            }
        }
        assert(false);
    }
}

/// For a client with income, a property's name earns it nothing: two
/// properties that differ only in name (and are alike in being veterans-only
/// or not) score the same and show the same reasons. The stress-mode bonus
/// is for zero-income clients alone.
pub proof fn lemma_income_earns_no_name_bonus(
    p: Property,
    q: Property,
    income: int,
    voucher: Seq<char>,
    deposit: int,
    within: bool,
    family: Seq<char>,
)
    requires
        income != 0,
        p.rent == q.rent,
        p.voucher == q.voucher,
        p.has_deposit == q.has_deposit,
        p.dist_tenths == q.dist_tenths,
        p.fam == q.fam,
        p.vets == q.vets,
        p.youth == q.youth,
        is_vash(p) == is_vash(q),
    ensures
        score_of(p, income, voucher, deposit, within, family) == score_of(
            q,
            income,
            voucher,
            deposit,
            within,
            family,
        ),
        reasons_of(p, income, voucher, deposit, within, family) == reasons_of(
            q,
            income,
            voucher,
            deposit,
            within,
            family,
        ),
{
}

/// For a client with income, no property is shown as stress-mode
/// preferred, and its score is 50 plus the voucher, rent, deposit,
/// distance and household-type adjustments alone, kept within 0 to 100
/// (0 for veterans-only housing and a client who is not a veteran).
pub proof fn lemma_income_gets_no_stress_bonus(
    p: Property,
    income: int,
    voucher: Seq<char>,
    deposit: int,
    within: bool,
    family: Seq<char>,
)
    requires
        income != 0,
    ensures
        !reasons_of(p, income, voucher, deposit, within, family).contains(
            "stress-mode preferred"@,
        ),
        score_of(p, income, voucher, deposit, within, family) == if vash_excluded(p, family) {
            0
        } else {
            clamp(
                50 + voucher_adj(p, holds_voucher(voucher), income) + rent_adj(p) + deposit_adj(
                    p,
                    deposit,
                ) + distance_adj(within) + family_adj(p, family),
                0,
                100,
            )
        },
{
    reveal_strlit("stress-mode preferred");
    reveal_strlit("voucher match");
    reveal_strlit("no voucher accepted");
    reveal_strlit("income below 3× rent");
    reveal_strlit("$0 rent");
    reveal_strlit("no deposit");
    reveal_strlit("deposit gap");
    reveal_strlit("beyond max distance");
    reveal_strlit("VASH-aligned");
    reveal_strlit("veterans only");
    let r = reasons_of(p, income, voucher, deposit, within, family);
    if !vash_excluded(p, family) {
        let all = all_reasons(p, income, voucher, deposit, within, family);
        assert(stress_reasons(p, income) =~= Seq::<Seq<char>>::empty());
        assert forall|k: int| 0 <= k < all.len() implies #[trigger] all[k].len() != 21 by {
            let v = voucher_reasons(p, holds_voucher(voucher), income);
            let a = v + rent_reasons(p);
            let b = a + deposit_reasons(p, deposit);
            let c = b + distance_reasons(within);
            let d = c + family_reasons(p, family);
            assert(all =~= d + stress_reasons(p, income));
            assert(forall|j: int| 0 <= j < v.len() ==> #[trigger] v[j].len() != 21);
            assert(forall|j: int| 0 <= j < a.len() ==> #[trigger] a[j].len() != 21);
            assert(forall|j: int| 0 <= j < b.len() ==> #[trigger] b[j].len() != 21);
            assert(forall|j: int| 0 <= j < c.len() ==> #[trigger] c[j].len() != 21);
            assert(forall|j: int| 0 <= j < d.len() ==> #[trigger] d[j].len() != 21);
        }
        assert forall|k: int| 0 <= k < r.len() implies #[trigger] r[k].len() != 21 by {
            assert(r[k] == all[k]);
        }
    }
    if r.contains("stress-mode preferred"@) {
        let k = choose|k: int| 0 <= k < r.len() && r[k] == "stress-mode preferred"@;
        assert(r[k].len() != 21);
    }
}

/// Where a client starts: the youth intake is suggested to youth alone.
/// Youth go to the youth intake, then 211 Kansas, whenever they present.
/// Anyone else presenting after hours is sent to the VASH housing first
/// when a veteran, then to 211 Kansas and nowhere else; during business
/// hours, to the VASH housing first when a veteran, then the H.O.T. Team,
/// then the Center of Hope.
pub proof fn lemma_youth_intake_is_for_youth(family: Seq<char>, when_present: Seq<char>)
    ensures
        forall|i: int|
            0 <= i < intake_plan(family, when_present).len() && (#[trigger] intake_plan(
                family,
                when_present,
            )[i]).0 == "CrossRoads Youth Intake"@ ==> family == "youth"@,
        family == "youth"@ ==> intake_plan(family, when_present) == seq![
            ("CrossRoads Youth Intake"@, "24/7 walk-in · hold capacity for DCF youth"@),
            ("211 Kansas"@, "24/7 phone · live transfer · overloaded today"@),
        ],
        family != "youth"@ && when_present == "after"@ ==> intake_plan(family, when_present) == (
        if family == "veteran"@ {
            seq![("VASH Housing — Wichita VA"@, "veterans only · HUD-VASH + VA case mgmt"@)]
        } else {
            Seq::<(Seq<char>, Seq<char>)>::empty()
        }) + seq![("211 Kansas"@, "24/7 phone · live transfer · overloaded today"@)],
        family != "youth"@ && when_present != "after"@ ==> intake_plan(family, when_present) == (
        if family == "veteran"@ {
            seq![("VASH Housing — Wichita VA"@, "veterans only · HUD-VASH + VA case mgmt"@)]
        } else {
            Seq::<(Seq<char>, Seq<char>)>::empty()
        }) + seq![
            ("H.O.T. Team"@, "M–F 7:00–15:30 · live transfer"@),
            ("Center of Hope"@, "reduced hours · Open Door overflow"@),
        ],
{
    reveal_strlit("CrossRoads Youth Intake");
    reveal_strlit("VASH Housing — Wichita VA");
    reveal_strlit("211 Kansas");
    reveal_strlit("H.O.T. Team");
    reveal_strlit("Center of Hope");
    reveal_strlit("youth");
    reveal_strlit("veteran");
    let plan = intake_plan(family, when_present);
    if family == "youth"@ {
        assert("youth"@.len() != "veteran"@.len());
        assert(plan =~= seq![
            ("CrossRoads Youth Intake"@, "24/7 walk-in · hold capacity for DCF youth"@),
            ("211 Kansas"@, "24/7 phone · live transfer · overloaded today"@),
        ]);
    }
    assert forall|i: int|
        0 <= i < plan.len() && (#[trigger] plan[i]).0 == "CrossRoads Youth Intake"@ implies family
        == "youth"@ by {
        if family != "youth"@ {
            assert(plan[i].0.len() != 23);
        }
    }
}

} // verus!
