use vstd::prelude::*;

use crate::providers::ProviderData;
use crate::time::Timestamp;

verus! {

/// What became of asking one provider: its data, or the message of the error that
/// stopped it.
#[derive(Clone, Debug, PartialEq)]
pub enum ProviderStatus {
    Fetched(ProviderData),
    Failed(String),
}

/// The outcome of one provider, under the name it is configured with.
#[derive(Clone, Debug, PartialEq)]
pub struct ProviderReport {
    pub name: String,
    pub status: ProviderStatus,
}

/// `a` comes before `b` in the order of strings: character by character, a proper
/// prefix first (the order of their UTF-8 bytes).
pub open spec fn name_less(a: Seq<char>, b: Seq<char>) -> bool
    decreases a.len(),
{
    if b.len() == 0 {
        false
    } else if a.len() == 0 {
        true
    } else if a[0] != b[0] {
        (a[0] as int) < (b[0] as int)
    } else {
        name_less(a.drop_first(), b.drop_first())
    }
}

/// No name comes before itself.
proof fn lemma_name_irreflexive(a: Seq<char>)
    ensures
        !name_less(a, a),
    decreases a.len(),
{
    if a.len() > 0 {
        lemma_name_irreflexive(a.drop_first());
    }
}

/// Of two different names, exactly one comes first.
proof fn lemma_name_total(a: Seq<char>, b: Seq<char>)
    ensures
        a == b || name_less(a, b) || name_less(b, a),
        !(name_less(a, b) && name_less(b, a)),
    decreases a.len(),
{
    if a.len() > 0 && b.len() > 0 {
        lemma_name_total(a.drop_first(), b.drop_first());
        if a[0] == b[0] && a.drop_first() == b.drop_first() {
            assert(a =~= seq![a[0]] + a.drop_first());
            assert(b =~= seq![b[0]] + b.drop_first());
        }
        if a[0] != b[0] {
            assert((a[0] as int) != (b[0] as int));
        }
    } else if a.len() == 0 && b.len() == 0 {
        assert(a =~= b);
    }
}

/// The order of names is transitive.
proof fn lemma_name_transitive(a: Seq<char>, b: Seq<char>, c: Seq<char>)
    requires
        name_less(a, b),
        name_less(b, c),
    ensures
        name_less(a, c),
    decreases a.len(),
{
    if a.len() > 0 && b.len() > 0 && c.len() > 0 && a[0] == b[0] && b[0] == c[0] {
        lemma_name_transitive(a.drop_first(), b.drop_first(), c.drop_first());
    }
}

/// The order of names is a strict total order.
pub proof fn lemma_name_order(a: Seq<char>, b: Seq<char>, c: Seq<char>)
    ensures
        !name_less(a, a),
        name_less(a, b) ==> !name_less(b, a),
        a == b || name_less(a, b) || name_less(b, a),
        name_less(a, b) && name_less(b, c) ==> name_less(a, c),
{
    lemma_name_irreflexive(a);
    lemma_name_total(a, b);
    if name_less(a, b) && name_less(b, c) {
        lemma_name_transitive(a, b, c);
    }
}

/// The order of names is ascending: where two names first differ, the one with the
/// smaller character comes first, and a proper prefix comes before the names it begins.
pub proof fn law_names_ascend(a: Seq<char>, b: Seq<char>, i: int)
    requires
        0 <= i <= a.len(),
        i <= b.len(),
        a.take(i) == b.take(i),
    ensures
        i < a.len() && i < b.len() && (a[i] as int) < (b[i] as int) ==> name_less(a, b),
        i == a.len() && a.len() < b.len() ==> name_less(a, b),
    decreases i,
{
    if i > 0 {
        assert(a[0] == a.take(i)[0] && b[0] == b.take(i)[0]);
        assert(a.drop_first().take(i - 1) =~= a.take(i).drop_first());
        assert(b.drop_first().take(i - 1) =~= b.take(i).drop_first());
        law_names_ascend(a.drop_first(), b.drop_first(), i - 1);
    }
}

/// Whether `a` comes before `b` in the order of names.
pub fn is_name_less(a: &str, b: &str) -> (less: bool)
    ensures
        less == name_less(a@, b@),
{
    let la = a.unicode_len();
    let lb = b.unicode_len();
    let mut i: usize = 0;
    proof {
        assert(a@.skip(0) =~= a@);
        assert(b@.skip(0) =~= b@);
        assert(a@.subrange(0, 0) =~= b@.subrange(0, 0));
    }
    while i < la && i < lb
        invariant
            la == a@.len(),
            lb == b@.len(),
            0 <= i <= la,
            i <= lb,
            a@.subrange(0, i as int) == b@.subrange(0, i as int),
            name_less(a@, b@) == name_less(a@.skip(i as int), b@.skip(i as int)),
        decreases la - i,
    {
        let ca = a.get_char(i);
        let cb = b.get_char(i);
        proof {
            assert(a@.skip(i as int)[0] == ca);
            assert(b@.skip(i as int)[0] == cb);
            assert(a@.skip(i as int).drop_first() =~= a@.skip(i + 1));
            assert(b@.skip(i as int).drop_first() =~= b@.skip(i + 1));
        }
        if ca != cb {
            return (ca as u32) < (cb as u32);
        }
        proof {
            assert(a@.subrange(0, i + 1) =~= a@.subrange(0, i as int).push(ca));
            assert(b@.subrange(0, i + 1) =~= b@.subrange(0, i as int).push(cb));
        }
        i = i + 1;
    }
    i < lb
}

/// Whether `a` and `b` are the same name.
fn same_name(a: &str, b: &str) -> (same: bool)
    ensures
        same == (a@ == b@),
{
    if is_name_less(a, b) || is_name_less(b, a) {
        proof {
            lemma_name_order(a@, b@, a@);
        }
        false
    } else {
        proof {
            lemma_name_order(a@, b@, a@);
        }
        true
    }
}

/// The names of the reports, in order.
pub open spec fn report_names(reports: Seq<ProviderReport>) -> Seq<Seq<char>> {
    reports.map_values(|r: ProviderReport| r.name@)
}

/// The reports are sorted strictly by name, so each name occurs once.
pub open spec fn sorted_by_name(reports: Seq<ProviderReport>) -> bool {
    forall|i: int, j: int|
        0 <= i < j < reports.len() ==> name_less(#[trigger] reports[i].name@, #[trigger] reports[j].name@)
}

/// The reports with `r` added in its place by name: after the reports whose names come
/// before its own, replacing a report under the same name.
pub open spec fn insert_sorted(s: Seq<ProviderReport>, r: ProviderReport) -> Seq<ProviderReport>
    decreases s.len(),
{
    if s.len() == 0 {
        seq![r]
    } else if name_less(s[0].name@, r.name@) {
        seq![s[0]] + insert_sorted(s.drop_first(), r)
    } else if s[0].name@ == r.name@ {
        seq![r] + s.drop_first()
    } else {
        seq![r] + s
    }
}

/// Where the reports before `i` come before `r` by name and the report at `i` does not,
/// adding `r` replaces the report at `i` if it has the same name, and goes in at `i`
/// otherwise.
proof fn lemma_insert_sorted_at(s: Seq<ProviderReport>, r: ProviderReport, i: int)
    requires
        0 <= i <= s.len(),
        forall|j: int| 0 <= j < i ==> name_less(#[trigger] s[j].name@, r.name@),
        i < s.len() ==> !name_less(s[i].name@, r.name@),
    ensures
        insert_sorted(s, r) == (if i < s.len() && s[i].name@ == r.name@ {
            s.update(i, r)
        } else {
            s.insert(i, r)
        }),
    decreases i,
{
    if i > 0 {
        let t = s.drop_first();
        assert forall|j: int| 0 <= j < i - 1 implies name_less(#[trigger] t[j].name@, r.name@) by {
            assert(t[j] == s[j + 1]);
        }
        lemma_insert_sorted_at(t, r, i - 1);
        assert(name_less(s[0].name@, r.name@));
        if i < s.len() && s[i].name@ == r.name@ {
            assert(insert_sorted(s, r) =~= s.update(i, r));
        } else {
            assert(insert_sorted(s, r) =~= s.insert(i, r));
        }
    } else {
        if s.len() > 0 && s[0].name@ == r.name@ {
            assert(insert_sorted(s, r) =~= s.update(0, r));
        } else if s.len() > 0 {
            assert(insert_sorted(s, r) =~= s.insert(0, r));
        } else {
            assert(insert_sorted(s, r) =~= s.insert(0, r));
        }
    }
}

/// Adds the outcome of a provider to reports sorted by name, in its place by name; an
/// outcome under a name already present replaces the earlier one.
pub fn insert_report(reports: &mut Vec<ProviderReport>, report: ProviderReport)
    requires
        sorted_by_name(old(reports)@),
    ensures
        sorted_by_name(final(reports)@),
        final(reports)@ == insert_sorted(old(reports)@, report),
{
    let mut i: usize = 0;
    while i < reports.len()
        invariant
            0 <= i <= reports@.len(),
            reports@ == old(reports)@,
            sorted_by_name(reports@),
            forall|j: int| 0 <= j < i ==> name_less(#[trigger] reports@[j].name@, report.name@),
        ensures
            0 <= i <= reports@.len(),
            reports@ == old(reports)@,
            forall|j: int| 0 <= j < i ==> name_less(#[trigger] reports@[j].name@, report.name@),
            i < reports@.len() ==> !name_less(reports@[i as int].name@, report.name@),
        decreases reports@.len() - i,
    {
        if !is_name_less(reports[i].name.as_str(), report.name.as_str()) {
            break;
        }
        i = i + 1;
    }
    let ghost before = reports@;
    proof {
        lemma_insert_sorted_at(before, report, i as int);
    }
    if i < reports.len() && same_name(reports[i].name.as_str(), report.name.as_str()) {
        reports.set(i, report);
        proof {
            assert forall|a: int, b: int| 0 <= a < b < reports@.len() implies name_less(
                #[trigger] reports@[a].name@,
                #[trigger] reports@[b].name@,
            ) by {
                assert(before[a].name@ == reports@[a].name@ || a == i);
                assert(before[b].name@ == reports@[b].name@ || b == i);
            }
        }
    } else {
        proof {
            if i < before.len() {
                lemma_name_order(before[i as int].name@, report.name@, report.name@);
                assert forall|j: int| i <= j < before.len() implies name_less(
                    report.name@,
                    #[trigger] before[j].name@,
                ) by {
                    if j > i {
                        lemma_name_order(report.name@, before[i as int].name@, before[j].name@);
                    }
                }
            }
        }
        reports.insert(i, report);
        proof {
            assert forall|a: int, b: int| 0 <= a < b < reports@.len() implies name_less(
                #[trigger] reports@[a].name@,
                #[trigger] reports@[b].name@,
            ) by {
                if a < i && b < i {
                    assert(reports@[a] == before[a] && reports@[b] == before[b]);
                } else if a < i && b == i {
                } else if a < i {
                    assert(reports@[a] == before[a] && reports@[b] == before[b - 1]);
                    lemma_name_order(before[a].name@, report.name@, before[b - 1].name@);
                } else if a == i {
                    assert(reports@[b] == before[b - 1]);
                } else {
                    assert(reports@[a] == before[a - 1] && reports@[b] == before[b - 1]);
                }
            }
        }
    }
}

/// The review count of the reports that came back with data, added up in order; reports
/// with an error count for nothing.
pub open spec fn total_of(reports: Seq<ProviderReport>) -> int
    decreases reports.len(),
{
    if reports.len() == 0 {
        0
    } else {
        total_of(reports.drop_last()) + match reports.last().status {
            ProviderStatus::Fetched(d) => d.review_count as int,
            ProviderStatus::Failed(_) => 0,
        }
    }
}

/// Adding a report to the list adds its review count to the total when the provider
/// answered, and nothing when it failed; an empty list totals zero.
pub proof fn law_total_adds(reports: Seq<ProviderReport>, report: ProviderReport)
    ensures
        total_of(Seq::<ProviderReport>::empty()) == 0,
        report.status matches ProviderStatus::Fetched(d) ==> total_of(reports.push(report))
            == total_of(reports) + d.review_count,
        report.status is Failed ==> total_of(reports.push(report)) == total_of(reports),
{
    assert(reports.push(report).drop_last() =~= reports);
}

/// Every running total of the reports fits in `i32`.
pub open spec fn totals_fit(reports: Seq<ProviderReport>) -> bool {
    forall|k: int| 0 <= k <= reports.len() ==> i32::MIN <= #[trigger] total_of(reports.take(k)) <= i32::MAX
}

/// The total number of reviews of the providers that answered.
pub fn total_review_count(reports: &Vec<ProviderReport>) -> (total: i32)
    requires
        totals_fit(reports@),
    ensures
        total == total_of(reports@),
{
    let mut total: i32 = 0;
    let mut i: usize = 0;
    proof {
        assert(reports@.take(0) =~= Seq::<ProviderReport>::empty());
    }
    while i < reports.len()
        invariant
            0 <= i <= reports@.len(),
            totals_fit(reports@),
            total == total_of(reports@.take(i as int)),
        decreases reports@.len() - i,
    {
        proof {
            assert(reports@.take(i + 1).drop_last() =~= reports@.take(i as int));
            assert(i32::MIN <= total_of(reports@.take(i + 1)) <= i32::MAX);
        }
        match &reports[i].status {
            ProviderStatus::Fetched(d) => {
                total = total + d.review_count;
            },
            ProviderStatus::Failed(_) => {},
        }
        i = i + 1;
    }
    proof {
        assert(reports@.take(reports@.len() as int) =~= reports@);
    }
    total
}

/// The total number of reviews of the providers that answered, or `None` when a running
/// total leaves `i32`.
pub fn checked_total_review_count(reports: &Vec<ProviderReport>) -> (total: Option<i32>)
    ensures
        totals_fit(reports@) ==> total == Some(total_of(reports@) as i32),
        !totals_fit(reports@) ==> total is None,
{
    let mut total: i32 = 0;
    let mut i: usize = 0;
    proof {
        assert(reports@.take(0) =~= Seq::<ProviderReport>::empty());
    }
    while i < reports.len()
        invariant
            0 <= i <= reports@.len(),
            total == total_of(reports@.take(i as int)),
            forall|k: int| 0 <= k <= i ==> i32::MIN <= #[trigger] total_of(reports@.take(k)) <= i32::MAX,
        decreases reports@.len() - i,
    {
        proof {
            assert(reports@.take(i + 1).drop_last() =~= reports@.take(i as int));
        }
        match &reports[i].status {
            ProviderStatus::Fetched(d) => {
                match total.checked_add(d.review_count) {
                    Some(t) => {
                        total = t;
                    },
                    None => {
                        proof {
                            assert(!(i32::MIN <= total_of(reports@.take(i + 1)) <= i32::MAX));
                        }
                        return None;
                    },
                }
            },
            ProviderStatus::Failed(_) => {},
        }
        i = i + 1;
    }
    proof {
        assert(reports@.take(reports@.len() as int) =~= reports@);
    }
    Some(total)
}

/// How a review count is highlighted.
#[derive(Clone, Copy, Debug, PartialEq, Eq, Structural)]
pub enum ReviewColor {
    Green,
    Yellow,
    Red,
}

/// No reviews are green, fewer than the threshold yellow, and the rest red.
pub open spec fn color_of(count: int, threshold: int) -> ReviewColor {
    if count == 0 {
        ReviewColor::Green
    } else if count < threshold {
        ReviewColor::Yellow
    } else {
        ReviewColor::Red
    }
}

/// How a review count is highlighted, given the threshold of a high count.
pub fn review_color(count: i32, threshold: i32) -> (color: ReviewColor)
    ensures
        color == color_of(count as int, threshold as int),
        count == 0 ==> color == ReviewColor::Green,
        count != 0 && count < threshold ==> color == ReviewColor::Yellow,
        count != 0 && count >= threshold ==> color == ReviewColor::Red,
{
    if count == 0 {
        ReviewColor::Green
    } else if count < threshold {
        ReviewColor::Yellow
    } else {
        ReviewColor::Red
    }
}

/// The rank of a highlight, from green up to red.
pub open spec fn color_rank(color: ReviewColor) -> int {
    match color {
        ReviewColor::Green => 0,
        ReviewColor::Yellow => 1,
        ReviewColor::Red => 2,
    }
}

/// More reviews are never highlighted as less urgent.
pub proof fn law_color_monotone(a: int, b: int, threshold: int)
    requires
        0 <= a <= b,
    ensures
        color_rank(color_of(a, threshold)) <= color_rank(color_of(b, threshold)),
{
}

/// The highlight depends on the configured threshold alone: no reviews are green, any
/// other count below the threshold is yellow, and a count at or above it is red, for
/// every threshold and count.
pub proof fn law_color_by_threshold(count: int, threshold: int, color: ReviewColor)
    requires
        color == color_of(count, threshold),
    ensures
        (color == ReviewColor::Green) == (count == 0),
        (color == ReviewColor::Yellow) == (count != 0 && count < threshold),
        (color == ReviewColor::Red) == (count != 0 && count >= threshold),
{
}

/// What the "Next Review" cell of a row shows.
#[derive(Clone, Copy, Debug, PartialEq, Eq, Structural)]
pub enum NextReviewCell {
    /// The time of the next review
    At(Timestamp),
    /// Reviews are waiting now
    Now,
    /// Nothing is known of the next review
    NotAvailable,
}

/// With reviews waiting, the next review is now; otherwise it is the known next review,
/// if any.
pub open spec fn next_review_cell_of(count: int, next: Option<Timestamp>) -> NextReviewCell {
    if count != 0 {
        NextReviewCell::Now
    } else {
        match next {
            Some(t) => NextReviewCell::At(t),
            None => NextReviewCell::NotAvailable,
        }
    }
}

/// The "Next Review" cell for a review count and a next review.
pub fn next_review_cell(count: i32, next: Option<Timestamp>) -> (cell: NextReviewCell)
    ensures
        cell == next_review_cell_of(count as int, next),
        count != 0 ==> cell == NextReviewCell::Now,
        count == 0 ==> (next matches Some(t) ==> cell == NextReviewCell::At(t)),
        count == 0 ==> (next is None ==> cell == NextReviewCell::NotAvailable),
{
    if count != 0 {
        NextReviewCell::Now
    } else {
        match next {
            Some(t) => NextReviewCell::At(t),
            None => NextReviewCell::NotAvailable,
        }
    }
}

/// The "Next Review" cell shows "Now" exactly when reviews are waiting, whatever the next
/// review is; with none waiting it shows the next review, or that none is known.
pub proof fn law_next_review_cell(count: int, next: Option<Timestamp>, cell: NextReviewCell)
    requires
        cell == next_review_cell_of(count, next),
    ensures
        (cell == NextReviewCell::Now) == (count != 0),
        count == 0 ==> (next matches Some(t) ==> cell == NextReviewCell::At(t)),
        count == 0 ==> (next is None ==> cell == NextReviewCell::NotAvailable),
{
}

/// The next review that a report knows: that of a provider that answered with one.
pub open spec fn known_next(report: ProviderReport) -> Option<Timestamp> {
    match report.status {
        ProviderStatus::Fetched(d) => d.next_review,
        ProviderStatus::Failed(_) => None,
    }
}

/// `t` is the earliest of the next reviews that the reports know.
pub open spec fn is_earliest(reports: Seq<ProviderReport>, t: Timestamp) -> bool {
    &&& exists|i: int| 0 <= i < reports.len() && #[trigger] known_next(reports[i]) == Some(t)
    &&& forall|i: int|
        0 <= i < reports.len() ==> (#[trigger] known_next(reports[i]) matches Some(u) ==> !u.precedes(t))
}

/// No report knows a next review.
pub open spec fn no_next_review(reports: Seq<ProviderReport>) -> bool {
    forall|i: int| 0 <= i < reports.len() ==> #[trigger] known_next(reports[i]) is None
}

/// The earliest next review among the providers that answered, if any knows one.
pub fn earliest_next_review(reports: &Vec<ProviderReport>) -> (earliest: Option<Timestamp>)
    ensures
        earliest matches Some(t) ==> is_earliest(reports@, t),
        earliest is None ==> no_next_review(reports@),
{
    let mut best: Option<Timestamp> = None;
    let mut i: usize = 0;
    while i < reports.len()
        invariant
            0 <= i <= reports@.len(),
            best matches Some(t) ==> is_earliest(reports@.take(i as int), t),
            best is None ==> no_next_review(reports@.take(i as int)),
        decreases reports@.len() - i,
    {
        let ghost prefix = reports@.take(i as int);
        let ghost next_prefix = reports@.take(i + 1);
        let ghost old_best = best;
        let candidate = match &reports[i].status {
            ProviderStatus::Fetched(d) => d.next_review,
            ProviderStatus::Failed(_) => None,
        };
        match candidate {
            Some(t) => {
                let replace = match best {
                    Some(b) => t.is_before(&b),
                    None => true,
                };
                if replace {
                    best = Some(t);
                }
            },
            None => {},
        }
        proof {
            assert forall|j: int| 0 <= j < i implies #[trigger] next_prefix[j] == prefix[j] by {}
            assert(next_prefix[i as int] == reports@[i as int]);
            assert(known_next(next_prefix[i as int]) == candidate);
            if best is Some {
                let b = best->0;
                if best != old_best || candidate == Some(b) {
                    assert(known_next(next_prefix[i as int]) == Some(b));
                } else {
                    let w = choose|w: int| 0 <= w < prefix.len() && #[trigger] known_next(prefix[w]) == Some(b);
                    assert(known_next(next_prefix[w]) == Some(b));
                }
                assert forall|j: int| 0 <= j < next_prefix.len() implies (#[trigger] known_next(
                    next_prefix[j],
                ) matches Some(u) ==> !u.precedes(b)) by {
                    if j < i {
                        assert(known_next(next_prefix[j]) == known_next(prefix[j]));
                    }
                }
            } else {
                assert forall|j: int| 0 <= j < next_prefix.len() implies #[trigger] known_next(
                    next_prefix[j],
                ) is None by {
                    if j < i {
                        assert(known_next(next_prefix[j]) == known_next(prefix[j]));
                    }
                }
            }
        }
        i = i + 1;
    }
    proof {
        assert(reports@.take(reports@.len() as int) =~= reports@);
    }
    best
}

/// The reports of a list of outcomes: each added in turn, in its place by name.
pub open spec fn reports_of(outcomes: Seq<ProviderReport>) -> Seq<ProviderReport>
    decreases outcomes.len(),
{
    if outcomes.len() == 0 {
        Seq::empty()
    } else {
        insert_sorted(reports_of(outcomes.drop_last()), outcomes.last())
    }
}

/// The reports of all providers, sorted by name; of two outcomes under one name the
/// later one stands.
pub fn sorted_reports(outcomes: Vec<ProviderReport>) -> (reports: Vec<ProviderReport>)
    ensures
        reports@ == reports_of(outcomes@),
        sorted_by_name(reports@),
{
    let ghost input = outcomes@;
    let mut reports: Vec<ProviderReport> = Vec::new();
    let mut rest = outcomes;
    let ghost n = input.len();
    let mut done: usize = 0;
    let total_len = rest.len();
    proof {
        assert(total_len == n);
        assert(rest@ =~= input.subrange(0, n as int));
        assert(input.take(0) =~= Seq::<ProviderReport>::empty());
    }
    while rest.len() > 0
        invariant
            n == input.len(),
            n <= usize::MAX,
            done + rest@.len() == n,
            rest@ == input.subrange(done as int, n as int),
            sorted_by_name(reports@),
            reports@ == reports_of(input.take(done as int)),
        decreases rest@.len(),
    {
        let report = rest.remove(0);
        proof {
            assert(report == input[done as int]);
            assert(input.take(done + 1).drop_last() =~= input.take(done as int));
            assert(input.take(done + 1).last() == report);
        }
        insert_report(&mut reports, report);
        done = done + 1;
        proof {
            assert(rest@ =~= input.subrange(done as int, n as int));
        }
    }
    proof {
        assert(input.take(n as int) =~= input);
    }
    reports
}

/// A report of `insert_sorted(s, r)` is `r` or a report of `s`; `r` is among them, and
/// every name of `s` is still present.
proof fn lemma_insert_sorted_members(s: Seq<ProviderReport>, r: ProviderReport)
    ensures
        forall|j: int|
            0 <= j < insert_sorted(s, r).len() ==> #[trigger] insert_sorted(s, r)[j] == r
                || s.contains(insert_sorted(s, r)[j]),
        insert_sorted(s, r).contains(r),
        forall|k: int|
            0 <= k < s.len() ==> exists|j: int|
                0 <= j < insert_sorted(s, r).len() && #[trigger] insert_sorted(s, r)[j].name@
                    == #[trigger] s[k].name@,
    decreases s.len(),
{
    let out = insert_sorted(s, r);
    if s.len() == 0 {
        assert(out[0] == r);
    } else if name_less(s[0].name@, r.name@) {
        let t = s.drop_first();
        lemma_insert_sorted_members(t, r);
        let rest = insert_sorted(t, r);
        assert(out == seq![s[0]] + rest);
        assert forall|j: int| 0 <= j < out.len() implies #[trigger] out[j] == r || s.contains(out[j]) by {
            if j == 0 {
                assert(s[0] == out[0]);
            } else {
                assert(out[j] == rest[j - 1]);
                if rest[j - 1] != r {
                    let m = choose|m: int| 0 <= m < t.len() && t[m] == rest[j - 1];
                    assert(s[m + 1] == t[m]);
                }
            }
        }
        let w = choose|w: int| 0 <= w < rest.len() && rest[w] == r;
        assert(out[w + 1] == r);
        assert forall|k: int| 0 <= k < s.len() implies exists|j: int|
            0 <= j < out.len() && #[trigger] out[j].name@ == #[trigger] s[k].name@ by {
            if k == 0 {
                assert(out[0].name@ == s[0].name@);
            } else {
                assert(t[k - 1] == s[k]);
                let j = choose|j: int| 0 <= j < rest.len() && #[trigger] rest[j].name@ == #[trigger] t[k - 1].name@;
                assert(out[j + 1] == rest[j]);
            }
        }
    } else if s[0].name@ == r.name@ {
        assert(out == seq![r] + s.drop_first());
        assert forall|j: int| 0 <= j < out.len() implies #[trigger] out[j] == r || s.contains(out[j]) by {
            if j > 0 {
                assert(out[j] == s[j]);
            }
        }
        assert(out[0] == r);
        assert forall|k: int| 0 <= k < s.len() implies exists|j: int|
            0 <= j < out.len() && #[trigger] out[j].name@ == #[trigger] s[k].name@ by {
            if k == 0 {
                assert(out[0].name@ == s[0].name@);
            } else {
                assert(out[k] == s[k]);
            }
        }
    } else {
        assert(out == seq![r] + s);
        assert forall|j: int| 0 <= j < out.len() implies #[trigger] out[j] == r || s.contains(out[j]) by {
            if j > 0 {
                assert(out[j] == s[j - 1]);
            }
        }
        assert(out[0] == r);
        assert forall|k: int| 0 <= k < s.len() implies exists|j: int|
            0 <= j < out.len() && #[trigger] out[j].name@ == #[trigger] s[k].name@ by {
            assert(out[k + 1] == s[k]);
        }
    }
}

/// Adding a report to reports sorted by name keeps them sorted.
proof fn lemma_insert_sorted_sorted(s: Seq<ProviderReport>, r: ProviderReport)
    requires
        sorted_by_name(s),
    ensures
        sorted_by_name(insert_sorted(s, r)),
    decreases s.len(),
{
    let out = insert_sorted(s, r);
    if s.len() == 0 {
        assert(out =~= seq![r]);
    } else if name_less(s[0].name@, r.name@) {
        let t = s.drop_first();
        assert(sorted_by_name(t)) by {
            assert forall|i: int, j: int| 0 <= i < j < t.len() implies name_less(
                #[trigger] t[i].name@,
                #[trigger] t[j].name@,
            ) by {
                assert(t[i] == s[i + 1] && t[j] == s[j + 1]);
            }
        }
        lemma_insert_sorted_sorted(t, r);
        lemma_insert_sorted_members(t, r);
        let rest = insert_sorted(t, r);
        assert forall|i: int, j: int| 0 <= i < j < out.len() implies name_less(
            #[trigger] out[i].name@,
            #[trigger] out[j].name@,
        ) by {
            if i == 0 {
                assert(out[0] == s[0]);
                assert(out[j] == rest[j - 1]);
                if rest[j - 1] != r {
                    let m = choose|m: int| 0 <= m < t.len() && t[m] == rest[j - 1];
                    assert(t[m] == s[m + 1]);
                }
            } else {
                assert(out[i] == rest[i - 1] && out[j] == rest[j - 1]);
            }
        }
    } else if s[0].name@ == r.name@ {
        assert(out =~= seq![r] + s.drop_first());
        assert forall|i: int, j: int| 0 <= i < j < out.len() implies name_less(
            #[trigger] out[i].name@,
            #[trigger] out[j].name@,
        ) by {
            assert(out[j] == s[j]);
            if i > 0 {
                assert(out[i] == s[i]);
            } else {
                assert(name_less(s[0].name@, s[j].name@));
            }
        }
    } else {
        lemma_name_order(s[0].name@, r.name@, r.name@);
        assert(out =~= seq![r] + s);
        assert forall|i: int, j: int| 0 <= i < j < out.len() implies name_less(
            #[trigger] out[i].name@,
            #[trigger] out[j].name@,
        ) by {
            assert(out[j] == s[j - 1]);
            if i > 0 {
                assert(out[i] == s[i - 1]);
            } else if j > 1 {
                lemma_name_order(r.name@, s[0].name@, s[j - 1].name@);
            }
        }
    }
}

/// Whatever the outcomes, the reports come sorted strictly by name.
pub proof fn law_reports_sorted(outcomes: Seq<ProviderReport>)
    ensures
        sorted_by_name(reports_of(outcomes)),
    decreases outcomes.len(),
{
    if outcomes.len() > 0 {
        law_reports_sorted(outcomes.drop_last());
        lemma_insert_sorted_sorted(reports_of(outcomes.drop_last()), outcomes.last());
    }
}

/// The reports list each outcome's provider under its name, and hold nothing but the
/// outcomes: every provider asked shows up once, in name order, whatever became of it.
pub proof fn law_reports_complete(outcomes: Seq<ProviderReport>)
    ensures
        forall|j: int|
            0 <= j < reports_of(outcomes).len() ==> outcomes.contains(
                #[trigger] reports_of(outcomes)[j],
            ),
        forall|i: int|
            0 <= i < outcomes.len() ==> exists|j: int|
                0 <= j < reports_of(outcomes).len() && #[trigger] reports_of(outcomes)[j].name@
                    == #[trigger] outcomes[i].name@,
    decreases outcomes.len(),
{
    if outcomes.len() > 0 {
        let init = outcomes.drop_last();
        let last = outcomes.last();
        let before = reports_of(init);
        let out = reports_of(outcomes);
        law_reports_complete(init);
        lemma_insert_sorted_members(before, last);
        assert(out == insert_sorted(before, last));
        assert forall|j: int| 0 <= j < out.len() implies outcomes.contains(#[trigger] out[j]) by {
            if out[j] == last {
                assert(outcomes[outcomes.len() - 1] == last);
            } else {
                let m = choose|m: int| 0 <= m < before.len() && before[m] == out[j];
                let i = choose|i: int| 0 <= i < init.len() && init[i] == before[m];
                assert(outcomes[i] == init[i]);
            }
        }
        assert forall|i: int| 0 <= i < outcomes.len() implies exists|j: int|
            0 <= j < out.len() && #[trigger] out[j].name@ == #[trigger] outcomes[i].name@ by {
            if i == outcomes.len() - 1 {
                let w = choose|w: int| 0 <= w < out.len() && out[w] == last;
                assert(out[w].name@ == outcomes[i].name@);
            } else {
                assert(outcomes[i] == init[i]);
                let m = choose|m: int| 0 <= m < before.len() && #[trigger] before[m].name@ == #[trigger] init[i].name@;
                let j = choose|j: int| 0 <= j < out.len() && #[trigger] out[j].name@ == #[trigger] before[m].name@;
                assert(out[j].name@ == outcomes[i].name@);
            }
        }
    }
}

/// One row of the table: a provider that answered shows its review count with its
/// highlight, its next review and its URL (empty without one); a provider that failed
/// shows "Error" and no values.
#[derive(Clone, Debug, PartialEq)]
pub struct TableRow {
    pub name: String,
    pub fetched: bool,
    pub reviews: Option<(i32, ReviewColor)>,
    pub next_review: NextReviewCell,
    pub url: String,
}

/// The text of an optional URL: empty without one.
pub open spec fn url_text(url: Option<String>) -> Seq<char> {
    match url {
        Some(u) => u@,
        None => Seq::empty(),
    }
}

/// The table row of a report.
pub fn table_row(report: &ProviderReport, threshold: i32) -> (row: TableRow)
    ensures
        row.name@ == report.name@,
        match report.status {
            ProviderStatus::Fetched(d) => {
                &&& row.fetched
                &&& row.reviews == Some((d.review_count, color_of(d.review_count as int, threshold as int)))
                &&& row.next_review == next_review_cell_of(d.review_count as int, d.next_review)
                &&& row.url@ == url_text(d.action_url)
            },
            ProviderStatus::Failed(_) => {
                &&& !row.fetched
                &&& row.reviews is None
                &&& row.next_review == NextReviewCell::NotAvailable
                &&& row.url@ == Seq::<char>::empty()
            },
        },
{
    let name = report.name.clone();
    match &report.status {
        ProviderStatus::Fetched(d) => {
            let url = match &d.action_url {
                Some(u) => u.clone(),
                None => String::new(),
            };
            TableRow {
                name,
                fetched: true,
                reviews: Some((d.review_count, review_color(d.review_count, threshold))),
                next_review: next_review_cell(d.review_count, d.next_review),
                url,
            }
        },
        ProviderStatus::Failed(_) => TableRow {
            name,
            fetched: false,
            reviews: None,
            next_review: NextReviewCell::NotAvailable,
            url: String::new(),
        },
    }
}

/// The total row of the table: the total review count with its highlight, and the next
/// review of all: now while reviews wait, otherwise the earliest next review known.
#[derive(Clone, Debug, PartialEq)]
pub struct TotalRow {
    pub reviews: i32,
    pub color: ReviewColor,
    pub next_review: NextReviewCell,
}

/// The total row of the reports.
pub fn total_row(reports: &Vec<ProviderReport>, threshold: i32) -> (row: TotalRow)
    requires
        totals_fit(reports@),
    ensures
        row.reviews == total_of(reports@),
        row.color == color_of(total_of(reports@), threshold as int),
        row.reviews != 0 ==> row.next_review == NextReviewCell::Now,
        row.reviews == 0 ==> match row.next_review {
            NextReviewCell::At(t) => is_earliest(reports@, t),
            NextReviewCell::NotAvailable => no_next_review(reports@),
            NextReviewCell::Now => false,
        },
{
    let total = total_review_count(reports);
    let next = if total != 0 {
        NextReviewCell::Now
    } else {
        match earliest_next_review(reports) {
            Some(t) => NextReviewCell::At(t),
            None => NextReviewCell::NotAvailable,
        }
    };
    TotalRow { reviews: total, color: review_color(total, threshold), next_review: next }
}

/// A provider that failed counts for nothing in the total: the total is the same without
/// its report.
pub proof fn law_failures_not_counted(reports: Seq<ProviderReport>, k: int)
    requires
        0 <= k < reports.len(),
        reports[k].status is Failed,
    ensures
        total_of(reports) == total_of(reports.remove(k)),
    decreases reports.len(),
{
    if k < reports.len() - 1 {
        law_failures_not_counted(reports.drop_last(), k);
        assert(reports.remove(k).drop_last() =~= reports.drop_last().remove(k));
        assert(reports.remove(k).last() == reports.last());
    } else {
        assert(reports.remove(k) =~= reports.drop_last());
    }
}

/// The total row of the reports, or `None` when adding up their review counts leaves
/// `i32`.
pub fn try_total_row(reports: &Vec<ProviderReport>, threshold: i32) -> (row: Option<TotalRow>)
    ensures
        !totals_fit(reports@) ==> row is None,
        totals_fit(reports@) ==> (row matches Some(r) && r.reviews == total_of(reports@) && r.color
            == color_of(total_of(reports@), threshold as int) && (r.reviews != 0 ==> r.next_review
            == NextReviewCell::Now) && (r.reviews == 0 ==> match r.next_review {
            NextReviewCell::At(t) => is_earliest(reports@, t),
            NextReviewCell::NotAvailable => no_next_review(reports@),
            NextReviewCell::Now => false,
        })),
{
    match checked_total_review_count(reports) {
        Some(_) => Some(total_row(reports, threshold)),
        None => None,
    }
}

/// The part of a locale setting before its first dot, which names the encoding
/// (`de_DE.UTF-8` gives `de_DE`).
pub open spec fn locale_without_encoding(setting: Seq<char>) -> Seq<char> {
    if exists|i: int| 0 <= i < setting.len() && setting[i] == '.' {
        setting.take(choose|i: int| 0 <= i < setting.len() && setting[i] == '.' && forall|j: int| 0 <= j < i ==> setting[j] != '.')
    } else {
        setting
    }
}

/// A locale setting loses its encoding and nothing else: the name kept is the longest
/// start of the setting without a dot, so it ends right before the first dot, or is the
/// whole setting when there is none.
pub proof fn law_locale_name(setting: Seq<char>, name: Seq<char>)
    requires
        name == locale_without_encoding(setting),
    ensures
        name.len() <= setting.len(),
        name == setting.take(name.len() as int),
        forall|j: int| 0 <= j < name.len() ==> name[j] != '.',
        name.len() < setting.len() ==> setting[name.len() as int] == '.',
{
    if exists|i: int| 0 <= i < setting.len() && setting[i] == '.' {
        let k = choose|i: int| 0 <= i < setting.len() && setting[i] == '.' && forall|j: int| 0 <= j < i ==> setting[j] != '.';
        assert(exists|i: int| 0 <= i < setting.len() && setting[i] == '.' && forall|j: int| 0 <= j < i ==> setting[j] != '.') by {
            let first = first_dot(setting, 0);
        }
        assert(name =~= setting.take(k));
    } else {
        assert(name =~= setting.take(setting.len() as int));
    }
}

/// The first dot at or after `from`, where the setting has one there.
proof fn first_dot(setting: Seq<char>, from: int) -> (i: int)
    requires
        0 <= from <= setting.len(),
        exists|i: int| from <= i < setting.len() && setting[i] == '.',
    ensures
        from <= i < setting.len(),
        setting[i] == '.',
        forall|j: int| from <= j < i ==> setting[j] != '.',
    decreases setting.len() - from,
{
    if setting[from] == '.' {
        from
    } else {
        first_dot(setting, from + 1)
    }
}

/// The locale to format dates in: that of `LC_TIME` without its encoding where the
/// variable is set, else the system's locale, if known.
pub fn time_locale_name(lc_time: Option<String>, system: Option<String>) -> (name: Option<String>)
    ensures
        lc_time matches Some(v) ==> (name matches Some(n) && n@ == locale_without_encoding(v@)),
        lc_time is None ==> name == system,
{
    match lc_time {
        Some(v) => {
            let len = v.as_str().unicode_len();
            let mut i: usize = 0;
            while i < len
                invariant
                    len == v@.len(),
                    0 <= i <= len,
                    forall|j: int| 0 <= j < i ==> v@[j] != '.',
                ensures
                    0 <= i <= len,
                    forall|j: int| 0 <= j < i ==> v@[j] != '.',
                    i < len ==> v@[i as int] == '.',
                decreases len - i,
            {
                if v.as_str().get_char(i) == '.' {
                    break;
                }
                i = i + 1;
            }
            proof {
                if i < len {
                    assert(v@[i as int] == '.');
                    let k = choose|k: int| 0 <= k < v@.len() && v@[k] == '.' && forall|j: int| 0 <= j < k ==> v@[j] != '.';
                    if k < i {
                        assert(v@[k] != '.');
                    }
                    if k > i {
                        assert(v@[i as int] != '.');
                    }
                    assert(k == i);
                } else {
                    assert(v@.take(len as int) =~= v@);
                }
            }
            let prefix = v.as_str().substring_char(0, i);
            Some(prefix.to_owned())
        },
        None => system,
    }
}

} // verus!
