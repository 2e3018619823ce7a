//! The engine's general laws, stated once for all inputs and proved.
//!
//! Each law here is a fact the rest of the crate's contracts promise
//! together; stating them as proof functions keeps them checked rather than
//! implied.

use vstd::prelude::*;

use crate::dates::CalendarDate;
use crate::dates::TimeOfDay;
use crate::dates::lemma_before_irreflexive;
use crate::items::DateTimeInfo;
use crate::items::Item;
use crate::items::spec_classify;
use crate::items::spec_date_component;
use crate::items::spec_has_no_date;
use crate::items::spec_has_time;
use crate::items::spec_insert_ord;
use crate::items::spec_is_overdue;
use crate::items::spec_is_today;
use crate::items::spec_priority_value;
use crate::items::spec_score;
use crate::items::spec_datetime_key;
use crate::items::spec_datetime_order;
use crate::items::spec_key_lt;
use crate::items::spec_sort_by_datetime;
use crate::items::spec_sort_by_value;
use crate::items::spec_sort_ord;
use crate::items::spec_today;
use crate::items::spec_value_order;
use crate::items::spec_within_window;

verus! {

/// A task without due info satisfies no temporal predicate and its date
/// component is the fixed 80.
pub proof fn law_no_due_info(item: Item, tz: Option<String>, now: int)
    requires
        item.due is None,
    ensures
        spec_has_no_date(item),
        !spec_is_today(item, tz, now),
        !spec_is_overdue(item, tz, now),
        !spec_has_time(item, tz),
        spec_date_component(item, tz, now) == 80,
{
}

/// A calendar-date task whose day equals today is due today, not overdue,
/// and its date component carries the +100 contribution — plus the +50 when
/// it does not recur.
pub proof fn law_date_today(item: Item, tz: Option<String>, now: int, rec: bool)
    requires
        spec_classify(item, tz) == Ok::<DateTimeInfo, crate::items::ParseError>(
            DateTimeInfo::Date { date: spec_today(item, tz, now), is_recurring: rec },
        ),
    ensures
        spec_is_today(item, tz, now),
        !spec_is_overdue(item, tz, now),
        spec_date_component(item, tz, now) == 100 + if rec {
            0int
        } else {
            50int
        },
{
    lemma_before_irreflexive(spec_today(item, tz, now), spec_today(item, tz, now));
}

/// A calendar-date task whose day lies strictly before today is overdue, not
/// due today, and its date component carries the +150 contribution.
pub proof fn law_date_overdue(
    item: Item,
    tz: Option<String>,
    now: int,
    date: CalendarDate,
    rec: bool,
)
    requires
        spec_classify(item, tz) == Ok::<DateTimeInfo, crate::items::ParseError>(
            DateTimeInfo::Date { date, is_recurring: rec },
        ),
        date.before(spec_today(item, tz, now)),
    ensures
        spec_is_overdue(item, tz, now),
        !spec_is_today(item, tz, now),
        spec_date_component(item, tz, now) == 150 + if rec {
            0int
        } else {
            50int
        },
{
    lemma_before_irreflexive(date, spec_today(item, tz, now));
}

/// A date-time task contributes the +200 exactly when its instant lies
/// within fifteen whole minutes of `now` — one second past either edge of
/// the window and the contribution is gone.
pub proof fn law_datetime_window(
    item: Item,
    tz: Option<String>,
    now: int,
    date: CalendarDate,
    time: TimeOfDay,
    instant: i64,
    rec: bool,
)
    requires
        spec_classify(item, tz) == Ok::<DateTimeInfo, crate::items::ParseError>(
            DateTimeInfo::DateTime { date, time, instant, is_recurring: rec },
        ),
    ensures
        spec_within_window(instant as int, now) ==> spec_date_component(item, tz, now) == 200
            + if rec {
            0int
        } else {
            50int
        },
        !spec_within_window(instant as int, now) ==> spec_date_component(item, tz, now) == if rec {
            0int
        } else {
            50int
        },
{
}

/// The priority remap is total and exhaustive: stored levels 2, 3 and 4
/// contribute 1, 3 and 4; every other stored value contributes 2.
pub proof fn law_priority_remap(p: u8)
    ensures
        p == 2 ==> spec_priority_value(p) == 1,
        p == 3 ==> spec_priority_value(p) == 3,
        p == 4 ==> spec_priority_value(p) == 4,
        p != 2 && p != 3 && p != 4 ==> spec_priority_value(p) == 2,
{
}

/// Scores run downward along the sorted output.
pub open spec fn spec_sorted_by_score(s: Seq<Item>, tz: Option<String>, now: int) -> bool {
    forall|i: int, j: int|
        0 <= i < j < s.len() ==> spec_score(s[i], tz, now) >= spec_score(s[j], tz, now)
}

/// Tasks of score `v`, as a test on one task.
pub open spec fn spec_score_class(tz: Option<String>, now: int, v: int) -> spec_fn(Item) -> bool {
    |it: Item| spec_score(it, tz, now) == v
}

/// Where the stable insertion puts the new element: in front of the first
/// element it must precede.
spec fn spec_insert_pos(s: Seq<Item>, x: Item, prec: spec_fn(Item, Item) -> bool) -> int
    decreases s.len(),
{
    if s.len() == 0 {
        0
    } else if prec(x, s[0]) {
        0
    } else {
        1 + spec_insert_pos(s.drop_first(), x, prec)
    }
}

/// The insertion position is in range, everything in front of it ties with
/// or precedes the new element, the element behind it is preceded by the new
/// one, and inserting there is what `spec_insert_ord` returns.
proof fn lemma_insert_ord_pos(s: Seq<Item>, x: Item, prec: spec_fn(Item, Item) -> bool)
    ensures
        0 <= spec_insert_pos(s, x, prec) <= s.len(),
        forall|j: int| 0 <= j < spec_insert_pos(s, x, prec) ==> !prec(x, s[j]),
        spec_insert_pos(s, x, prec) < s.len() ==> prec(x, s[spec_insert_pos(s, x, prec)]),
        spec_insert_ord(s, x, prec) == s.insert(spec_insert_pos(s, x, prec), x),
    decreases s.len(),
{
    let p = spec_insert_pos(s, x, prec);
    if s.len() == 0 {
        assert(spec_insert_ord(s, x, prec) =~= s.insert(0, x));
    } else if prec(x, s[0]) {
        assert(spec_insert_ord(s, x, prec) =~= s.insert(0, x));
    } else {
        lemma_insert_ord_pos(s.drop_first(), x, prec);
        assert forall|j: int| 0 <= j < p implies !prec(x, s[j]) by {
            if j > 0 {
                assert(s.drop_first()[j - 1] == s[j]);
            }
        }
        assert(spec_insert_ord(s, x, prec) =~= s.insert(p, x));
    }
}

/// Inserting into a score-sorted sequence keeps it score-sorted.
proof fn lemma_insert_value_sorted(s: Seq<Item>, x: Item, tz: Option<String>, now: int)
    requires
        spec_sorted_by_score(s, tz, now),
    ensures
        spec_sorted_by_score(spec_insert_ord(s, x, spec_value_order(tz, now)), tz, now),
{
    let prec = spec_value_order(tz, now);
    lemma_insert_ord_pos(s, x, prec);
    let p = spec_insert_pos(s, x, prec);
    let r = s.insert(p, x);
    assert forall|i: int, j: int| 0 <= i < j < r.len() implies spec_score(r[i], tz, now)
        >= spec_score(r[j], tz, now) by {
        if i < p && j > p {
            assert(r[i] == s[i] && r[j] == s[j - 1]);
        }
        if i == p && j > p {
            assert(r[j] == s[j - 1]);
            assert(spec_score(s[p], tz, now) >= spec_score(s[j - 1], tz, now));
        }
        if j == p && i < p {
            assert(r[i] == s[i]);
        }
    }
}

/// A sequence with no member of the class filters to nothing.
proof fn lemma_filter_none(s: Seq<Item>, pred: spec_fn(Item) -> bool)
    requires
        forall|i: int| 0 <= i < s.len() ==> !pred(s[i]),
    ensures
        s.filter(pred) == Seq::<Item>::empty(),
    decreases s.len(),
{
    reveal_with_fuel(Seq::<_>::filter, 2);
    if s.len() > 0 {
        lemma_filter_none(s.drop_last(), pred);
    }
}

/// Inserting into a score-sorted sequence appends the new element to its own
/// score class and leaves every other class unchanged.
proof fn lemma_insert_value_filter(s: Seq<Item>, x: Item, tz: Option<String>, now: int, v: int)
    requires
        spec_sorted_by_score(s, tz, now),
    ensures
        spec_insert_ord(s, x, spec_value_order(tz, now)).filter(spec_score_class(tz, now, v))
            == if spec_score(x, tz, now) == v {
            s.filter(spec_score_class(tz, now, v)).push(x)
        } else {
            s.filter(spec_score_class(tz, now, v))
        },
{
    let prec = spec_value_order(tz, now);
    let pred = spec_score_class(tz, now, v);
    lemma_insert_ord_pos(s, x, prec);
    let p = spec_insert_pos(s, x, prec);
    let front = s.subrange(0, p);
    let back = s.subrange(p, s.len() as int);
    let one = seq![x];
    assert(s.insert(p, x) =~= front + one + back);
    assert(s =~= front + back);
    Seq::filter_distributes_over_add(front + one, back, pred);
    Seq::filter_distributes_over_add(front, one, pred);
    Seq::filter_distributes_over_add(front, back, pred);
    reveal_with_fuel(Seq::<_>::filter, 2);
    assert(one.drop_last() =~= Seq::<Item>::empty());
    if spec_score(x, tz, now) == v {
        assert(one.filter(pred) =~= seq![x]);
        assert(back.filter(pred) == Seq::<Item>::empty()) by {
            assert forall|i: int| 0 <= i < back.len() implies !pred(back[i]) by {
                assert(back[i] == s[p + i]);
                assert(prec(x, s[p]));
                if i > 0 {
                    assert(spec_score(s[p], tz, now) >= spec_score(s[p + i], tz, now));
                }
            }
            lemma_filter_none(back, pred);
        }
        assert((front + one + back).filter(pred) =~= front.filter(pred).push(x));
        assert(s.filter(pred) =~= front.filter(pred));
    } else {
        assert(one.filter(pred) =~= Seq::<Item>::empty());
        assert((front + one + back).filter(pred) =~= front.filter(pred) + back.filter(pred));
        assert(s.filter(pred) =~= front.filter(pred) + back.filter(pred));
    }
}

/// The urgency sort is a permutation: it neither drops, adds nor repeats a
/// task.
pub proof fn law_sort_ord_permutes(s: Seq<Item>, prec: spec_fn(Item, Item) -> bool)
    ensures
        spec_sort_ord(s, prec).to_multiset() == s.to_multiset(),
    decreases s.len(),
{
    broadcast use vstd::seq_lib::group_to_multiset_ensures;

    if s.len() > 0 {
        law_sort_ord_permutes(s.drop_last(), prec);
        lemma_insert_ord_pos(spec_sort_ord(s.drop_last(), prec), s.last(), prec);
        assert(s.drop_last().push(s.last()) =~= s);
    }
}

/// The urgency sort orders by score, most urgent first.
pub proof fn law_sort_by_value_sorted(s: Seq<Item>, tz: Option<String>, now: int)
    ensures
        spec_sorted_by_score(spec_sort_by_value(s, tz, now), tz, now),
    decreases s.len(),
{
    if s.len() > 0 {
        law_sort_by_value_sorted(s.drop_last(), tz, now);
        lemma_insert_value_sorted(
            spec_sort_ord(s.drop_last(), spec_value_order(tz, now)),
            s.last(),
            tz,
            now,
        );
    }
}

/// The urgency sort is stable: within each score class, the output holds the
/// same tasks in the same relative order as the input, so two tasks of equal
/// score keep their relative input order.
pub proof fn law_sort_by_value_stable(s: Seq<Item>, tz: Option<String>, now: int, v: int)
    ensures
        spec_sort_by_value(s, tz, now).filter(spec_score_class(tz, now, v)) == s.filter(
            spec_score_class(tz, now, v),
        ),
    decreases s.len(),
{
    let pred = spec_score_class(tz, now, v);
    reveal_with_fuel(Seq::<_>::filter, 2);
    if s.len() > 0 {
        law_sort_by_value_stable(s.drop_last(), tz, now, v);
        law_sort_by_value_sorted(s.drop_last(), tz, now);
        lemma_insert_value_filter(
            spec_sort_ord(s.drop_last(), spec_value_order(tz, now)),
            s.last(),
            tz,
            now,
            v,
        );
    }
}


/// Due instants run upward along the output of the due-instant sort, with
/// every task lacking an instant placed in front of every task carrying one.
pub open spec fn spec_sorted_by_key(s: Seq<Item>, tz: Option<String>) -> bool {
    forall|i: int, j: int|
        0 <= i < j < s.len() ==> !spec_key_lt(
            spec_datetime_key(s[j], tz),
            spec_datetime_key(s[i], tz),
        )
}

/// Inserting into a key-sorted sequence keeps it key-sorted.
proof fn lemma_insert_datetime_sorted(s: Seq<Item>, x: Item, tz: Option<String>)
    requires
        spec_sorted_by_key(s, tz),
    ensures
        spec_sorted_by_key(spec_insert_ord(s, x, spec_datetime_order(tz)), tz),
{
    let prec = spec_datetime_order(tz);
    lemma_insert_ord_pos(s, x, prec);
    let p = spec_insert_pos(s, x, prec);
    let r = s.insert(p, x);
    assert forall|i: int, j: int| 0 <= i < j < r.len() implies !spec_key_lt(
        spec_datetime_key(r[j], tz),
        spec_datetime_key(r[i], tz),
    ) by {
        if i < p && j > p {
            assert(r[i] == s[i] && r[j] == s[j - 1]);
        }
        if i == p && j > p {
            assert(r[j] == s[j - 1]);
            assert(!spec_key_lt(spec_datetime_key(s[j - 1], tz), spec_datetime_key(s[p], tz)));
        }
        if j == p && i < p {
            assert(r[i] == s[i]);
        }
    }
}

/// The due-instant sort orders by instant, missing instants first.
pub proof fn law_sort_by_datetime_sorted(s: Seq<Item>, tz: Option<String>)
    ensures
        spec_sorted_by_key(spec_sort_by_datetime(s, tz), tz),
    decreases s.len(),
{
    if s.len() > 0 {
        law_sort_by_datetime_sorted(s.drop_last(), tz);
        lemma_insert_datetime_sorted(
            spec_sort_ord(s.drop_last(), spec_datetime_order(tz)),
            s.last(),
            tz,
        );
    }
}

} // verus!
