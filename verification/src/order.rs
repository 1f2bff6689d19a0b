use crate::article::Article;
use crate::text::lemma_lex_le_reflexive;
use crate::text::lemma_lex_le_total;
use crate::text::lemma_lex_le_transitive;
use crate::text::lex_le;
use crate::text::lex_lt;
use vstd::prelude::*;

verus! {

/// Whether the articles of `s` stand newest first: no article is dated
/// later than one that stands before it.
pub open spec fn is_date_descending(s: Seq<Article>) -> bool {
    forall|i: int, j: int| 0 <= i < j < s.len() ==> lex_le(s[j].date@, s[i].date@)
}

/// How many articles of `s` are dated strictly later than `date`.
pub open spec fn count_newer(s: Seq<Article>, date: Seq<char>) -> nat
    decreases s.len(),
{
    if s.len() == 0 {
        0
    } else {
        count_newer(s.drop_last(), date) + if lex_lt(date, s.last().date@) {
            1nat
        } else {
            0nat
        }
    }
}

/// The list `sorted` with `a` put in behind the articles that are dated
/// later than `a`, and before all others.
pub open spec fn placed(sorted: Seq<Article>, a: Article) -> Seq<Article> {
    sorted.insert(count_newer(sorted, a.date@) as int, a)
}

/// The articles of `s` newest first. Articles of one date keep the order
/// in which they stand in `s`.
pub open spec fn by_date(s: Seq<Article>) -> Seq<Article>
    decreases s.len(),
{
    if s.len() == 0 {
        Seq::empty()
    } else {
        placed(by_date(s.drop_first()), s.first())
    }
}

/// The test that picks the articles dated `date`.
pub open spec fn is_dated(date: Seq<char>) -> spec_fn(Article) -> bool {
    |a: Article| a.date@ == date
}

/// The articles of `s` that are dated `date`, in the order in which they
/// stand in `s`.
pub open spec fn dated(s: Seq<Article>, date: Seq<char>) -> Seq<Article> {
    s.filter(is_dated(date))
}

/// In a list that stands newest first, the articles dated later than `date`
/// are exactly the first `count_newer` ones.
pub proof fn lemma_count_newer_splits(s: Seq<Article>, date: Seq<char>)
    requires
        is_date_descending(s),
    ensures
        count_newer(s, date) <= s.len(),
        forall|i: int| 0 <= i < count_newer(s, date) ==> lex_lt(date, (#[trigger] s[i]).date@),
        forall|i: int|
            count_newer(s, date) <= i < s.len() ==> lex_le((#[trigger] s[i]).date@, date),
    decreases s.len(),
{
    if s.len() > 0 {
        let front = s.drop_last();
        assert forall|i: int, j: int| 0 <= i < j < front.len() implies lex_le(
            front[j].date@,
            front[i].date@,
        ) by {
            assert(front[i] == s[i] && front[j] == s[j]);
        }
        lemma_count_newer_splits(front, date);
        let p = count_newer(front, date);
        if lex_lt(date, s.last().date@) {
            if p < front.len() {
                assert(front[p as int] == s[p as int]);
                lemma_lex_le_transitive(s.last().date@, s[p as int].date@, date);
            }
            assert forall|i: int| 0 <= i < count_newer(s, date) implies lex_lt(
                date,
                (#[trigger] s[i]).date@,
            ) by {
                if i < front.len() {
                    assert(front[i] == s[i]);
                }
            }
        } else {
            assert forall|i: int| count_newer(s, date) <= i < s.len() implies lex_le(
                (#[trigger] s[i]).date@,
                date,
            ) by {
                if i < front.len() {
                    assert(front[i] == s[i]);
                }
            }
            assert forall|i: int| 0 <= i < count_newer(s, date) implies lex_lt(
                date,
                (#[trigger] s[i]).date@,
            ) by {
                assert(front[i] == s[i]);
            }
        }
    }
}

/// In a list that stands newest first, `count_newer` is the one position
/// with only later articles before it and none from it on.
pub proof fn lemma_count_newer_is(s: Seq<Article>, date: Seq<char>, p: int)
    requires
        is_date_descending(s),
        0 <= p <= s.len(),
        forall|i: int| 0 <= i < p ==> lex_lt(date, (#[trigger] s[i]).date@),
        p < s.len() ==> lex_le(s[p].date@, date),
    ensures
        count_newer(s, date) == p,
{
    lemma_count_newer_splits(s, date);
    let q = count_newer(s, date) as int;
    if q < p {
        assert(lex_lt(date, s[q].date@));
    } else if p < q {
        assert(lex_lt(date, s[p].date@));
    }
}

/// Putting an article into a list that stands newest first leaves it so.
pub proof fn lemma_placed_descending(sorted: Seq<Article>, a: Article)
    requires
        is_date_descending(sorted),
    ensures
        is_date_descending(placed(sorted, a)),
{
    lemma_count_newer_splits(sorted, a.date@);
    let p = count_newer(sorted, a.date@) as int;
    let r = placed(sorted, a);
    assert forall|i: int, j: int| 0 <= i < j < r.len() implies lex_le(r[j].date@, r[i].date@) by {
        if j < p {
            assert(r[i] == sorted[i] && r[j] == sorted[j]);
        } else if j == p {
            assert(r[i] == sorted[i]);
            lemma_lex_le_total(a.date@, sorted[i].date@);
        } else if i < p {
            assert(r[i] == sorted[i] && r[j] == sorted[j - 1]);
        } else if i == p {
            assert(r[j] == sorted[j - 1]);
        } else {
            assert(r[i] == sorted[i - 1] && r[j] == sorted[j - 1]);
        }
    }
}

/// `by_date` puts the newest first: each article is dated at or after
/// every article that follows it.
pub proof fn lemma_by_date_descending(s: Seq<Article>)
    ensures
        is_date_descending(by_date(s)),
    decreases s.len(),
{
    if s.len() > 0 {
        lemma_by_date_descending(s.drop_first());
        lemma_placed_descending(by_date(s.drop_first()), s.first());
    }
}

/// `by_date` neither adds nor drops an article: each article stands in the
/// result as often as in `s`.
pub proof fn lemma_by_date_permutes(s: Seq<Article>)
    ensures
        by_date(s).len() == s.len(),
        by_date(s).to_multiset() == s.to_multiset(),
    decreases s.len(),
{
    broadcast use vstd::seq_lib::group_to_multiset_ensures;

    if s.len() > 0 {
        let rest = s.drop_first();
        lemma_by_date_permutes(rest);
        let sorted = by_date(rest);
        lemma_count_newer_bound(sorted, s.first().date@);
        let p = count_newer(sorted, s.first().date@) as int;
        vstd::seq_lib::to_multiset_insert(sorted, p, s.first());
        assert(s =~= rest.insert(0, s.first()));
        vstd::seq_lib::to_multiset_insert(rest, 0, s.first());
    } else {
        assert(by_date(s) =~= s);
    }
}

/// `by_date` keeps the articles of one date in the order in which they
/// stand in `s`.
pub proof fn lemma_by_date_stable(s: Seq<Article>, date: Seq<char>)
    ensures
        dated(by_date(s), date) == dated(s, date),
    decreases s.len(),
{
    let pred = is_dated(date);
    if s.len() > 0 {
        let a = s.first();
        let rest = s.drop_first();
        let sorted = by_date(rest);
        lemma_by_date_stable(rest, date);
        lemma_by_date_descending(rest);
        lemma_count_newer_splits(sorted, a.date@);
        let p = count_newer(sorted, a.date@) as int;
        let head = sorted.take(p);
        let tail = sorted.skip(p);
        let none = Seq::<Article>::empty();
        assert(sorted =~= head + tail);
        assert(placed(sorted, a) =~= head.push(a) + tail);
        assert(s =~= none.push(a) + rest);
        assert(none.filter(pred) =~= none) by {
            reveal(Seq::filter);
        }
        Seq::filter_distributes_over_add(head, tail, pred);
        Seq::filter_distributes_over_add(head.push(a), tail, pred);
        Seq::filter_distributes_over_add(none.push(a), rest, pred);
        head.lemma_filter_push(a, pred);
        none.lemma_filter_push(a, pred);
        if a.date@ == date {
            assert forall|i: int| 0 <= i < head.len() implies !pred(#[trigger] head[i]) by {
                assert(head[i] == sorted[i]);
                lemma_lex_le_reflexive(date);
            }
            assert(head.all(|x: Article| !pred(x)));
            head.lemma_all_neg_filter_empty(pred);
            assert(head.filter(pred) =~= none);
            assert(none.push(a) + tail.filter(pred) =~= none.push(a) + (none + tail.filter(pred)));
        }
    } else {
        assert(by_date(s) =~= s);
    }
}

/// No more articles are dated later than `date` than there are articles.
pub proof fn lemma_count_newer_bound(s: Seq<Article>, date: Seq<char>)
    ensures
        count_newer(s, date) <= s.len(),
    decreases s.len(),
{
    if s.len() > 0 {
        lemma_count_newer_bound(s.drop_last(), date);
    }
}

/// Orders articles by date, newest first. Dates are compared as text, in
/// lexical order. Articles of one date keep the order in which they came.
pub fn order(articles: Vec<Article>) -> (ordered: Vec<Article>)
    ensures
        ordered@ == by_date(articles@),
        is_date_descending(ordered@),
        ordered@.len() == articles@.len(),
        ordered@.to_multiset() == articles@.to_multiset(),
        forall|date: Seq<char>| #[trigger] dated(ordered@, date) == dated(articles@, date),
{
    let ghost given = articles@;
    let mut rest = articles;
    let mut ordered: Vec<Article> = Vec::new();
    assert(given.skip(given.len() as int) =~= Seq::<Article>::empty());
    while rest.len() > 0
        invariant
            rest.len() <= given.len(),
            rest@ == given.take(rest.len() as int),
            ordered@ == by_date(given.skip(rest.len() as int)),
        decreases rest.len(),
    {
        let ghost k = rest.len() as int;
        let a = rest.pop().unwrap();
        assert(a == given[k - 1]);
        proof {
            lemma_by_date_descending(given.skip(k));
        }
        let mut p: usize = 0;
        while p < ordered.len() && !a.not_older_than(&ordered[p])
            invariant
                p <= ordered.len(),
                forall|i: int| 0 <= i < p ==> lex_lt(a.date@, (#[trigger] ordered@[i]).date@),
            decreases ordered.len() - p,
        {
            p += 1;
        }
        proof {
            lemma_count_newer_is(ordered@, a.date@, p as int);
            assert(given.skip(k - 1).drop_first() =~= given.skip(k));
            assert(given.skip(k - 1).first() == a);
        }
        ordered.insert(p, a);
        assert(rest@ =~= given.take(rest.len() as int));
    }
    proof {
        assert(given.skip(0) =~= given);
        lemma_by_date_descending(given);
        lemma_by_date_permutes(given);
        assert forall|date: Seq<char>| #[trigger]
            dated(ordered@, date) == dated(given, date) by {
            lemma_by_date_stable(given, date);
        }
    }
    ordered
}

} // verus!
