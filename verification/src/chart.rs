//! Aggregation of a form's responses for its results chart: per
//! question number, how often each answer value was observed, over both
//! single-input answers and multi-select checkbox answers.

use vstd::prelude::*;

use crate::response::Response;
use crate::validate::{Answer, AnswerV};

verus! {

/// One observed (question number, answer value) pair.
pub struct Observation {
    pub number: u32,
    pub value: String,
}

impl DeepView for Observation {
    type V = (u32, Seq<char>);

    open spec fn deep_view(&self) -> (u32, Seq<char>) {
        (self.number, self.value@)
    }
}

/// How often one value was observed for one question.
#[derive(Clone, Debug)]
pub struct ValueCount {
    pub value: String,
    pub count: usize,
}

/// Mathematical value of a [`ValueCount`].
pub struct ValueCountV {
    pub value: Seq<char>,
    pub count: usize,
}

impl DeepView for ValueCount {
    type V = ValueCountV;

    open spec fn deep_view(&self) -> ValueCountV {
        ValueCountV { value: self.value@, count: self.count }
    }
}

/// The observed values of one question, each with its count.
#[derive(Clone, Debug)]
pub struct QuestionSummary {
    pub number: u32,
    pub counts: Vec<ValueCount>,
}

/// Mathematical value of a [`QuestionSummary`].
pub struct QuestionSummaryV {
    pub number: u32,
    pub counts: Seq<ValueCountV>,
}

impl DeepView for QuestionSummary {
    type V = QuestionSummaryV;

    open spec fn deep_view(&self) -> QuestionSummaryV {
        QuestionSummaryV { number: self.number, counts: self.counts.deep_view() }
    }
}

/// The observations one answer contributes: its single input value when
/// present, otherwise each of its selected options in order, otherwise
/// nothing.
pub open spec fn answer_observations(a: AnswerV) -> Seq<(u32, Seq<char>)> {
    match a.input {
        Some(s) => seq![(a.number, s)],
        None => match a.selected_options {
            Some(sel) => Seq::new(sel.len(), |i: int| (a.number, sel[i])),
            None => Seq::empty(),
        },
    }
}

/// All observations of a list of answers, in order.
pub open spec fn answers_observations(ans: Seq<AnswerV>) -> Seq<(u32, Seq<char>)>
    decreases ans.len(),
{
    if ans.len() == 0 {
        Seq::empty()
    } else {
        answers_observations(ans.drop_last()) + answer_observations(ans.last())
    }
}

/// All observations of a list of responses, in order.
pub open spec fn all_observations(rs: Seq<Response>) -> Seq<(u32, Seq<char>)>
    decreases rs.len(),
{
    if rs.len() == 0 {
        Seq::empty()
    } else {
        all_observations(rs.drop_last()) + answers_observations(rs.last().answers.deep_view())
    }
}

/// How often the pair (`num`, `val`) occurs among the observations.
pub open spec fn count_obs(obs: Seq<(u32, Seq<char>)>, num: u32, val: Seq<char>) -> int
    decreases obs.len(),
{
    if obs.len() == 0 {
        0
    } else if obs.last().0 == num && obs.last().1 == val {
        count_obs(obs.drop_last(), num, val) + 1
    } else {
        count_obs(obs.drop_last(), num, val)
    }
}

/// The count a list of value counts records for `val` (first match; 0
/// when absent).
pub open spec fn counts_lookup(cs: Seq<ValueCountV>, val: Seq<char>) -> int
    decreases cs.len(),
{
    if cs.len() == 0 {
        0
    } else if cs[0].value == val {
        cs[0].count as int
    } else {
        counts_lookup(cs.drop_first(), val)
    }
}

/// The count a chart records for the pair (`num`, `val`) (first
/// matching question entry; 0 when absent).
pub open spec fn chart_lookup(ch: Seq<QuestionSummaryV>, num: u32, val: Seq<char>) -> int
    decreases ch.len(),
{
    if ch.len() == 0 {
        0
    } else if ch[0].number == num {
        counts_lookup(ch[0].counts, val)
    } else {
        chart_lookup(ch.drop_first(), num, val)
    }
}

proof fn lemma_count_obs_bounds(obs: Seq<(u32, Seq<char>)>, num: u32, val: Seq<char>)
    ensures
        0 <= count_obs(obs, num, val) <= obs.len(),
    decreases obs.len(),
{
    if obs.len() > 0 {
        lemma_count_obs_bounds(obs.drop_last(), num, val);
    }
}

proof fn lemma_counts_lookup_absent(cs: Seq<ValueCountV>, val: Seq<char>)
    requires
        forall|i: int| 0 <= i < cs.len() ==> (#[trigger] cs[i]).value != val,
    ensures
        counts_lookup(cs, val) == 0,
    decreases cs.len(),
{
    if cs.len() > 0 {
        assert(forall|i: int|
            0 <= i < cs.drop_first().len() ==> #[trigger] cs.drop_first()[i] == cs[i + 1]);
        lemma_counts_lookup_absent(cs.drop_first(), val);
    }
}

proof fn lemma_counts_lookup_first_match(cs: Seq<ValueCountV>, i: int)
    requires
        0 <= i < cs.len(),
        forall|k: int| 0 <= k < i ==> (#[trigger] cs[k]).value != cs[i].value,
    ensures
        counts_lookup(cs, cs[i].value) == cs[i].count as int,
    decreases i,
{
    if i > 0 {
        assert(forall|k: int|
            0 <= k < cs.drop_first().len() ==> #[trigger] cs.drop_first()[k] == cs[k + 1]);
        lemma_counts_lookup_first_match(cs.drop_first(), i - 1);
    }
}

proof fn lemma_counts_lookup_update(cs: Seq<ValueCountV>, i: int, x: ValueCountV, v: Seq<char>)
    requires
        0 <= i < cs.len(),
        forall|k: int| 0 <= k < i ==> (#[trigger] cs[k]).value != cs[i].value,
        x.value == cs[i].value,
    ensures
        counts_lookup(cs.update(i, x), v) == if v == x.value {
            x.count as int
        } else {
            counts_lookup(cs, v)
        },
    decreases i,
{
    if i == 0 {
        assert(cs.update(0, x)[0] == x);
        assert(cs.update(0, x).drop_first() =~= cs.drop_first());
    } else {
        assert(forall|k: int|
            0 <= k < cs.drop_first().len() ==> #[trigger] cs.drop_first()[k] == cs[k + 1]);
        lemma_counts_lookup_update(cs.drop_first(), i - 1, x, v);
        assert(cs.update(i, x).drop_first() =~= cs.drop_first().update(i - 1, x));
        assert(cs.update(i, x)[0] == cs[0]);
    }
}

proof fn lemma_counts_lookup_push(cs: Seq<ValueCountV>, x: ValueCountV, v: Seq<char>)
    requires
        forall|i: int| 0 <= i < cs.len() ==> (#[trigger] cs[i]).value != x.value,
    ensures
        counts_lookup(cs.push(x), v) == if v == x.value {
            x.count as int
        } else {
            counts_lookup(cs, v)
        },
    decreases cs.len(),
{
    if cs.len() == 0 {
        assert(cs.push(x)[0] == x);
        assert(cs.push(x).drop_first() =~= Seq::<ValueCountV>::empty());
        assert(counts_lookup(cs.push(x).drop_first(), v) == 0);
    } else {
        assert(forall|i: int|
            0 <= i < cs.drop_first().len() ==> #[trigger] cs.drop_first()[i] == cs[i + 1]);
        lemma_counts_lookup_push(cs.drop_first(), x, v);
        assert(cs.push(x).drop_first() =~= cs.drop_first().push(x));
        assert(cs.push(x)[0] == cs[0]);
        assert(cs[0].value != x.value);
        if v == cs[0].value {
            assert(counts_lookup(cs.push(x), v) == cs[0].count as int);
            assert(counts_lookup(cs, v) == cs[0].count as int);
        } else {
            assert(counts_lookup(cs.push(x), v) == counts_lookup(cs.drop_first().push(x), v));
            assert(counts_lookup(cs, v) == counts_lookup(cs.drop_first(), v));
        }
    }
}

proof fn lemma_chart_lookup_absent(ch: Seq<QuestionSummaryV>, num: u32, v: Seq<char>)
    requires
        forall|i: int| 0 <= i < ch.len() ==> (#[trigger] ch[i]).number != num,
    ensures
        chart_lookup(ch, num, v) == 0,
    decreases ch.len(),
{
    if ch.len() > 0 {
        assert(forall|i: int|
            0 <= i < ch.drop_first().len() ==> #[trigger] ch.drop_first()[i] == ch[i + 1]);
        lemma_chart_lookup_absent(ch.drop_first(), num, v);
    }
}

proof fn lemma_chart_lookup_first_match(ch: Seq<QuestionSummaryV>, i: int, v: Seq<char>)
    requires
        0 <= i < ch.len(),
        forall|k: int| 0 <= k < i ==> (#[trigger] ch[k]).number != ch[i].number,
    ensures
        chart_lookup(ch, ch[i].number, v) == counts_lookup(ch[i].counts, v),
    decreases i,
{
    if i > 0 {
        assert(forall|k: int|
            0 <= k < ch.drop_first().len() ==> #[trigger] ch.drop_first()[k] == ch[k + 1]);
        lemma_chart_lookup_first_match(ch.drop_first(), i - 1, v);
    }
}

proof fn lemma_chart_lookup_update(
    ch: Seq<QuestionSummaryV>,
    i: int,
    x: QuestionSummaryV,
    n: u32,
    v: Seq<char>,
)
    requires
        0 <= i < ch.len(),
        forall|k: int| 0 <= k < i ==> (#[trigger] ch[k]).number != ch[i].number,
        x.number == ch[i].number,
    ensures
        chart_lookup(ch.update(i, x), n, v) == if n == x.number {
            counts_lookup(x.counts, v)
        } else {
            chart_lookup(ch, n, v)
        },
    decreases i,
{
    if i == 0 {
        assert(ch.update(0, x)[0] == x);
        assert(ch.update(0, x).drop_first() =~= ch.drop_first());
    } else {
        assert(forall|k: int|
            0 <= k < ch.drop_first().len() ==> #[trigger] ch.drop_first()[k] == ch[k + 1]);
        lemma_chart_lookup_update(ch.drop_first(), i - 1, x, n, v);
        assert(ch.update(i, x).drop_first() =~= ch.drop_first().update(i - 1, x));
        assert(ch.update(i, x)[0] == ch[0]);
    }
}

proof fn lemma_chart_lookup_push(ch: Seq<QuestionSummaryV>, x: QuestionSummaryV, n: u32, v: Seq<char>)
    requires
        forall|i: int| 0 <= i < ch.len() ==> (#[trigger] ch[i]).number != x.number,
    ensures
        chart_lookup(ch.push(x), n, v) == if n == x.number {
            counts_lookup(x.counts, v)
        } else {
            chart_lookup(ch, n, v)
        },
    decreases ch.len(),
{
    if ch.len() == 0 {
        assert(ch.push(x)[0] == x);
        assert(ch.push(x).drop_first() =~= Seq::<QuestionSummaryV>::empty());
        assert(chart_lookup(ch.push(x).drop_first(), n, v) == 0);
    } else {
        assert(forall|i: int|
            0 <= i < ch.drop_first().len() ==> #[trigger] ch.drop_first()[i] == ch[i + 1]);
        lemma_chart_lookup_push(ch.drop_first(), x, n, v);
        assert(ch.push(x).drop_first() =~= ch.drop_first().push(x));
        assert(ch.push(x)[0] == ch[0]);
        assert(ch[0].number != x.number);
        if n == ch[0].number {
            assert(chart_lookup(ch.push(x), n, v) == counts_lookup(ch[0].counts, v));
            assert(chart_lookup(ch, n, v) == counts_lookup(ch[0].counts, v));
        } else {
            assert(chart_lookup(ch.push(x), n, v) == chart_lookup(ch.drop_first().push(x), n, v));
            assert(chart_lookup(ch, n, v) == chart_lookup(ch.drop_first(), n, v));
        }
    }
}

/// The index of the first count entry for `val`, if one exists.
fn find_value(counts: &Vec<ValueCount>, val: &String) -> (r: Option<usize>)
    ensures
        match r {
            Some(i) => {
                &&& i < counts.deep_view().len()
                &&& counts.deep_view()[i as int].value == val@
                &&& forall|k: int|
                    0 <= k < i ==> (#[trigger] counts.deep_view()[k]).value != val@
            },
            None => forall|k: int|
                0 <= k < counts.deep_view().len() ==> (#[trigger] counts.deep_view()[k]).value
                    != val@,
        },
{
    let mut i: usize = 0;
    while i < counts.len()
        invariant
            i <= counts@.len(),
            counts.deep_view().len() == counts@.len(),
            forall|k: int| 0 <= k < i ==> (#[trigger] counts.deep_view()[k]).value != val@,
        decreases counts@.len() - i,
    {
        if counts[i].value.eq(val) {
            assert(counts.deep_view()[i as int].value == val@);
            return Some(i);
        }
        assert(counts.deep_view()[i as int].value != val@);
        i = i + 1;
    }
    None
}

/// The index of the first chart entry for question `num`, if one
/// exists.
fn find_number(chart: &Vec<QuestionSummary>, num: u32) -> (r: Option<usize>)
    ensures
        match r {
            Some(i) => {
                &&& i < chart.deep_view().len()
                &&& chart.deep_view()[i as int].number == num
                &&& forall|k: int|
                    0 <= k < i ==> (#[trigger] chart.deep_view()[k]).number != num
            },
            None => forall|k: int|
                0 <= k < chart.deep_view().len() ==> (#[trigger] chart.deep_view()[k]).number
                    != num,
        },
{
    let mut i: usize = 0;
    while i < chart.len()
        invariant
            i <= chart@.len(),
            chart.deep_view().len() == chart@.len(),
            forall|k: int| 0 <= k < i ==> (#[trigger] chart.deep_view()[k]).number != num,
        decreases chart@.len() - i,
    {
        if chart[i].number == num {
            return Some(i);
        }
        i = i + 1;
    }
    None
}

/// A copy of `counts` with the entry for `val` incremented, the entry
/// being created at the end when absent; every other value's count is
/// untouched.
fn bump_counts(counts: &Vec<ValueCount>, val: &String) -> (r: Vec<ValueCount>)
    requires
        counts_lookup(counts.deep_view(), val@) < usize::MAX,
    ensures
        counts_lookup(r.deep_view(), val@) == counts_lookup(counts.deep_view(), val@) + 1,
        forall|v: Seq<char>|
            v != val@ ==> #[trigger] counts_lookup(r.deep_view(), v) == counts_lookup(
                counts.deep_view(),
                v,
            ),
{
    let ghost cdv = counts.deep_view();
    match find_value(counts, val) {
        Some(i) => {
            proof {
                lemma_counts_lookup_first_match(cdv, i as int);
            }
            let c: usize = counts[i].count;
            assert(c == cdv[i as int].count);
            let ghost target = cdv.update(
                i as int,
                ValueCountV { value: val@, count: (c + 1) as usize },
            );
            let mut r: Vec<ValueCount> = Vec::new();
            let mut k: usize = 0;
            while k < counts.len()
                invariant
                    k <= counts@.len(),
                    cdv == counts.deep_view(),
                    cdv.len() == counts@.len(),
                    i < counts@.len(),
                    c == cdv[i as int].count,
                    c < usize::MAX,
                    target == cdv.update(
                        i as int,
                        ValueCountV { value: val@, count: (c + 1) as usize },
                    ),
                    cdv[i as int].value == val@,
                    r.deep_view() =~= target.subrange(0, k as int),
                decreases counts@.len() - k,
            {
                let ghost prev = r.deep_view();
                let ghost pushedv = if k == i as usize {
                    ValueCountV { value: val@, count: (c + 1) as usize }
                } else {
                    cdv[k as int]
                };
                if k == i {
                    r.push(ValueCount { value: val.clone(), count: c + 1 });
                } else {
                    r.push(
                        ValueCount { value: counts[k].value.clone(), count: counts[k].count },
                    );
                }
                proof {
                    assert(r.deep_view() =~= prev.push(pushedv));
                    assert(prev.push(pushedv) =~= target.subrange(0, k + 1 as int));
                }
                k = k + 1;
            }
            assert(target.subrange(0, target.len() as int) =~= target);
            proof {
                let newv = ValueCountV { value: val@, count: (c + 1) as usize };
                assert(r.deep_view() == target);
                lemma_counts_lookup_update(cdv, i as int, newv, val@);
                assert forall|v: Seq<char>| v != val@ implies #[trigger] counts_lookup(
                    r.deep_view(),
                    v,
                ) == counts_lookup(cdv, v) by {
                    lemma_counts_lookup_update(cdv, i as int, newv, v);
                }
            }
            r
        },
        None => {
            proof {
                lemma_counts_lookup_absent(cdv, val@);
            }
            let mut r: Vec<ValueCount> = Vec::new();
            let mut k: usize = 0;
            while k < counts.len()
                invariant
                    k <= counts@.len(),
                    cdv == counts.deep_view(),
                    cdv.len() == counts@.len(),
                    r.deep_view() =~= cdv.subrange(0, k as int),
                decreases counts@.len() - k,
            {
                let ghost prev = r.deep_view();
                r.push(ValueCount { value: counts[k].value.clone(), count: counts[k].count });
                proof {
                    assert(r.deep_view() =~= prev.push(cdv[k as int]));
                    assert(prev.push(cdv[k as int]) =~= cdv.subrange(0, k + 1 as int));
                }
                k = k + 1;
            }
            assert(cdv.subrange(0, cdv.len() as int) =~= cdv);
            let ghost before = r.deep_view();
            r.push(ValueCount { value: val.clone(), count: 1 });
            proof {
                let newv = ValueCountV { value: val@, count: 1 };
                assert(before == cdv);
                assert(r.deep_view() =~= before.push(newv));
                lemma_counts_lookup_push(cdv, newv, val@);
                assert forall|v: Seq<char>| v != val@ implies #[trigger] counts_lookup(
                    r.deep_view(),
                    v,
                ) == counts_lookup(cdv, v) by {
                    lemma_counts_lookup_push(cdv, newv, v);
                }
            }
            r
        },
    }
}

/// Record one observation in the chart: the count of (`number`,
/// `value`) rises by one and every other pair's count is untouched.
fn add_to_chart(chart: &mut Vec<QuestionSummary>, number: u32, value: &String)
    requires
        chart_lookup(old(chart).deep_view(), number, value@) < usize::MAX,
    ensures
        chart_lookup(final(chart).deep_view(), number, value@) == chart_lookup(
            old(chart).deep_view(),
            number,
            value@,
        ) + 1,
        forall|n: u32, v: Seq<char>|
            !(n == number && v == value@) ==> #[trigger] chart_lookup(
                final(chart).deep_view(),
                n,
                v,
            ) == chart_lookup(old(chart).deep_view(), n, v),
{
    let ghost chdv = chart.deep_view();
    match find_number(chart, number) {
        Some(i) => {
            proof {
                assert(chdv[i as int] == chart@[i as int].deep_view());
                lemma_chart_lookup_first_match(chdv, i as int, value@);
            }
            let ghost old_counts = chart@[i as int].counts.deep_view();
            let new_counts = bump_counts(&chart[i].counts, value);
            let ghost newv = QuestionSummaryV { number, counts: new_counts.deep_view() };
            chart.set(i, QuestionSummary { number, counts: new_counts });
            proof {
                assert(chart.deep_view() =~= chdv.update(i as int, newv));
                lemma_chart_lookup_update(chdv, i as int, newv, number, value@);
                assert forall|n: u32, v: Seq<char>|
                    !(n == number && v == value@) implies #[trigger] chart_lookup(
                    chart.deep_view(),
                    n,
                    v,
                ) == chart_lookup(chdv, n, v) by {
                    lemma_chart_lookup_update(chdv, i as int, newv, n, v);
                    if n == number {
                        lemma_chart_lookup_first_match(chdv, i as int, v);
                    }
                }
            }
        },
        None => {
            proof {
                lemma_chart_lookup_absent(chdv, number, value@);
            }
            let mut counts: Vec<ValueCount> = Vec::new();
            counts.push(ValueCount { value: value.clone(), count: 1 });
            let ghost newv = QuestionSummaryV { number, counts: counts.deep_view() };
            proof {
                assert(counts.deep_view() =~= seq![ValueCountV { value: value@, count: 1 }]);
                assert(counts.deep_view().drop_first() =~= Seq::<ValueCountV>::empty());
            }
            let ghost before = chart.deep_view();
            chart.push(QuestionSummary { number, counts });
            proof {
                assert(before == chdv);
                assert(chart.deep_view() =~= before.push(newv));
                lemma_chart_lookup_push(chdv, newv, number, value@);
                assert forall|n: u32, v: Seq<char>|
                    !(n == number && v == value@) implies #[trigger] chart_lookup(
                    chart.deep_view(),
                    n,
                    v,
                ) == chart_lookup(chdv, n, v) by {
                    lemma_chart_lookup_push(chdv, newv, n, v);
                    if n == number {
                        lemma_chart_lookup_absent(chdv, number, v);
                        assert(newv.counts[0].value == value@);
                        assert(counts_lookup(newv.counts.drop_first(), v) == 0);
                        assert(counts_lookup(newv.counts, v) == 0);
                    }
                }
            }
        },
    }
}

/// Flatten the responses into their observations, in order.
fn collect_observations(responses: &Vec<Response>) -> (obs: Vec<Observation>)
    ensures
        obs.deep_view() == all_observations(responses@),
{
    let mut obs: Vec<Observation> = Vec::new();
    let mut i: usize = 0;
    assert(responses@.subrange(0, 0) =~= Seq::<Response>::empty());
    while i < responses.len()
        invariant
            i <= responses@.len(),
            obs.deep_view() == all_observations(responses@.subrange(0, i as int)),
        decreases responses@.len() - i,
    {
        let r = &responses[i];
        collect_from_answers(&mut obs, &r.answers);
        proof {
            let pre = responses@.subrange(0, i as int);
            let ext = responses@.subrange(0, i + 1 as int);
            assert(ext.drop_last() =~= pre);
            assert(ext.last() == responses@[i as int]);
        }
        i = i + 1;
    }
    assert(responses@.subrange(0, responses@.len() as int) =~= responses@);
    obs
}

/// Append the observations of one answer list to `obs`.
fn collect_from_answers(obs: &mut Vec<Observation>, answers: &Vec<Answer>)
    ensures
        final(obs).deep_view() == old(obs).deep_view() + answers_observations(answers.deep_view()),
{
    let ghost base = old(obs).deep_view();
    let ghost adv = answers.deep_view();
    let mut j: usize = 0;
    proof {
        assert(adv.subrange(0, 0) =~= Seq::<AnswerV>::empty());
        assert(base + answers_observations(adv.subrange(0, 0)) =~= base);
    }
    while j < answers.len()
        invariant
            j <= answers@.len(),
            adv == answers.deep_view(),
            adv.len() == answers@.len(),
            obs.deep_view() == base + answers_observations(adv.subrange(0, j as int)),
        decreases answers@.len() - j,
    {
        let a = &answers[j];
        assert(a.deep_view() == adv[j as int]);
        let ghost mid = obs.deep_view();
        match &a.input {
            Some(s) => {
                obs.push(Observation { number: a.number, value: s.clone() });
                proof {
                    assert(obs.deep_view() =~= mid.push((a.number, s@)));
                    assert(mid.push((a.number, s@)) =~= mid + seq![(a.number, s@)]);
                }
            },
            None => {
                match &a.selected_options {
                    Some(sel) => {
                        let ghost seldv = sel.deep_view();
                        let mut k: usize = 0;
                        proof {
                            assert(Seq::new(0, |t: int| (a.number, seldv[t])) =~= Seq::<(
                                u32,
                                Seq<char>,
                            )>::empty());
                            assert(mid + Seq::new(0, |t: int| (a.number, seldv[t])) =~= mid);
                        }
                        while k < sel.len()
                            invariant
                                k <= sel@.len(),
                                seldv == sel.deep_view(),
                                seldv.len() == sel@.len(),
                                obs.deep_view() == mid + Seq::new(
                                    k as nat,
                                    |t: int| (a.number, seldv[t]),
                                ),
                            decreases sel@.len() - k,
                        {
                            let ghost prev = obs.deep_view();
                            obs.push(Observation { number: a.number, value: sel[k].clone() });
                            proof {
                                assert(obs.deep_view() =~= prev.push(
                                    (a.number, seldv[k as int]),
                                ));
                                assert(prev.push((a.number, seldv[k as int])) =~= mid + Seq::new(
                                    (k + 1) as nat,
                                    |t: int| (a.number, seldv[t]),
                                ));
                            }
                            k = k + 1;
                        }
                        assert(Seq::new(seldv.len(), |t: int| (a.number, seldv[t]))
                            =~= answer_observations(adv[j as int]));
                    },
                    None => {
                        assert(obs.deep_view() =~= mid + answer_observations(adv[j as int]));
                    },
                }
            },
        }
        proof {
            let pre = adv.subrange(0, j as int);
            let ext = adv.subrange(0, j + 1 as int);
            assert(ext.drop_last() =~= pre);
            assert(ext.last() == adv[j as int]);
            assert(obs.deep_view() =~= base + answers_observations(ext));
        }
        j = j + 1;
    }
    assert(adv.subrange(0, adv.len() as int) =~= adv);
}

/// Build the chart for a form's responses: for every question number
/// and observed value, the chart records exactly how often that value
/// occurs among the responses' answers.
pub fn chart_summary(responses: &Vec<Response>) -> (chart: Vec<QuestionSummary>)
    requires
        all_observations(responses@).len() <= usize::MAX,
    ensures
        forall|num: u32, val: Seq<char>| #[trigger] chart_lookup(chart.deep_view(), num, val)
            == count_obs(all_observations(responses@), num, val),
{
    let obs = collect_observations(responses);
    let ghost odv = obs.deep_view();
    let mut chart: Vec<QuestionSummary> = Vec::new();
    let mut j: usize = 0;
    proof {
        assert(odv.subrange(0, 0) =~= Seq::<(u32, Seq<char>)>::empty());
    }
    while j < obs.len()
        invariant
            j <= obs@.len(),
            odv == obs.deep_view(),
            odv.len() == obs@.len(),
            odv.len() <= usize::MAX,
            forall|num: u32, val: Seq<char>| #[trigger] chart_lookup(chart.deep_view(), num, val)
                == count_obs(odv.subrange(0, j as int), num, val),
        decreases obs@.len() - j,
    {
        let o = &obs[j];
        assert(o.deep_view() == odv[j as int]);
        let ghost pre = odv.subrange(0, j as int);
        let ghost ext = odv.subrange(0, j + 1 as int);
        proof {
            assert(ext.drop_last() =~= pre);
            assert(ext.last() == odv[j as int]);
            lemma_count_obs_bounds(pre, o.number, o.value@);
        }
        let ghost before = chart.deep_view();
        add_to_chart(&mut chart, o.number, &o.value);
        proof {
            assert forall|num: u32, val: Seq<char>| #[trigger] chart_lookup(
                chart.deep_view(),
                num,
                val,
            ) == count_obs(ext, num, val) by {
                if num == o.number && val == o.value@ {
                    assert(chart_lookup(chart.deep_view(), num, val) == chart_lookup(
                        before,
                        num,
                        val,
                    ) + 1);
                } else {
                    assert(chart_lookup(chart.deep_view(), num, val) == chart_lookup(
                        before,
                        num,
                        val,
                    ));
                }
            }
        }
        j = j + 1;
    }
    assert(odv.subrange(0, odv.len() as int) =~= odv);
    chart
}

} // verus!
