use vstd::prelude::*;
use crate::apex::Legend;
use crate::apex::SquadType;
use crate::observation::Observation;
use crate::time::Timestamp;
use crate::time::is_before;

verus! {

/// Aggregate statistics over the observations a query matched.
#[derive(Clone, Copy, PartialEq, Eq, Structural, Debug)]
pub struct QueryResult {
    pub max_damage: u64,
    pub max_kills: u64,
    pub total_damage: u64,
    pub total_kills: u64,
    pub number_of_matches: u64,
}

/// A composable filter over observations: a set of accepted legends, a set
/// of accepted squad compositions, and an optional exclusive time window.
/// An empty accepted set means "no restriction on that dimension".
pub struct Query {
    pub legends: Vec<Legend>,
    pub squad_types: Vec<SquadType>,
    pub after: Option<Timestamp>,
    pub before: Option<Timestamp>,
}

/// The damage dealt over `s`, summed.
pub open spec fn sum_damage(s: Seq<Observation>) -> int
    decreases s.len(),
{
    if s.len() == 0 {
        0
    } else {
        sum_damage(s.drop_last()) + s.last().damage_dealt
    }
}

/// The kills over `s`, summed.
pub open spec fn sum_kills(s: Seq<Observation>) -> int
    decreases s.len(),
{
    if s.len() == 0 {
        0
    } else {
        sum_kills(s.drop_last()) + s.last().number_of_kills
    }
}

/// The largest damage dealt in any observation of `s`; 0 when `s` is empty.
pub open spec fn max_damage_of(s: Seq<Observation>) -> int
    decreases s.len(),
{
    if s.len() == 0 {
        0
    } else if s.last().damage_dealt > max_damage_of(s.drop_last()) {
        s.last().damage_dealt as int
    } else {
        max_damage_of(s.drop_last())
    }
}

/// The largest kill count in any observation of `s`; 0 when `s` is empty.
pub open spec fn max_kills_of(s: Seq<Observation>) -> int
    decreases s.len(),
{
    if s.len() == 0 {
        0
    } else if s.last().number_of_kills > max_kills_of(s.drop_last()) {
        s.last().number_of_kills as int
    } else {
        max_kills_of(s.drop_last())
    }
}

impl Query {
    /// The set of accepted legends; duplicates collapse and order is
    /// irrelevant. Empty means unrestricted.
    pub open spec fn legend_set(self) -> Set<Legend> {
        self.legends@.to_set()
    }

    /// The set of accepted squad compositions; empty means unrestricted.
    pub open spec fn squad_set(self) -> Set<SquadType> {
        self.squad_types@.to_set()
    }

    /// The legend of `o` is accepted: the accepted set is empty or holds it.
    pub open spec fn legend_passes(self, o: Observation) -> bool {
        self.legend_set() == Set::<Legend>::empty() || self.legend_set().contains(o.legend)
    }

    /// The squad composition of `o` is accepted: the accepted set is empty
    /// or holds it.
    pub open spec fn squad_passes(self, o: Observation) -> bool {
        self.squad_set() == Set::<SquadType>::empty() || self.squad_set().contains(o.squad_type)
    }

    /// `o` lies inside the time window; both bounds are exclusive.
    pub open spec fn time_passes(self, o: Observation) -> bool {
        &&& match self.before {
            Some(b) => is_before(o.at, b),
            None => true,
        }
        &&& match self.after {
            Some(a) => is_before(a, o.at),
            None => true,
        }
    }

    /// `o` passes every active filter of this query.
    pub open spec fn passes(self, o: Observation) -> bool {
        self.legend_passes(o) && self.squad_passes(o) && self.time_passes(o)
    }

    /// The observations of `s` this query matches, in their original order.
    pub open spec fn matching(self, s: Seq<Observation>) -> Seq<Observation>
        decreases s.len(),
    {
        if s.len() == 0 {
            Seq::empty()
        } else if self.passes(s.last()) {
            self.matching(s.drop_last()).push(s.last())
        } else {
            self.matching(s.drop_last())
        }
    }
}

fn contains_legend(v: &Vec<Legend>, x: Legend) -> (r: bool)
    ensures
        r == v@.contains(x),
{
    let mut i: usize = 0;
    while i < v.len()
        invariant
            i <= v@.len(),
            forall|j: int| 0 <= j < i ==> v@[j] != x,
        decreases v@.len() - i,
    {
        if v[i] == x {
            return true;
        }
        i = i + 1;
    }
    false
}

fn contains_squad_type(v: &Vec<SquadType>, x: SquadType) -> (r: bool)
    ensures
        r == v@.contains(x),
{
    let mut i: usize = 0;
    while i < v.len()
        invariant
            i <= v@.len(),
            forall|j: int| 0 <= j < i ==> v@[j] != x,
        decreases v@.len() - i,
    {
        if v[i] == x {
            return true;
        }
        i = i + 1;
    }
    false
}

impl Query {
    /// A query with no restrictions: empty accepted sets and no time window.
    pub fn new() -> (q: Query)
        ensures
            q.legend_set() == Set::<Legend>::empty(),
            q.squad_set() == Set::<SquadType>::empty(),
            q.after is None,
            q.before is None,
    {
        let q = Query { legends: Vec::new(), squad_types: Vec::new(), after: None, before: None };
        proof {
            assert(q.legend_set() =~= Set::<Legend>::empty());
            assert(q.squad_set() =~= Set::<SquadType>::empty());
        }
        q
    }

    /// Accept `legend` in addition to those already accepted.
    pub fn match_legend(self, legend: Legend) -> (r: Query)
        ensures
            r.legend_set() == self.legend_set().insert(legend),
            r.squad_set() == self.squad_set(),
            r.after == self.after,
            r.before == self.before,
    {
        let ghost orig = self;
        let Query { mut legends, squad_types, after, before } = self;
        legends.push(legend);
        proof {
            orig.legends@.lemma_push_to_set_commute(legend);
        }
        Query { legends, squad_types, after, before }
    }

    /// Accept every legend of `legends` in addition to those already
    /// accepted.
    pub fn match_legends(self, legends: &Vec<Legend>) -> (r: Query)
        ensures
            r.legend_set() == self.legend_set() + legends@.to_set(),
            r.squad_set() == self.squad_set(),
            r.after == self.after,
            r.before == self.before,
    {
        let ghost orig = self;
        let mut q = self;
        let mut i: usize = 0;
        proof {
            assert(orig.legend_set() + legends@.take(0).to_set() =~= orig.legend_set());
        }
        while i < legends.len()
            invariant
                i <= legends@.len(),
                q.legend_set() == orig.legend_set() + legends@.take(i as int).to_set(),
                q.squad_set() == orig.squad_set(),
                q.after == orig.after,
                q.before == orig.before,
            decreases legends@.len() - i,
        {
            q = q.match_legend(legends[i]);
            proof {
                assert(legends@.take((i + 1) as int) =~= legends@.take(i as int).push(
                    legends@[i as int],
                ));
                legends@.take(i as int).lemma_push_to_set_commute(legends@[i as int]);
                assert((orig.legend_set() + legends@.take(i as int).to_set()).insert(
                    legends@[i as int],
                ) =~= orig.legend_set() + legends@.take(i as int).to_set().insert(
                    legends@[i as int],
                ));
            }
            i = i + 1;
        }
        proof {
            assert(legends@.take(legends@.len() as int) =~= legends@);
        }
        q
    }

    /// Accept `squad_type` in addition to those already accepted.
    pub fn match_squad_type(self, squad_type: SquadType) -> (r: Query)
        ensures
            r.squad_set() == self.squad_set().insert(squad_type),
            r.legend_set() == self.legend_set(),
            r.after == self.after,
            r.before == self.before,
    {
        let ghost orig = self;
        let Query { legends, mut squad_types, after, before } = self;
        squad_types.push(squad_type);
        proof {
            orig.squad_types@.lemma_push_to_set_commute(squad_type);
        }
        Query { legends, squad_types, after, before }
    }

    /// Accept every squad composition of `squad_types` in addition to those
    /// already accepted.
    pub fn match_squad_types(self, squad_types: &Vec<SquadType>) -> (r: Query)
        ensures
            r.squad_set() == self.squad_set() + squad_types@.to_set(),
            r.legend_set() == self.legend_set(),
            r.after == self.after,
            r.before == self.before,
    {
        let ghost orig = self;
        let mut q = self;
        let mut i: usize = 0;
        proof {
            assert(orig.squad_set() + squad_types@.take(0).to_set() =~= orig.squad_set());
        }
        while i < squad_types.len()
            invariant
                i <= squad_types@.len(),
                q.squad_set() == orig.squad_set() + squad_types@.take(i as int).to_set(),
                q.legend_set() == orig.legend_set(),
                q.after == orig.after,
                q.before == orig.before,
            decreases squad_types@.len() - i,
        {
            q = q.match_squad_type(squad_types[i]);
            proof {
                assert(squad_types@.take((i + 1) as int) =~= squad_types@.take(i as int).push(
                    squad_types@[i as int],
                ));
                squad_types@.take(i as int).lemma_push_to_set_commute(squad_types@[i as int]);
                assert((orig.squad_set() + squad_types@.take(i as int).to_set()).insert(
                    squad_types@[i as int],
                ) =~= orig.squad_set() + squad_types@.take(i as int).to_set().insert(
                    squad_types@[i as int],
                ));
            }
            i = i + 1;
        }
        proof {
            assert(squad_types@.take(squad_types@.len() as int) =~= squad_types@);
        }
        q
    }

    /// Keep only observations recorded strictly later than `after`.
    pub fn after(self, after: Timestamp) -> (r: Query)
        ensures
            r.after == Some(after),
            r.before == self.before,
            r.legend_set() == self.legend_set(),
            r.squad_set() == self.squad_set(),
    {
        Query { after: Some(after), ..self }
    }

    /// Keep only observations recorded strictly earlier than `before`.
    pub fn before(self, before: Timestamp) -> (r: Query)
        ensures
            r.before == Some(before),
            r.after == self.after,
            r.legend_set() == self.legend_set(),
            r.squad_set() == self.squad_set(),
    {
        Query { before: Some(before), ..self }
    }

    /// Whether `o` passes every active filter of this query.
    pub fn matches_observation(&self, o: &Observation) -> (r: bool)
        ensures
            r == self.passes(*o),
    {
        let legend_ok = if self.legends.len() == 0 {
            proof {
                assert(self.legend_set() =~= Set::<Legend>::empty());
            }
            true
        } else {
            proof {
                assert(self.legend_set().contains(self.legends@[0]));
                assert(self.legend_set() != Set::<Legend>::empty());
            }
            contains_legend(&self.legends, o.legend)
        };
        let squad_ok = if self.squad_types.len() == 0 {
            proof {
                assert(self.squad_set() =~= Set::<SquadType>::empty());
            }
            true
        } else {
            proof {
                assert(self.squad_set().contains(self.squad_types@[0]));
                assert(self.squad_set() != Set::<SquadType>::empty());
            }
            contains_squad_type(&self.squad_types, o.squad_type)
        };
        let before_ok = match self.before {
            Some(b) => o.at.earlier_than(&b),
            None => true,
        };
        let after_ok = match self.after {
            Some(a) => a.earlier_than(&o.at),
            None => true,
        };
        legend_ok && squad_ok && before_ok && after_ok
    }
}

proof fn lemma_agg_push(s: Seq<Observation>, o: Observation)
    ensures
        sum_damage(s.push(o)) == sum_damage(s) + o.damage_dealt,
        sum_kills(s.push(o)) == sum_kills(s) + o.number_of_kills,
        max_damage_of(s.push(o)) == if o.damage_dealt > max_damage_of(s) {
            o.damage_dealt as int
        } else {
            max_damage_of(s)
        },
        max_kills_of(s.push(o)) == if o.number_of_kills > max_kills_of(s) {
            o.number_of_kills as int
        } else {
            max_kills_of(s)
        },
{
    assert(s.push(o).drop_last() =~= s);
    assert(s.push(o).last() == o);
}

proof fn lemma_matching_take_step(q: Query, s: Seq<Observation>, i: int)
    requires
        0 <= i < s.len(),
    ensures
        q.matching(s.take(i + 1)) == if q.passes(s[i]) {
            q.matching(s.take(i)).push(s[i])
        } else {
            q.matching(s.take(i))
        },
{
    assert(s.take(i + 1).drop_last() =~= s.take(i));
    assert(s.take(i + 1).last() == s[i]);
}

proof fn lemma_matching_prefix_sums(q: Query, s: Seq<Observation>, i: int)
    requires
        0 <= i <= s.len(),
    ensures
        sum_damage(q.matching(s.take(i))) <= sum_damage(q.matching(s)),
        sum_kills(q.matching(s.take(i))) <= sum_kills(q.matching(s)),
    decreases s.len() - i,
{
    if i == s.len() {
        assert(s.take(i) =~= s);
    } else {
        lemma_matching_take_step(q, s, i);
        if q.passes(s[i]) {
            lemma_agg_push(q.matching(s.take(i)), s[i]);
        }
        lemma_matching_prefix_sums(q, s, i + 1);
    }
}

/// An unrestricted query matches every observation: with both accepted
/// sets empty and no time bounds, the matched sequence is the whole input,
/// so `execute` reports a match count equal to the input's length whenever
/// the input is nonempty.
pub proof fn lemma_unrestricted_query_matches_all(q: Query, s: Seq<Observation>)
    requires
        q.legend_set() == Set::<Legend>::empty(),
        q.squad_set() == Set::<SquadType>::empty(),
        q.after is None,
        q.before is None,
    ensures
        q.matching(s) == s,
    decreases s.len(),
{
    if s.len() == 0 {
        assert(q.matching(s) =~= s);
    } else {
        lemma_unrestricted_query_matches_all(q, s.drop_last());
        assert(q.matching(s) =~= s);
    }
}

/// Filtering by an empty character set is a no-op on that dimension: the
/// character condition holds of every observation, and matching is decided
/// by the remaining dimensions alone.
pub proof fn lemma_empty_character_set_is_no_op(q: Query)
    requires
        q.legend_set() == Set::<Legend>::empty(),
    ensures
        forall|o: Observation| #[trigger] q.passes(o) == (q.squad_passes(o) && q.time_passes(o)),
{
}

/// Filtering by an empty squad-type set is a no-op on that dimension: the
/// squad-composition condition holds of every observation, and matching is
/// decided by the remaining dimensions alone.
pub proof fn lemma_empty_squad_type_set_is_no_op(q: Query)
    requires
        q.squad_set() == Set::<SquadType>::empty(),
    ensures
        forall|o: Observation| #[trigger] q.passes(o) == (q.legend_passes(o) && q.time_passes(o)),
{
}

/// Two queries whose filters agree on every observation match exactly the
/// same records of any input.
pub proof fn lemma_agreeing_queries_match_alike(q1: Query, q2: Query, s: Seq<Observation>)
    requires
        forall|o: Observation| #[trigger] q1.passes(o) == #[trigger] q2.passes(o),
    ensures
        q1.matching(s) == q2.matching(s),
    decreases s.len(),
{
    if s.len() > 0 {
        lemma_agreeing_queries_match_alike(q1, q2, s.drop_last());
    }
}

/// The time bounds are exclusive: an observation recorded exactly at the
/// `after` bound or exactly at the `before` bound is excluded.
pub proof fn lemma_bound_timestamp_excluded(q: Query, o: Observation)
    ensures
        q.after == Some(o.at) ==> !q.passes(o),
        q.before == Some(o.at) ==> !q.passes(o),
{
}

/// `max_damage_of` is the true maximum of a nonempty sequence: it bounds
/// the damage of every observation and is attained by one of them.
pub proof fn lemma_max_damage_is_maximum(s: Seq<Observation>)
    ensures
        forall|i: int| 0 <= i < s.len() ==> #[trigger] s[i].damage_dealt <= max_damage_of(s),
        s.len() > 0 ==> exists|i: int|
            0 <= i < s.len() && #[trigger] s[i].damage_dealt == max_damage_of(s),
    decreases s.len(),
{
    if s.len() > 0 {
        lemma_max_damage_is_maximum(s.drop_last());
        assert(forall|i: int| 0 <= i < s.len() - 1 ==> s[i] == s.drop_last()[i]);
        if s.last().damage_dealt > max_damage_of(s.drop_last()) {
            assert(s[s.len() - 1].damage_dealt == max_damage_of(s));
        } else if s.len() == 1 {
            assert(s[0].damage_dealt == max_damage_of(s));
        } else {
            let j = choose|j: int|
                0 <= j < s.len() - 1 && #[trigger] s.drop_last()[j].damage_dealt == max_damage_of(
                    s.drop_last(),
                );
            assert(s[j].damage_dealt == max_damage_of(s));
        }
    }
}

/// `max_kills_of` is the true maximum of a nonempty sequence: it bounds
/// the kill count of every observation and is attained by one of them.
pub proof fn lemma_max_kills_is_maximum(s: Seq<Observation>)
    ensures
        forall|i: int| 0 <= i < s.len() ==> #[trigger] s[i].number_of_kills <= max_kills_of(s),
        s.len() > 0 ==> exists|i: int|
            0 <= i < s.len() && #[trigger] s[i].number_of_kills == max_kills_of(s),
    decreases s.len(),
{
    if s.len() > 0 {
        lemma_max_kills_is_maximum(s.drop_last());
        assert(forall|i: int| 0 <= i < s.len() - 1 ==> s[i] == s.drop_last()[i]);
        if s.last().number_of_kills > max_kills_of(s.drop_last()) {
            assert(s[s.len() - 1].number_of_kills == max_kills_of(s));
        } else if s.len() == 1 {
            assert(s[0].number_of_kills == max_kills_of(s));
        } else {
            let j = choose|j: int|
                0 <= j < s.len() - 1 && #[trigger] s.drop_last()[j].number_of_kills
                    == max_kills_of(s.drop_last());
            assert(s[j].number_of_kills == max_kills_of(s));
        }
    }
}

impl Query {
    /// One forward pass over `records`: fold every observation this query
    /// matches into totals, maxima and a count. Returns `None` exactly when
    /// no record matches; otherwise every field of the result is pinned to
    /// the matched subsequence.
    pub fn execute(&self, records: &Vec<Observation>) -> (r: Option<QueryResult>)
        requires
            sum_damage(self.matching(records@)) <= u64::MAX,
            sum_kills(self.matching(records@)) <= u64::MAX,
        ensures
            match r {
                Some(qr) => {
                    &&& self.matching(records@).len() > 0
                    &&& qr.number_of_matches == self.matching(records@).len()
                    &&& qr.total_damage == sum_damage(self.matching(records@))
                    &&& qr.total_kills == sum_kills(self.matching(records@))
                    &&& qr.max_damage == max_damage_of(self.matching(records@))
                    &&& qr.max_kills == max_kills_of(self.matching(records@))
                },
                None => self.matching(records@).len() == 0,
            },
    {
        let mut total_damage: u64 = 0;
        let mut total_kills: u64 = 0;
        let mut max_damage: u64 = 0;
        let mut max_kills: u64 = 0;
        let mut count: u64 = 0;
        let mut i: usize = 0;
        proof {
            assert(records@.take(0) =~= Seq::<Observation>::empty());
        }
        while i < records.len()
            invariant
                i <= records@.len(),
                sum_damage(self.matching(records@)) <= u64::MAX,
                sum_kills(self.matching(records@)) <= u64::MAX,
                total_damage == sum_damage(self.matching(records@.take(i as int))),
                total_kills == sum_kills(self.matching(records@.take(i as int))),
                max_damage == max_damage_of(self.matching(records@.take(i as int))),
                max_kills == max_kills_of(self.matching(records@.take(i as int))),
                count == self.matching(records@.take(i as int)).len(),
                count <= i,
            decreases records@.len() - i,
        {
            let o = &records[i];
            let p = self.matches_observation(o);
            proof {
                lemma_matching_take_step(*self, records@, i as int);
            }
            if p {
                proof {
                    lemma_agg_push(self.matching(records@.take(i as int)), records@[i as int]);
                    lemma_matching_prefix_sums(*self, records@, i + 1);
                }
                total_damage = total_damage + o.damage_dealt;
                total_kills = total_kills + o.number_of_kills;
                if max_damage < o.damage_dealt {
                    max_damage = o.damage_dealt;
                }
                if max_kills < o.number_of_kills {
                    max_kills = o.number_of_kills;
                }
                count = count + 1;
            }
            i = i + 1;
        }
        proof {
            assert(records@.take(records@.len() as int) =~= records@);
        }
        if count == 0 {
            None
        } else {
            Some(
                QueryResult {
                    max_damage,
                    max_kills,
                    total_damage,
                    total_kills,
                    number_of_matches: count,
                },
            )
        }
    }
}

} // verus!
