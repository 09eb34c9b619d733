//! Finding elements and entities.
//!
//! Whether and how well a node or an entity matches a query is decided outside; here the matches are
//! brought together, the best first.

use vstd::prelude::*;

use crate::geometry::Rect;
use crate::ieee::Real32;
use crate::m1::observation::ElementId;
use crate::order::{descending_order, ints, is_descending_order, positions};
use crate::text::clone_optional;

verus! {

/// What to look for.
#[derive(Debug)]
pub struct FindParams {
    pub query: Option<String>,
    pub role: Option<String>,
    pub name_substring: Option<String>,
    pub automation_id: Option<String>,
    pub scope: Option<FindScope>,
    pub limit: Option<usize>,
    pub in_window: Option<ElementId>,
    pub window_hwnd: Option<i64>,
}

impl Default for FindParams {
    fn default() -> (r: Self)
        ensures
            r.query is None,
            r.role is None,
            r.name_substring is None,
            r.automation_id is None,
            r.scope is None,
            r.limit is None,
            r.in_window is None,
            r.window_hwnd is None,
    {
        FindParams {
            query: None,
            role: None,
            name_substring: None,
            automation_id: None,
            scope: None,
            limit: None,
            in_window: None,
            window_hwnd: None,
        }
    }
}

/// Where to look.
#[derive(Clone, Copy, Debug, PartialEq, Eq, Structural)]
pub enum FindScope {
    Elements,
    Entities,
    Both,
}

impl Default for FindScope {
    fn default() -> (r: Self)
        ensures
            r == FindScope::Both,
    {
        FindScope::Both
    }
}

/// What was found.
#[derive(Clone, Copy, Debug, PartialEq, Eq, Structural)]
pub enum FindResultKind {
    Element,
    Entity,
}

/// One match.
#[derive(Debug, PartialEq, Eq)]
pub struct FindResult {
    pub kind: FindResultKind,
    pub element_id: Option<ElementId>,
    pub entity_id: Option<String>,
    pub name: Option<String>,
    pub role: Option<String>,
    pub automation_id: Option<String>,
    pub class_label: Option<String>,
    pub bbox: Rect,
    pub score: Real32,
}

impl Clone for FindResult {
    fn clone(&self) -> (r: Self)
        ensures
            r == *self,
    {
        FindResult {
            kind: self.kind,
            element_id: match &self.element_id {
                Some(id) => Some(id.clone()),
                None => None,
            },
            entity_id: clone_optional(&self.entity_id),
            name: clone_optional(&self.name),
            role: clone_optional(&self.role),
            automation_id: clone_optional(&self.automation_id),
            class_label: clone_optional(&self.class_label),
            bbox: self.bbox,
            score: self.score,
        }
    }
}

/// The matches, the best first.
#[derive(Debug)]
pub struct FindResponse {
    pub results: Vec<FindResult>,
}

/// The matches among the candidates, in order.
pub open spec fn found(candidates: Seq<Option<FindResult>>) -> Seq<FindResult>
    decreases candidates.len(),
{
    if candidates.len() == 0 {
        Seq::empty()
    } else {
        match candidates.last() {
            Some(result) => found(candidates.drop_last()).push(result),
            None => found(candidates.drop_last()),
        }
    }
}

/// Where a query looks.
pub open spec fn scope_of(scope: Option<FindScope>) -> FindScope {
    match scope {
        Some(scope) => scope,
        None => FindScope::Both,
    }
}

/// The number of matches that are reported: the one asked for between one and twenty, five by
/// default.
pub open spec fn find_limit(limit: Option<usize>) -> usize {
    match limit {
        None => 5,
        Some(n) => if n < 1 {
            1
        } else if n > 20 {
            20
        } else {
            n
        },
    }
}

/// The matches in the scope of a query: elements before entities.
pub open spec fn in_scope(
    scope: FindScope,
    elements: Seq<Option<FindResult>>,
    entities: Seq<Option<FindResult>>,
) -> Seq<FindResult> {
    match scope {
        FindScope::Elements => found(elements),
        FindScope::Entities => found(entities),
        FindScope::Both => found(elements) + found(entities),
    }
}

/// The scores, as numbers that order as they do.
pub open spec fn ranks(results: Seq<FindResult>) -> Seq<int> {
    Seq::new(results.len(), |i: int| results[i].score.total_rank())
}

/// The results are the best matches, best first and in order among equals, at most `limit` of them.
pub open spec fn are_best(results: Seq<FindResult>, matches: Seq<FindResult>, limit: usize) -> bool {
    exists|order: Seq<int>|
        #![trigger is_descending_order(ranks(matches), order)]
        {
            &&& is_descending_order(ranks(matches), order)
            &&& results.len() == if matches.len() <= limit {
                matches.len()
            } else {
                limit as nat
            }
            &&& forall|i: int|
                0 <= i < results.len() ==> #[trigger] results[i] == matches[order[i]]
        }
}

fn collect_found(candidates: Vec<Option<FindResult>>, results: &mut Vec<FindResult>)
    ensures
        final(results)@ == old(results)@ + found(candidates@),
{
    let ghost all = candidates@;
    let ghost before = results@;
    for candidate in it: candidates
        invariant
            it.seq() == all,
            results@ == before + found(all.subrange(0, it.index() as int)),
    {
        proof {
            let i = it.index() as int;
            assert(all.subrange(0, i + 1).drop_last() =~= all.subrange(0, i));
            assert(all.subrange(0, i + 1).last() == all[i]);
        }
        if let Some(result) = candidate {
            results.push(result);
        }
    }
    assert(all.subrange(0, all.len() as int) =~= all);
}

/// Brings the matches of a query together. `elements` and `entities` are what the query makes of each
/// element and of each entity.
pub fn match_find_input(
    params: &FindParams,
    elements: Vec<Option<FindResult>>,
    entities: Vec<Option<FindResult>>,
) -> (r: FindResponse)
    ensures
        are_best(
            r.results@,
            in_scope(scope_of(params.scope), elements@, entities@),
            find_limit(params.limit),
        ),
{
    let limit: usize = match params.limit {
        None => 5,
        Some(n) => if n < 1 {
            1
        } else if n > 20 {
            20
        } else {
            n
        },
    };
    let scope: FindScope = match params.scope {
        Some(scope) => scope,
        None => FindScope::Both,
    };
    let ghost wanted = in_scope(scope, elements@, entities@);
    let mut matches: Vec<FindResult> = Vec::new();
    if scope != FindScope::Entities {
        collect_found(elements, &mut matches);
    }
    if scope != FindScope::Elements {
        collect_found(entities, &mut matches);
    }
    assert(matches@ =~= wanted);
    let mut keys: Vec<i128> = Vec::new();
    let mut i: usize = 0;
    while i < matches.len()
        invariant
            i <= matches@.len(),
            keys@.len() == i,
            forall|k: int| 0 <= k < i ==> #[trigger] keys@[k] == matches@[k].score.total_rank(),
        decreases matches@.len() - i,
    {
        keys.push(matches[i].score.total_rank_of() as i128);
        i += 1;
    }
    assert(ints(keys@) =~= ranks(matches@));
    let order = descending_order(&keys);
    let mut results: Vec<FindResult> = Vec::new();
    while results.len() < limit && results.len() < order.len()
        invariant
            order@.len() == matches@.len(),
            forall|k: int| 0 <= k < order@.len() ==> (#[trigger] order@[k]) < matches@.len(),
            results@.len() <= limit,
            results@.len() <= order@.len(),
            forall|k: int|
                0 <= k < results@.len() ==> #[trigger] results@[k] == matches@[positions(
                    order@,
                )[k]],
        decreases limit - results@.len(),
    {
        let position: usize = order[results.len()];
        results.push(matches[position].clone());
    }
    assert(is_descending_order(ranks(matches@), positions(order@)));
    FindResponse { results }
}

// ---------------------------------------------------------------------------------------------
// Laws
// ---------------------------------------------------------------------------------------------

/// The matches come best first.
pub proof fn law_best_match_comes_first(
    results: Seq<FindResult>,
    matches: Seq<FindResult>,
    limit: usize,
    i: int,
    j: int,
)
    requires
        are_best(results, matches, limit),
        0 <= i < j < results.len(),
    ensures
        results[i].score.total_rank() >= results[j].score.total_rank(),
        matches.contains(results[i]),
{
    let order = choose|order: Seq<int>|
        #![trigger is_descending_order(ranks(matches), order)]
        {
            &&& is_descending_order(ranks(matches), order)
            &&& results.len() == if matches.len() <= limit {
                matches.len()
            } else {
                limit as nat
            }
            &&& forall|i: int|
                0 <= i < results.len() ==> #[trigger] results[i] == matches[order[i]]
        };
    assert(crate::order::ranks_before(ranks(matches), order[i], order[j]));
    assert(results[i] == matches[order[i]]);
    assert(results[j] == matches[order[j]]);
}

/// At least one and at most twenty matches are reported, where there are any.
pub proof fn law_find_reports_within_limits(
    results: Seq<FindResult>,
    matches: Seq<FindResult>,
    limit: Option<usize>,
)
    requires
        are_best(results, matches, find_limit(limit)),
    ensures
        results.len() <= 20,
        results.len() <= matches.len(),
        matches.len() > 0 ==> results.len() > 0,
{
}

/// How many matches are reported: as many as the caller asks for where there are that many, with one in
/// place of none and twenty in place of more; five where the caller does not say.
pub proof fn law_find_reports_as_many_as_asked(
    results: Seq<FindResult>,
    matches: Seq<FindResult>,
    limit: Option<usize>,
)
    requires
        are_best(results, matches, find_limit(limit)),
    ensures
        ({
            let n = matches.len() as int;
            let least = |a: int| if a < n {
                a
            } else {
                n
            };
            &&& limit is None ==> results.len() == least(5)
            &&& limit matches Some(k) ==> {
                &&& 1 <= k <= 20 ==> results.len() == least(k as int)
                &&& k == 0 ==> results.len() == least(1)
                &&& k > 20 ==> results.len() == least(20)
            }
        }),
{
}

/// No match that is left out for the limit is better than one that is reported, and no match is
/// reported twice: the reported ones are at different places of the list.
pub proof fn law_find_leaves_out_none_that_is_better(
    results: Seq<FindResult>,
    matches: Seq<FindResult>,
    limit: usize,
) -> (places: Seq<int>)
    requires
        are_best(results, matches, limit),
    ensures
        places.len() == results.len(),
        places.no_duplicates(),
        forall|i: int|
            0 <= i < results.len() ==> 0 <= #[trigger] places[i] < matches.len() && results[i]
                == matches[places[i]],
        forall|i: int, w: int|
            0 <= i < results.len() && 0 <= w < matches.len() && !places.contains(w)
                ==> (#[trigger] results[i]).score.total_rank() >= (
            #[trigger] matches[w]).score.total_rank(),
{
    let keys = ranks(matches);
    let order = choose|order: Seq<int>|
        #![trigger is_descending_order(ranks(matches), order)]
        {
            &&& is_descending_order(ranks(matches), order)
            &&& results.len() == if matches.len() <= limit {
                matches.len()
            } else {
                limit as nat
            }
            &&& forall|i: int|
                0 <= i < results.len() ==> #[trigger] results[i] == matches[order[i]]
        };
    let places = order.take(results.len() as int);
    crate::order::law_order_repeats_nothing(keys, order);
    assert forall|i: int, w: int|
        0 <= i < results.len() && 0 <= w < matches.len() && !places.contains(w) implies (
    #[trigger] results[i]).score.total_rank() >= (#[trigger] matches[w]).score.total_rank() by {
        crate::order::law_order_misses_nothing(keys, order, w);
        let p = choose|p: int| 0 <= p < order.len() && order[p] == w;
        if p < results.len() {
            assert(places[p] == w);
        }
        assert(crate::order::ranks_before(keys, order[i], order[p]));
        assert(results[i] == matches[order[i]]);
    }
    places
}

/// Where a query looks: among the elements, the entities, or both where it asks for both or does not
/// say; and every candidate that matches there is one of the matches.
pub proof fn law_find_looks_where_it_is_asked_to(
    scope: Option<FindScope>,
    elements: Seq<Option<FindResult>>,
    entities: Seq<Option<FindResult>>,
    m: FindResult,
)
    ensures
        in_scope(scope_of(scope), elements, entities).contains(m) <==> (scope != Some(
            FindScope::Entities,
        ) && elements.contains(Some(m))) || (scope != Some(FindScope::Elements)
            && entities.contains(Some(m))),
{
    lemma_found(elements, m);
    lemma_found(entities, m);
    let a = found(elements);
    let b = found(entities);
    if a.contains(m) {
        let i = choose|i: int| 0 <= i < a.len() && a[i] == m;
        assert((a + b)[i] == m);
    }
    if b.contains(m) {
        let i = choose|i: int| 0 <= i < b.len() && b[i] == m;
        assert((a + b)[a.len() + i] == m);
    }
    if (a + b).contains(m) {
        let i = choose|i: int| 0 <= i < (a + b).len() && (a + b)[i] == m;
        if i < a.len() {
            assert(a[i] == m);
        } else {
            assert(b[i - a.len()] == m);
        }
    }
}

proof fn lemma_found(candidates: Seq<Option<FindResult>>, m: FindResult)
    ensures
        found(candidates).contains(m) <==> candidates.contains(Some(m)),
    decreases candidates.len(),
{
    if candidates.len() > 0 {
        let rest = candidates.drop_last();
        lemma_found(rest, m);
        if candidates.contains(Some(m)) {
            let i = choose|i: int| 0 <= i < candidates.len() && candidates[i] == Some(m);
            if i < rest.len() {
                assert(rest[i] == Some(m));
            }
        }
        if rest.contains(Some(m)) {
            let i = choose|i: int| 0 <= i < rest.len() && rest[i] == Some(m);
            assert(candidates[i] == Some(m));
        }
        if found(rest).contains(m) {
            let i = choose|i: int| 0 <= i < found(rest).len() && found(rest)[i] == m;
            assert(found(candidates)[i] == m);
        }
        if candidates.last() == Some(m) {
            assert(candidates[candidates.len() - 1] == Some(m));
            assert(found(candidates)[found(rest).len() as int] == m);
        }
        if found(candidates).contains(m) {
            let i = choose|i: int| 0 <= i < found(candidates).len() && found(candidates)[i] == m;
            if i < found(rest).len() {
                assert(found(rest)[i] == m);
            }
        }
    }
}

/// Every match among the candidates is counted, and nothing else.
pub proof fn law_find_counts_every_match(candidates: Seq<Option<FindResult>>)
    ensures
        found(candidates).len() == candidates.filter(|c: Option<FindResult>| c is Some).len(),
    decreases candidates.len(),
{
    reveal(Seq::filter);
    if candidates.len() > 0 {
        law_find_counts_every_match(candidates.drop_last());
    }
}

/// What a find gives: of the candidates that match where the caller looks, the best ones, best first,
/// exactly as many as the caller's number where there are that many (one in place of none, twenty in
/// place of more, five where the caller gives none). Each is one of the matches, and none that is left
/// out is better than one that is given.
pub proof fn law_find_gives_the_best_as_asked(
    params: &FindParams,
    elements: Vec<Option<FindResult>>,
    entities: Vec<Option<FindResult>>,
    r: FindResponse,
    m: FindResult,
)
    requires
        call_ensures(match_find_input, (params, elements, entities), r),
    ensures
        ({
            let hit = |c: Option<FindResult>| c is Some;
            let n = if params.scope == Some(FindScope::Elements) {
                elements@.filter(hit).len() as int
            } else if params.scope == Some(FindScope::Entities) {
                entities@.filter(hit).len() as int
            } else {
                (elements@.filter(hit).len() + entities@.filter(hit).len()) as int
            };
            let matches_there = (params.scope != Some(FindScope::Entities) && elements@.contains(
                Some(m),
            )) || (params.scope != Some(FindScope::Elements) && entities@.contains(Some(m)));
            let given = r.results@;
            &&& (params.limit matches Some(k) ==> 1 <= k <= 20 ==> given.len() == if k < n {
                k as int
            } else {
                n
            })
            &&& (params.limit == Some(0usize) && n > 0 ==> given.len() == 1)
            &&& (params.limit matches Some(k) ==> k > 20 ==> given.len() == if 20 < n {
                20
            } else {
                n
            })
            &&& (params.limit is None ==> given.len() == if 5 < n {
                5
            } else {
                n
            })
            &&& (given.contains(m) ==> matches_there)
            &&& (matches_there && !given.contains(m) ==> forall|i: int|
                0 <= i < given.len() ==> (#[trigger] given[i]).score.total_rank()
                    >= m.score.total_rank())
            &&& forall|i: int, j: int|
                0 <= i < j < given.len() ==> (#[trigger] given[i]).score.total_rank() >= (
                #[trigger] given[j]).score.total_rank()
        }),
{
    let given = r.results@;
    let all = in_scope(scope_of(params.scope), elements@, entities@);
    law_find_counts_every_match(elements@);
    law_find_counts_every_match(entities@);
    law_find_looks_where_it_is_asked_to(params.scope, elements@, entities@, m);
    let places = law_find_leaves_out_none_that_is_better(given, all, find_limit(params.limit));
    if given.contains(m) {
        let i = choose|i: int| 0 <= i < given.len() && given[i] == m;
        assert(all[places[i]] == m);
    }
    if all.contains(m) && !given.contains(m) {
        let w = choose|w: int| 0 <= w < all.len() && all[w] == m;
        if places.contains(w) {
            let i = choose|i: int| 0 <= i < places.len() && places[i] == w;
            assert(given[i] == m);
        }
        assert forall|i: int| 0 <= i < given.len() implies (
        #[trigger] given[i]).score.total_rank() >= m.score.total_rank() by {
            assert(given[i].score.total_rank() >= all[w].score.total_rank());
        }
    }
    let keys = ranks(all);
    let order = choose|order: Seq<int>|
        #![trigger is_descending_order(ranks(all), order)]
        is_descending_order(ranks(all), order) && given.len() == (if all.len() <= find_limit(
            params.limit,
        ) {
            all.len()
        } else {
            find_limit(params.limit) as nat
        }) && forall|i: int| 0 <= i < given.len() ==> #[trigger] given[i] == all[order[i]];
    assert forall|i: int, j: int| 0 <= i < j < given.len() implies (
    #[trigger] given[i]).score.total_rank() >= (#[trigger] given[j]).score.total_rank() by {
        assert(crate::order::ranks_before(keys, order[i], order[j]));
        assert(given[i] == all[order[i]] && given[j] == all[order[j]]);
    }
}

} // verus!
