//! Events and the filters that pick them.

use vstd::prelude::*;

use crate::json::{Json, JsonView};

verus! {

/// Where an event comes from, as far as it matters here.
#[derive(Clone, Copy, Debug, PartialEq, Eq, Structural)]
pub enum EventSource {
    A11yUia,
    A11yWinEvent,
    A11yCdp,
    Filesystem,
}

/// What must hold of a value. What is not looked at here is carried along as a `Q`.
#[allow(inconsistent_fields)]
#[derive(Debug, PartialEq, Eq)]
pub enum DataPredicate<Q> {
    Eq { value: Json },
    Ge { value: Json },
    Regex { pattern: String },
    Other { predicate: Q },
}

/// Which events to pick. A source that is not looked at here is carried along as a `U`.
#[allow(inconsistent_fields)]
#[derive(Debug, PartialEq, Eq)]
pub enum EventFilter<U, Q> {
    Everything,
    Nothing,
    And { args: Vec<EventFilter<U, Q>> },
    Or { args: Vec<EventFilter<U, Q>> },
    Not { arg: Box<EventFilter<U, Q>> },
    Source { source: EventSource },
    OtherSource { source: U },
    Kind { kind: String },
    Data { path: String, predicate: DataPredicate<Q> },
}

/// What must hold of a value, with texts as sequences of characters.
pub enum PredicateView<Q> {
    Eq(JsonView),
    Ge(JsonView),
    Regex(Seq<char>),
    Other(Q),
}

/// A filter, with texts as sequences of characters.
pub enum FilterView<U, Q> {
    Everything,
    Nothing,
    And(Seq<FilterView<U, Q>>),
    Or(Seq<FilterView<U, Q>>),
    Not(Box<FilterView<U, Q>>),
    Source(EventSource),
    OtherSource(U),
    Kind(Seq<char>),
    Data(Seq<char>, PredicateView<Q>),
}

impl<Q> View for DataPredicate<Q> {
    type V = PredicateView<Q>;

    open spec fn view(&self) -> PredicateView<Q> {
        match *self {
            DataPredicate::Eq { value } => PredicateView::Eq(value@),
            DataPredicate::Ge { value } => PredicateView::Ge(value@),
            DataPredicate::Regex { pattern } => PredicateView::Regex(pattern@),
            DataPredicate::Other { predicate } => PredicateView::Other(predicate),
        }
    }
}

/// The mathematical value of a filter.
pub open spec fn filter_view<U, Q>(filter: EventFilter<U, Q>) -> FilterView<U, Q>
    decreases filter,
{
    match filter {
        EventFilter::Everything => FilterView::Everything,
        EventFilter::Nothing => FilterView::Nothing,
        EventFilter::And { args } => FilterView::And(
            Seq::new(
                args@.len(),
                |i: int|
                    if 0 <= i < args@.len() {
                        filter_view(args@[i])
                    } else {
                        FilterView::Nothing
                    },
            ),
        ),
        EventFilter::Or { args } => FilterView::Or(
            Seq::new(
                args@.len(),
                |i: int|
                    if 0 <= i < args@.len() {
                        filter_view(args@[i])
                    } else {
                        FilterView::Nothing
                    },
            ),
        ),
        EventFilter::Not { arg } => FilterView::Not(Box::new(filter_view(*arg))),
        EventFilter::Source { source } => FilterView::Source(source),
        EventFilter::OtherSource { source } => FilterView::OtherSource(source),
        EventFilter::Kind { kind } => FilterView::Kind(kind@),
        EventFilter::Data { path, predicate } => FilterView::Data(path@, predicate@),
    }
}

impl<U, Q> View for EventFilter<U, Q> {
    type V = FilterView<U, Q>;

    open spec fn view(&self) -> FilterView<U, Q> {
        filter_view(*self)
    }
}

/// The filters of an alternative or a conjunction.
pub open spec fn args_of<U, Q>(filter: EventFilter<U, Q>) -> Seq<EventFilter<U, Q>> {
    match filter {
        EventFilter::And { args } => args@,
        EventFilter::Or { args } => args@,
        _ => Seq::empty(),
    }
}

/// A filter within another is smaller.
pub proof fn lemma_arg_is_smaller<U, Q>(filter: EventFilter<U, Q>, i: int)
    requires
        0 <= i < args_of(filter).len(),
    ensures
        decreases_to!(filter => args_of(filter)[i]),
{
    match filter {
        EventFilter::And { args } => {
            assert(decreases_to!(filter => filter->And_args));
            assert(decreases_to!(args => args@));
            assert(decreases_to!(args@ => args@[i]));
        },
        EventFilter::Or { args } => {
            assert(decreases_to!(filter => filter->Or_args));
            assert(decreases_to!(args => args@));
            assert(decreases_to!(args@ => args@[i]));
        },
        _ => {},
    }
}

} // verus!
