//! Cardinality dispatch: one selection and one value function, read in the
//! shape that the requested type asks for.

use vstd::prelude::*;
use vstd::string::to_string_from_display_ensures;
use scraper::ElementRef;
use scraper::error::SelectorErrorKind;
use crate::dom::{parse_selector, parsed_selector};
use crate::error::ErrorKind;
use crate::extract::Context;

verus! {

/// The value function `f` may be applied to each of `nodes`.
pub open spec fn applicable<'a, T, F>(f: F, nodes: Seq<ElementRef<'a>>) -> bool where
    F: Fn(ElementRef<'a>) -> Result<T, ErrorKind>,
 {
    forall|i: int| 0 <= i < nodes.len() ==> call_requires(f, (#[trigger] nodes[i],))
}

/// What the value function `f` may return for an element, as a relation
/// between the element and the outcome.
pub open spec fn outcomes<'a, T, F>(f: F) -> spec_fn(ElementRef<'a>, Result<T, ErrorKind>) -> bool where
    F: Fn(ElementRef<'a>) -> Result<T, ErrorKind>,
 {
    |el: ElementRef<'a>, out: Result<T, ErrorKind>| call_ensures(f, (el,), out)
}

/// What is left of a value function's outcome once its failure is dropped.
pub open spec fn tolerated<T>(outcome: Result<T, ErrorKind>) -> Option<T> {
    match outcome {
        Ok(value) => Some(value),
        Err(_) => None,
    }
}

/// The value function may return some value, not a failure, for `node`.
pub open spec fn may_succeed<'a, T>(
    outcome: spec_fn(ElementRef<'a>, Result<T, ErrorKind>) -> bool,
    node: ElementRef<'a>,
) -> bool {
    exists|value: T| #[trigger] outcome(node, Ok(value))
}

/// `slot` is what some outcome of the value function for `node` leaves once
/// its failure is dropped.
pub open spec fn may_leave<'a, T>(
    outcome: spec_fn(ElementRef<'a>, Result<T, ErrorKind>) -> bool,
    node: ElementRef<'a>,
    slot: Option<T>,
) -> bool {
    exists|out: Result<T, ErrorKind>| #[trigger] outcome(node, out) && slot == tolerated(out)
}

/// A shape that the matches of a selector can be read in.
///
/// `T` is what the value function extracts from one element; the implementing
/// type decides how many matches are wanted and which failures are tolerated.
pub trait FromSelect<T>: Sized {
    /// Whether `result` is what this shape makes of the matches `nodes` when
    /// `outcome` tells what the value function may return for an element.
    spec fn yields<'a>(
        nodes: Seq<ElementRef<'a>>,
        outcome: spec_fn(ElementRef<'a>, Result<T, ErrorKind>) -> bool,
        result: Result<Self, ErrorKind>,
    ) -> bool;

    /// Reads the matches `select`, in the order given, in this shape.
    fn from_select<'a, F>(select: Vec<ElementRef<'a>>, f: F) -> (result: Result<Self, ErrorKind>) where
        F: Fn(ElementRef<'a>) -> Result<T, ErrorKind>,

        requires
            applicable(f, select@),
        ensures
            Self::yields(select@, outcomes(f), result),
    ;

    /// Compiles `selector`, applies it to `selectable` and reads the matches in
    /// this shape. A selector that does not compile is an `InvalidSelector`
    /// carrying the parser's message, whatever the shape.
    fn from_selectable<'a, S, F>(selectable: S, selector: &str, f: F) -> (result: Result<
        Self,
        ErrorKind,
    >) where S: Context<'a>, F: Fn(ElementRef<'a>) -> Result<T, ErrorKind>
        requires
            forall|el: ElementRef<'a>| call_requires(f, (el,)),
        ensures
            match parsed_selector(selector@) {
                Ok(compiled) => Self::yields(selectable.matches(compiled), outcomes(f), result),
                Err(cause) => result is Err && result->Err_0 is InvalidSelector
                    && to_string_from_display_ensures::<SelectorErrorKind>(
                    &cause,
                    result->Err_0->InvalidSelector_0,
                ),
            },
    {
        match parse_selector(selector) {
            Ok(compiled) => {
                let select = selectable.select_all(&compiled);
                Self::from_select(select, f)
            },
            Err(cause) => Err(ErrorKind::InvalidSelector(cause.to_string())),
        }
    }
}

/// Exactly one value: the first match is required and its failure is the call's.
impl<T> FromSelect<T> for T {
    open spec fn yields<'a>(
        nodes: Seq<ElementRef<'a>>,
        outcome: spec_fn(ElementRef<'a>, Result<T, ErrorKind>) -> bool,
        result: Result<Self, ErrorKind>,
    ) -> bool {
        if nodes.len() == 0 {
            result is Err && result->Err_0 is ElementNotFound
        } else {
            outcome(nodes[0], result)
        }
    }

    fn from_select<'a, F>(select: Vec<ElementRef<'a>>, f: F) -> (result: Result<Self, ErrorKind>) where
        F: Fn(ElementRef<'a>) -> Result<T, ErrorKind>,
     {
        if select.len() == 0 {
            Err(ErrorKind::ElementNotFound)
        } else {
            f(select[0])
        }
    }
}

/// At most one value: no match and a failing value function both give `None`.
impl<T> FromSelect<T> for Option<T> {
    open spec fn yields<'a>(
        nodes: Seq<ElementRef<'a>>,
        outcome: spec_fn(ElementRef<'a>, Result<T, ErrorKind>) -> bool,
        result: Result<Self, ErrorKind>,
    ) -> bool {
        &&& result is Ok
        &&& if nodes.len() == 0 {
            result->Ok_0 is None
        } else {
            may_leave(outcome, nodes[0], result->Ok_0)
        }
    }

    fn from_select<'a, F>(select: Vec<ElementRef<'a>>, f: F) -> (result: Result<Self, ErrorKind>) where
        F: Fn(ElementRef<'a>) -> Result<T, ErrorKind>,
     {
        if select.len() == 0 {
            Ok(None)
        } else {
            let out = f(select[0]);
            assert(outcomes(f)(select@[0], out));
            match out {
                Ok(value) => Ok(Some(value)),
                Err(_) => Ok(None),
            }
        }
    }
}

/// One value or its failure: no match is kept as `ElementNotFound` inside the
/// value, and so is whatever the value function returns for the first match.
impl<T> FromSelect<T> for Result<T, ErrorKind> {
    open spec fn yields<'a>(
        nodes: Seq<ElementRef<'a>>,
        outcome: spec_fn(ElementRef<'a>, Result<T, ErrorKind>) -> bool,
        result: Result<Self, ErrorKind>,
    ) -> bool {
        &&& result is Ok
        &&& if nodes.len() == 0 {
            result->Ok_0 is Err && result->Ok_0->Err_0 is ElementNotFound
        } else {
            outcome(nodes[0], result->Ok_0)
        }
    }

    fn from_select<'a, F>(select: Vec<ElementRef<'a>>, f: F) -> (result: Result<Self, ErrorKind>) where
        F: Fn(ElementRef<'a>) -> Result<T, ErrorKind>,
     {
        if select.len() == 0 {
            Ok(Err(ErrorKind::ElementNotFound))
        } else {
            Ok(f(select[0]))
        }
    }
}

/// Every value: the value function is applied to the matches in order, and
/// its first failure ends the call with that failure.
impl<T> FromSelect<T> for Vec<T> {
    open spec fn yields<'a>(
        nodes: Seq<ElementRef<'a>>,
        outcome: spec_fn(ElementRef<'a>, Result<T, ErrorKind>) -> bool,
        result: Result<Self, ErrorKind>,
    ) -> bool {
        match result {
            Ok(values) => {
                &&& values@.len() == nodes.len()
                &&& forall|i: int|
                    0 <= i < nodes.len() ==> outcome(nodes[i], Ok(#[trigger] values@[i]))
            },
            Err(kind) => exists|k: int|
                {
                    &&& 0 <= k < nodes.len()
                    &&& #[trigger] outcome(nodes[k], Err(kind))
                    &&& forall|i: int| 0 <= i < k ==> may_succeed(outcome, #[trigger] nodes[i])
                },
        }
    }

    fn from_select<'a, F>(select: Vec<ElementRef<'a>>, f: F) -> (result: Result<Self, ErrorKind>) where
        F: Fn(ElementRef<'a>) -> Result<T, ErrorKind>,
     {
        let mut values: Vec<T> = Vec::new();
        let mut at: usize = 0;
        while at < select.len()
            invariant
                at <= select.len(),
                applicable(f, select@),
                values@.len() == at,
                forall|i: int| 0 <= i < at ==> outcomes(f)(select@[i], Ok(#[trigger] values@[i])),
            decreases select.len() - at,
        {
            let out = f(select[at]);
            assert(outcomes(f)(select@[at as int], out));
            match out {
                Ok(value) => {
                    values.push(value);
                },
                Err(kind) => {
                    assert forall|i: int| 0 <= i < at implies may_succeed(
                        outcomes(f),
                        #[trigger] select@[i],
                    ) by {
                        assert(outcomes(f)(select@[i], Ok(values@[i])));
                    }
                    return Err(kind);
                },
            }
            at += 1;
        }
        Ok(values)
    }
}

/// Every value that can be had: a failing match leaves `None` at its place.
impl<T> FromSelect<T> for Vec<Option<T>> {
    open spec fn yields<'a>(
        nodes: Seq<ElementRef<'a>>,
        outcome: spec_fn(ElementRef<'a>, Result<T, ErrorKind>) -> bool,
        result: Result<Self, ErrorKind>,
    ) -> bool {
        &&& result is Ok
        &&& result->Ok_0@.len() == nodes.len()
        &&& forall|i: int|
            0 <= i < nodes.len() ==> may_leave(outcome, nodes[i], #[trigger] result->Ok_0@[i])
    }

    fn from_select<'a, F>(select: Vec<ElementRef<'a>>, f: F) -> (result: Result<Self, ErrorKind>) where
        F: Fn(ElementRef<'a>) -> Result<T, ErrorKind>,
     {
        let mut values: Vec<Option<T>> = Vec::new();
        let mut at: usize = 0;
        while at < select.len()
            invariant
                at <= select.len(),
                applicable(f, select@),
                values@.len() == at,
                forall|i: int|
                    0 <= i < at ==> may_leave(outcomes(f), select@[i], #[trigger] values@[i]),
            decreases select.len() - at,
        {
            let out = f(select[at]);
            assert(outcomes(f)(select@[at as int], out));
            match out {
                Ok(value) => {
                    values.push(Some(value));
                },
                Err(_) => {
                    values.push(None);
                },
            }
            assert(may_leave(outcomes(f), select@[at as int], values@[at as int]));
            at += 1;
        }
        Ok(values)
    }
}

/// Every outcome: what the value function returns for a match, value or
/// failure, is kept at that match's place.
impl<T> FromSelect<T> for Vec<Result<T, ErrorKind>> {
    open spec fn yields<'a>(
        nodes: Seq<ElementRef<'a>>,
        outcome: spec_fn(ElementRef<'a>, Result<T, ErrorKind>) -> bool,
        result: Result<Self, ErrorKind>,
    ) -> bool {
        &&& result is Ok
        &&& result->Ok_0@.len() == nodes.len()
        &&& forall|i: int| 0 <= i < nodes.len() ==> outcome(nodes[i], #[trigger] result->Ok_0@[i])
    }

    fn from_select<'a, F>(select: Vec<ElementRef<'a>>, f: F) -> (result: Result<Self, ErrorKind>) where
        F: Fn(ElementRef<'a>) -> Result<T, ErrorKind>,
     {
        let mut values: Vec<Result<T, ErrorKind>> = Vec::new();
        let mut at: usize = 0;
        while at < select.len()
            invariant
                at <= select.len(),
                applicable(f, select@),
                values@.len() == at,
                forall|i: int| 0 <= i < at ==> outcomes(f)(select@[i], #[trigger] values@[i]),
            decreases select.len() - at,
        {
            let out = f(select[at]);
            values.push(out);
            at += 1;
        }
        Ok(values)
    }
}

/// The value function can return only one outcome for `node`.
pub open spec fn single_valued<'a, T>(
    outcome: spec_fn(ElementRef<'a>, Result<T, ErrorKind>) -> bool,
    node: ElementRef<'a>,
) -> bool {
    forall|a: Result<T, ErrorKind>, b: Result<T, ErrorKind>|
        #[trigger] outcome(node, a) && #[trigger] outcome(node, b) ==> a == b
}

/// The value function can only fail for `node`.
pub open spec fn always_fails<'a, T>(
    outcome: spec_fn(ElementRef<'a>, Result<T, ErrorKind>) -> bool,
    node: ElementRef<'a>,
) -> bool {
    forall|out: Result<T, ErrorKind>| #[trigger] outcome(node, out) ==> out is Err
}

/// Where there is a match and reading every value succeeds, the first of the
/// values is a result of reading exactly one.
pub proof fn lemma_first_of_all_is_a_single<'a, T>(
    nodes: Seq<ElementRef<'a>>,
    outcome: spec_fn(ElementRef<'a>, Result<T, ErrorKind>) -> bool,
    all: Vec<T>,
)
    requires
        nodes.len() > 0,
        <Vec<T> as FromSelect<T>>::yields(nodes, outcome, Ok(all)),
    ensures
        <T as FromSelect<T>>::yields(nodes, outcome, Ok(all@[0])),
{
}

/// Where there is a match and the value function has one outcome for it,
/// reading exactly one value and reading every value agree: the single value
/// is the first of all, and a failure of the single read is the failure of
/// the read of all.
pub proof fn lemma_single_equals_first_of_all<'a, T>(
    nodes: Seq<ElementRef<'a>>,
    outcome: spec_fn(ElementRef<'a>, Result<T, ErrorKind>) -> bool,
    single: Result<T, ErrorKind>,
    all: Result<Vec<T>, ErrorKind>,
)
    requires
        nodes.len() > 0,
        single_valued(outcome, nodes[0]),
        <T as FromSelect<T>>::yields(nodes, outcome, single),
        <Vec<T> as FromSelect<T>>::yields(nodes, outcome, all),
    ensures
        all is Ok ==> single == Ok::<T, ErrorKind>(all->Ok_0@[0]),
        single is Err ==> all == Err::<Vec<T>, ErrorKind>(single->Err_0),
{
    if let Err(kind) = all {
        let k = choose|k: int|
            {
                &&& 0 <= k < nodes.len()
                &&& #[trigger] outcome(nodes[k], Err(kind))
                &&& forall|i: int| 0 <= i < k ==> may_succeed(outcome, #[trigger] nodes[i])
            };
        if single is Err && k > 0 {
            // a later match failed first, so the first match can succeed
            assert(may_succeed(outcome, nodes[0]));
        }
    }
}

/// Reading an optional value never fails, whatever the matches and the value
/// function.
pub proof fn lemma_optional_never_fails<'a, T>(
    nodes: Seq<ElementRef<'a>>,
    outcome: spec_fn(ElementRef<'a>, Result<T, ErrorKind>) -> bool,
    result: Result<Option<T>, ErrorKind>,
)
    requires
        <Option<T> as FromSelect<T>>::yields(nodes, outcome, result),
    ensures
        result is Ok,
{
}

/// Where the value function fails for the first match, reading a preserved
/// outcome succeeds and holds that very failure.
pub proof fn lemma_preserved_keeps_the_failure<'a, T>(
    nodes: Seq<ElementRef<'a>>,
    outcome: spec_fn(ElementRef<'a>, Result<T, ErrorKind>) -> bool,
    result: Result<Result<T, ErrorKind>, ErrorKind>,
)
    requires
        nodes.len() > 0,
        always_fails(outcome, nodes[0]),
        <Result<T, ErrorKind> as FromSelect<T>>::yields(nodes, outcome, result),
    ensures
        result is Ok,
        result->Ok_0 is Err,
        outcome(nodes[0], result->Ok_0),
{
}

/// Where the value function fails for the first match, reading every value
/// fails with a failure of that first match, whatever the later matches are
/// and whatever the value function would make of them.
pub proof fn lemma_all_required_fails_fast<'a, T>(
    nodes: Seq<ElementRef<'a>>,
    outcome: spec_fn(ElementRef<'a>, Result<T, ErrorKind>) -> bool,
    result: Result<Vec<T>, ErrorKind>,
)
    requires
        nodes.len() > 0,
        always_fails(outcome, nodes[0]),
        <Vec<T> as FromSelect<T>>::yields(nodes, outcome, result),
    ensures
        result is Err,
        outcome(nodes[0], Err(result->Err_0)),
{
    match result {
        Ok(values) => {
            assert(outcome(nodes[0], Ok(values@[0])));
        },
        Err(kind) => {
            let k = choose|k: int|
                {
                    &&& 0 <= k < nodes.len()
                    &&& #[trigger] outcome(nodes[k], Err(kind))
                    &&& forall|i: int| 0 <= i < k ==> may_succeed(outcome, #[trigger] nodes[i])
                };
            if k > 0 {
                // a later match failed first, so the first match can succeed
                assert(may_succeed(outcome, nodes[0]));
            }
        },
    }
}

/// Reading every value that can be had never fails and fills one place per
/// match, in the order of the matches: a value where the value function
/// returned one, `None` where it failed.
pub proof fn lemma_all_optional_keeps_places<'a, T>(
    nodes: Seq<ElementRef<'a>>,
    outcome: spec_fn(ElementRef<'a>, Result<T, ErrorKind>) -> bool,
    result: Result<Vec<Option<T>>, ErrorKind>,
    i: int,
)
    requires
        <Vec<Option<T>> as FromSelect<T>>::yields(nodes, outcome, result),
        0 <= i < nodes.len(),
    ensures
        result is Ok,
        result->Ok_0@.len() == nodes.len(),
        may_leave(outcome, nodes[i], result->Ok_0@[i]),
{
}

/// Reading every outcome never fails and fills one place per match, in the
/// order of the matches, with what the value function returned for it.
pub proof fn lemma_all_preserved_keeps_places<'a, T>(
    nodes: Seq<ElementRef<'a>>,
    outcome: spec_fn(ElementRef<'a>, Result<T, ErrorKind>) -> bool,
    result: Result<Vec<Result<T, ErrorKind>>, ErrorKind>,
    i: int,
)
    requires
        <Vec<Result<T, ErrorKind>> as FromSelect<T>>::yields(nodes, outcome, result),
        0 <= i < nodes.len(),
    ensures
        result is Ok,
        result->Ok_0@.len() == nodes.len(),
        outcome(nodes[i], result->Ok_0@[i]),
{
}

} // verus!
