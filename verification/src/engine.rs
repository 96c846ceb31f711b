//! The iteration engine: applies a transition again and again until a
//! stability predicate rejects the value, the value stops changing, or the
//! iteration budget is used up.

use vstd::prelude::*;
use vstd::std_specs::cmp::PartialEqSpec;

verus! {

/// `outcome` is an answer that `left == right` may give.
///
/// Where the value type's `==` follows its `eq_spec`, this is the one answer
/// it gives; of any other type nothing is known, and both answers are
/// possible.
pub open spec fn compares_as<U: PartialEq>(left: U, right: U, outcome: bool) -> bool {
    U::obeys_eq_spec() ==> outcome == left.eq_spec(&right)
}

/// `orbit` lists values that `function` may visit from `initial`: each one
/// is a result of `function` on the one before it.
pub open spec fn is_orbit<F: Fn(U) -> U, U>(function: F, initial: U, orbit: Seq<U>) -> bool {
    &&& orbit.len() >= 1
    &&& orbit[0] == initial
    &&& forall|k: int|
        0 <= k < orbit.len() - 1 ==> function.ensures((#[trigger] orbit[k],), orbit[k + 1])
}

/// The first `count` values of `orbit` were all accepted by the predicate,
/// and none of them but the first was found equal to its successor.
pub open spec fn runs_on<G: Fn(&U) -> bool, U: PartialEq>(
    stability_check: G,
    orbit: Seq<U>,
    count: int,
) -> bool {
    &&& forall|k: int| 0 <= k < count ==> stability_check.ensures((&#[trigger] orbit[k],), true)
    &&& forall|k: int| 1 <= k < count ==> compares_as(#[trigger] orbit[k], orbit[k + 1], false)
}

/// `result` is what an evaluation that visited exactly the values of `orbit`
/// returns.
///
/// The evaluation ends at the first index `count` at which one of three
/// things happens: the predicate rejects `orbit[count]` (unstable); `count`
/// has reached `max_iterations` (stable, budget used up); or `count >= 1`
/// and the next value compares equal to `orbit[count]` (stable, fixed
/// point). The orbit holds one value for each application of the
/// transition, after the initial one, so it never holds more than
/// `max_iterations + 1` values.
pub open spec fn is_run<F: Fn(U) -> U, G: Fn(&U) -> bool, U: PartialEq>(
    function: F,
    stability_check: G,
    initial: U,
    max_iterations: u64,
    orbit: Seq<U>,
    result: (u64, bool),
) -> bool {
    let count = result.0 as int;
    &&& is_orbit(function, initial, orbit)
    &&& count <= max_iterations
    &&& count < orbit.len() <= max_iterations + 1
    &&& runs_on(stability_check, orbit, count)
    &&& if !result.1 {
        &&& orbit.len() == count + 1
        &&& stability_check.ensures((&orbit[count],), false)
    } else if count == max_iterations {
        &&& orbit.len() == count + 1
        &&& stability_check.ensures((&orbit[count],), true)
    } else {
        &&& count >= 1
        &&& orbit.len() == count + 2
        &&& stability_check.ensures((&orbit[count],), true)
        &&& compares_as(orbit[count], orbit[count + 1], true)
    }
}

/// What the evaluation returns when the transition is the function `step`,
/// the predicate is `accepts` and equality is `same`: the result of the
/// rounds that remain when `done` rounds have led to `value`.
pub open spec fn escape_from<U>(
    step: spec_fn(U) -> U,
    accepts: spec_fn(U) -> bool,
    same: spec_fn(U, U) -> bool,
    value: U,
    done: nat,
    max_iterations: nat,
) -> (nat, bool)
    decreases max_iterations - done,
{
    if !accepts(value) {
        (done, false)
    } else if done >= max_iterations {
        (done, true)
    } else if done >= 1 && same(value, step(value)) {
        (done, true)
    } else {
        escape_from(step, accepts, same, step(value), done + 1, max_iterations)
    }
}

/// Every result of `function` is the value of `step`.
pub open spec fn computes<F: Fn(U) -> U, U>(function: F, step: spec_fn(U) -> U) -> bool {
    forall|x: U, y: U| #[trigger] function.ensures((x,), y) ==> y == step(x)
}

/// Every answer of `stability_check` is the value of `accepts`.
pub open spec fn decides<G: Fn(&U) -> bool, U>(
    stability_check: G,
    accepts: spec_fn(U) -> bool,
) -> bool {
    forall|x: U, answer: bool| #[trigger]
        stability_check.ensures((&x,), answer) ==> answer == accepts(x)
}

/// The value type's `==` is the relation `same`.
pub open spec fn equates<U: PartialEq>(same: spec_fn(U, U) -> bool) -> bool {
    &&& U::obeys_eq_spec()
    &&& forall|a: U, b: U| #[trigger] a.eq_spec(&b) == same(a, b)
}

proof fn lemma_run_prefix<F: Fn(U) -> U, G: Fn(&U) -> bool, U: PartialEq>(
    function: F,
    stability_check: G,
    initial: U,
    max_iterations: u64,
    orbit: Seq<U>,
    result: (u64, bool),
    step: spec_fn(U) -> U,
    accepts: spec_fn(U) -> bool,
    same: spec_fn(U, U) -> bool,
    done: nat,
)
    requires
        is_run(function, stability_check, initial, max_iterations, orbit, result),
        computes(function, step),
        decides(stability_check, accepts),
        equates::<U>(same),
        done <= result.0,
    ensures
        escape_from(step, accepts, same, orbit[done as int], done, max_iterations as nat)
            == escape_from(step, accepts, same, initial, 0, max_iterations as nat),
    decreases done,
{
    if done > 0 {
        let before: int = done - 1;
        lemma_run_prefix(
            function,
            stability_check,
            initial,
            max_iterations,
            orbit,
            result,
            step,
            accepts,
            same,
            before as nat,
        );
        assert(stability_check.ensures((&orbit[before],), true));
        assert(function.ensures((orbit[before],), orbit[before + 1]));
        if before >= 1 {
            assert(compares_as(orbit[before], orbit[before + 1], false));
            assert(orbit[before].eq_spec(&orbit[before + 1]) == same(
                orbit[before],
                orbit[before + 1],
            ));
        }
    }
}

/// An evaluation is a function of its inputs: where the transition, the
/// predicate and the value type's `==` each give one answer only, every run
/// from `initial` returns the result that `escape_from` computes.
pub proof fn lemma_run_is_determined<F: Fn(U) -> U, G: Fn(&U) -> bool, U: PartialEq>(
    function: F,
    stability_check: G,
    initial: U,
    max_iterations: u64,
    orbit: Seq<U>,
    result: (u64, bool),
    step: spec_fn(U) -> U,
    accepts: spec_fn(U) -> bool,
    same: spec_fn(U, U) -> bool,
)
    requires
        is_run(function, stability_check, initial, max_iterations, orbit, result),
        computes(function, step),
        decides(stability_check, accepts),
        equates::<U>(same),
    ensures
        (result.0 as nat, result.1) == escape_from(
            step,
            accepts,
            same,
            initial,
            0,
            max_iterations as nat,
        ),
{
    let count: int = result.0 as int;
    lemma_run_prefix(
        function,
        stability_check,
        initial,
        max_iterations,
        orbit,
        result,
        step,
        accepts,
        same,
        count as nat,
    );
    if result.1 && count < max_iterations {
        assert(function.ensures((orbit[count],), orbit[count + 1]));
        assert(orbit[count].eq_spec(&orbit[count + 1]) == same(
            orbit[count],
            orbit[count + 1],
        ));
    }
}

/// Evaluating twice gives the same result: where the transition, the
/// predicate and the value type's `==` each give one answer only, any two
/// runs from the same initial value under the same budget return the same
/// count and the same verdict.
pub proof fn lemma_runs_agree<F: Fn(U) -> U, G: Fn(&U) -> bool, U: PartialEq>(
    function: F,
    stability_check: G,
    initial: U,
    max_iterations: u64,
    first_orbit: Seq<U>,
    first: (u64, bool),
    second_orbit: Seq<U>,
    second: (u64, bool),
    step: spec_fn(U) -> U,
    accepts: spec_fn(U) -> bool,
    same: spec_fn(U, U) -> bool,
)
    requires
        is_run(function, stability_check, initial, max_iterations, first_orbit, first),
        is_run(function, stability_check, initial, max_iterations, second_orbit, second),
        computes(function, step),
        decides(stability_check, accepts),
        equates::<U>(same),
    ensures
        first == second,
{
    lemma_run_is_determined(
        function,
        stability_check,
        initial,
        max_iterations,
        first_orbit,
        first,
        step,
        accepts,
        same,
    );
    lemma_run_is_determined(
        function,
        stability_check,
        initial,
        max_iterations,
        second_orbit,
        second,
        step,
        accepts,
        same,
    );
}

/// The transition is applied once for each value of the orbit after the
/// first: an evaluation applies it at most `max_iterations` times, and
/// completes at most `max_iterations` rounds.
pub proof fn lemma_run_is_bounded<F: Fn(U) -> U, G: Fn(&U) -> bool, U: PartialEq>(
    function: F,
    stability_check: G,
    initial: U,
    max_iterations: u64,
    orbit: Seq<U>,
    result: (u64, bool),
)
    requires
        is_run(function, stability_check, initial, max_iterations, orbit, result),
    ensures
        orbit.len() - 1 <= max_iterations,
        result.0 <= orbit.len() - 1,
{
}

/// Iterates `function` from `initial` and reports how many rounds were
/// completed and whether the value counts as stable.
///
/// Each round first asks `stability_check`: a rejected value ends the
/// evaluation as unstable. A value that is still accepted when
/// `max_iterations` rounds are done is stable. From the second round on, a
/// value that `function` maps to an equal value is stable at once.
pub fn is_stable<F, G, U>(
    function: F,
    initial: U,
    stability_check: G,
    max_iterations: u64,
) -> (result: (u64, bool))
    where
        F: Fn(U) -> U,
        G: Fn(&U) -> bool,
        U: PartialEq + Copy,
    requires
        forall|x: U| function.requires((x,)),
        forall|x: U| stability_check.requires((&x,)),
    ensures
        result.0 <= max_iterations,
        exists|orbit: Seq<U>|
            is_run(function, stability_check, initial, max_iterations, orbit, result),
{
    let mut n = initial;
    let mut i: u64 = 0;
    let mut last: Option<U> = None;
    let ghost mut orbit: Seq<U> = seq![initial];
    loop
        invariant
            forall|x: U| function.requires((x,)),
            forall|x: U| stability_check.requires((&x,)),
            i <= max_iterations,
            orbit.len() == i + 1,
            orbit[i as int] == n,
            is_orbit(function, initial, orbit),
            runs_on(stability_check, orbit, i as int),
            i == 0 <==> last is None,
            i >= 1 ==> last == Some(n),
        decreases max_iterations - i,
    {
        if !stability_check(&n) {
            proof {
                assert(is_run(function, stability_check, initial, max_iterations, orbit, (i, false)));
            }
            return (i, false);
        }
        if i == max_iterations {
            proof {
                assert(is_run(function, stability_check, initial, max_iterations, orbit, (i, true)));
            }
            return (i, true);
        }
        let next = function(n);
        let ghost longer = orbit.push(next);
        proof {
            assert(is_orbit(function, initial, longer));
            assert(forall|k: int| 0 <= k <= i ==> longer[k] == orbit[k]);
        }
        match last {
            Some(previous) => {
                if previous == next {
                    proof {
                        assert(runs_on(stability_check, longer, i as int));
                        assert(is_run(
                            function,
                            stability_check,
                            initial,
                            max_iterations,
                            longer,
                            (i, true),
                        ));
                    }
                    return (i, true);
                }
            },
            None => {},
        }
        proof {
            assert(runs_on(stability_check, longer, i + 1));
            orbit = longer;
        }
        last = Some(next);
        n = next;
        i += 1;
    }
}

} // verus!
