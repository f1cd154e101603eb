//! Running a step program: each step is handed, in order, to an executor
//! that makes its register accesses and answers `Ok` (with the byte a read
//! step produced, if any) or an error. The run stops at the first error,
//! so no step after a failing one is made.
use vstd::prelude::*;

verus! {

/// The bytes that a sequence of step results produced, in order.
pub open spec fn bytes_of<Er>(results: Seq<Result<Option<u8>, Er>>) -> Seq<u8>
    decreases results.len(),
{
    if results.len() == 0 {
        seq![]
    } else {
        bytes_of(results.drop_last()) + match results.last() {
            Ok(Some(b)) => seq![b],
            _ => seq![],
        }
    }
}

/// A record of a run: step `i` of `steps` was made on executor state
/// `states[i]` and answered `results[i]`; the first was made on `start`;
/// every answer but the last was `Ok`.
pub open spec fn run_trace<T, Er, E: FnMut(T) -> Result<Option<u8>, Er>>(
    start: E,
    steps: Seq<T>,
    states: Seq<E>,
    results: Seq<Result<Option<u8>, Er>>,
) -> bool {
    &&& states.len() == results.len()
    &&& results.len() <= steps.len()
    &&& states.len() > 0 ==> states[0] == start
    &&& forall|i: int| 0 <= i < states.len() ==> #[trigger] call_ensures(states[i], (steps[i],), results[i])
    &&& forall|i: int| 0 <= i < results.len() - 1 ==> #[trigger] results[i] is Ok
}

/// Run `steps` in order through `exec`, stopping at the first error.
///
/// The steps made are a prefix of `steps`, each but the last answered `Ok`.
/// `Ok` with the bytes the read steps produced, in order, when every step
/// was made and answered `Ok`; otherwise the error of the last step made,
/// after which no step was made.
pub fn run_steps<T: Copy, Er, E: FnMut(T) -> Result<Option<u8>, Er>>(steps: &[T], exec: &mut E) -> (r: Result<
    Vec<u8>,
    Er,
>)
    requires
        forall|t: T| call_requires(*old(exec), (t,)),
    ensures
        exists|states: Seq<E>, results: Seq<Result<Option<u8>, Er>>|
            #[trigger] run_trace(*old(exec), steps@, states, results) && match r {
                Ok(bytes) => results.len() == steps@.len() && (results.len() > 0 ==> results.last() is Ok)
                    && bytes@ == bytes_of(results),
                Err(e) => results.len() > 0 && results.last() == Err::<Option<u8>, Er>(e),
            },
{
    let ghost start = *exec;
    let ghost mut states: Seq<E> = Seq::empty();
    let ghost mut results: Seq<Result<Option<u8>, Er>> = Seq::empty();
    let mut out: Vec<u8> = Vec::new();
    let mut i: usize = 0;
    while i < steps.len()
        invariant
            i <= steps@.len(),
            forall|t: T| call_requires(*exec, (t,)),
            start == *old(exec),
            states.len() == i,
            i == 0 ==> *exec == start,
            run_trace(start, steps@, states, results),
            forall|k: int| 0 <= k < results.len() ==> #[trigger] results[k] is Ok,
            out@ == bytes_of(results),
        decreases steps@.len() - i,
    {
        let ghost pre = *exec;
        let step = steps[i];
        let res = exec(step);
        proof {
            let old_results = results;
            states = states.push(pre);
            results = results.push(res);
            assert(results.drop_last() =~= old_results);
        }
        assert(run_trace(start, steps@, states, results));
        match res {
            Err(e) => {
                return Err(e);
            },
            Ok(b) => {
                match b {
                    Some(v) => {
                        out.push(v);
                    },
                    None => {},
                }
                assert(out@ =~= bytes_of(results));
            },
        }
        i += 1;
    }
    assert(run_trace(start, steps@, states, results));
    Ok(out)
}

} // verus!
