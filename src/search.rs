use vstd::prelude::*;

verus! {

/// The first index below `n` at which `ok` fails.
pub open spec fn first_failing(ok: spec_fn(int) -> bool, n: nat) -> Option<nat>
    decreases n,
{
    if n == 0 {
        None
    } else {
        match first_failing(ok, (n - 1) as nat) {
            Some(p) => Some(p),
            None => if ok(n - 1) {
                None
            } else {
                Some((n - 1) as nat)
            },
        }
    }
}

pub proof fn lemma_first_failing_stable(ok: spec_fn(int) -> bool, m: nat, n: nat)
    requires
        m <= n,
        first_failing(ok, m) is Some,
    ensures
        first_failing(ok, n) == first_failing(ok, m),
    decreases n - m,
{
    if m < n {
        lemma_first_failing_stable(ok, m, (n - 1) as nat);
    }
}

pub proof fn lemma_first_failing_none(ok: spec_fn(int) -> bool, n: nat)
    ensures
        first_failing(ok, n) is None <==> forall|i: int| 0 <= i < n ==> #[trigger] ok(i),
    decreases n,
{
    if n > 0 {
        lemma_first_failing_none(ok, (n - 1) as nat);
    }
}

pub proof fn lemma_first_failing_some(ok: spec_fn(int) -> bool, n: nat)
    ensures
        first_failing(ok, n) matches Some(p) ==> p < n && !ok(p as int) && forall|i: int|
            0 <= i < p ==> #[trigger] ok(i),
    decreases n,
{
    if n > 0 {
        lemma_first_failing_some(ok, (n - 1) as nat);
        lemma_first_failing_none(ok, (n - 1) as nat);
    }
}

pub proof fn lemma_first_failing_congruent(f: spec_fn(int) -> bool, g: spec_fn(int) -> bool, n: nat)
    requires
        forall|i: int| 0 <= i < n ==> #[trigger] f(i) == g(i),
    ensures
        first_failing(f, n) == first_failing(g, n),
    decreases n,
{
    if n > 0 {
        lemma_first_failing_congruent(f, g, (n - 1) as nat);
        assert(f(n - 1) == g(n - 1));
    }
}

} // verus!
