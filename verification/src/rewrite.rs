//! The result of applying a rewriting pattern to one source text.
use vstd::prelude::*;

verus! {

/// One result of executing a pattern on the source.
pub enum MatchOutcome {
    /// A rewrite; its new content, or the error met in reading it.
    Rewrite(Result<String, String>),
    /// Any other kind of result (a match, an analysis log, ...).
    Other,
}

/// The index of the first rewrite among `outcomes`, if any.
pub open spec fn first_rewrite(outcomes: Seq<MatchOutcome>) -> Option<int>
    decreases outcomes.len(),
{
    if outcomes.len() == 0 {
        None
    } else if outcomes[0] is Rewrite {
        Some(0)
    } else {
        match first_rewrite(outcomes.drop_first()) {
            Some(i) => Some(i + 1),
            None => None,
        }
    }
}

/// The view of a rewrite's content.
pub open spec fn content_view(m: MatchOutcome) -> Result<Seq<char>, Seq<char>> {
    match m {
        MatchOutcome::Rewrite(Ok(s)) => Ok(s@),
        MatchOutcome::Rewrite(Err(e)) => Err(e@),
        MatchOutcome::Other => Err(Seq::empty()),
    }
}

/// What applying the pattern gives: the content of the first rewrite (or
/// the error in reading it), or `source` unchanged when nothing was rewritten.
pub open spec fn spec_applied(outcomes: Seq<MatchOutcome>, source: Seq<char>) -> Result<Seq<char>, Seq<char>> {
    match first_rewrite(outcomes) {
        Some(i) => content_view(outcomes[i]),
        None => Ok(source),
    }
}

pub open spec fn result_view(r: Result<String, String>) -> Result<Seq<char>, Seq<char>> {
    match r {
        Ok(s) => Ok(s@),
        Err(e) => Err(e@),
    }
}

proof fn lemma_first_rewrite(outcomes: Seq<MatchOutcome>, k: int)
    requires
        0 <= k <= outcomes.len(),
        forall|j: int| 0 <= j < k ==> !(#[trigger] outcomes[j] is Rewrite),
    ensures
        k < outcomes.len() && outcomes[k] is Rewrite ==> first_rewrite(outcomes) == Some(k),
        k == outcomes.len() ==> first_rewrite(outcomes) is None,
    decreases k,
{
    if k > 0 {
        let rest = outcomes.drop_first();
        assert forall|j: int| 0 <= j < k - 1 implies !(#[trigger] rest[j] is Rewrite) by {
            assert(rest[j] == outcomes[j + 1]);
        }
        lemma_first_rewrite(rest, k - 1);
        assert(!(outcomes[0] is Rewrite));
        if k < outcomes.len() {
            assert(rest[k - 1] == outcomes[k]);
        }
    }
}

fn clone_content(content: &Result<String, String>) -> (r: Result<String, String>)
    ensures
        result_view(r) == result_view(*content),
{
    match content {
        Ok(s) => Ok(s.clone()),
        Err(e) => Err(e.clone()),
    }
}

/// Applies the results of executing a pattern to `source`: the first rewrite
/// wins, later results are not looked at, and without any rewrite the source
/// comes back unchanged.
pub fn apply_outcomes(outcomes: &Vec<MatchOutcome>, source: &str) -> (r: Result<String, String>)
    ensures
        result_view(r) == spec_applied(outcomes@, source@),
{
    let n = outcomes.len();
    let mut k: usize = 0;
    while k < n
        invariant
            n == outcomes@.len(),
            k <= n,
            forall|j: int| 0 <= j < k ==> !(#[trigger] outcomes@[j] is Rewrite),
        decreases n - k,
    {
        if let MatchOutcome::Rewrite(content) = &outcomes[k] {
            proof {
                lemma_first_rewrite(outcomes@, k as int);
            }
            return clone_content(content);
        }
        k = k + 1;
    }
    proof {
        lemma_first_rewrite(outcomes@, n as int);
    }
    Ok(String::from_str(source))
}

/// Without any rewrite among the results, applying gives the source back
/// unchanged.
pub proof fn law_no_rewrite_keeps_source(outcomes: Seq<MatchOutcome>, source: Seq<char>)
    requires
        forall|i: int| 0 <= i < outcomes.len() ==> !(#[trigger] outcomes[i] is Rewrite),
    ensures
        spec_applied(outcomes, source) == Ok::<Seq<char>, Seq<char>>(source),
{
    lemma_first_rewrite(outcomes, outcomes.len() as int);
}

/// Once a rewrite is among the results, results after it change nothing.
pub proof fn law_first_rewrite_wins(a: Seq<MatchOutcome>, b: Seq<MatchOutcome>, source: Seq<char>)
    requires
        exists|i: int| 0 <= i < a.len() && #[trigger] a[i] is Rewrite,
    ensures
        spec_applied(a + b, source) == spec_applied(a, source),
{
    let i = choose|i: int| 0 <= i < a.len() && #[trigger] a[i] is Rewrite;
    let k = choose_first(a, i);
    lemma_first_rewrite(a, k);
    assert forall|j: int| 0 <= j < k implies !(#[trigger] (a + b)[j] is Rewrite) by {
        assert((a + b)[j] == a[j]);
    }
    assert((a + b)[k] == a[k]);
    lemma_first_rewrite(a + b, k);
}

/// The index of the first rewrite in `a`, at most `i`, given that `a[i]` is one.
proof fn choose_first(a: Seq<MatchOutcome>, i: int) -> (k: int)
    requires
        0 <= i < a.len(),
        a[i] is Rewrite,
    ensures
        0 <= k <= i,
        a[k] is Rewrite,
        forall|j: int| 0 <= j < k ==> !(#[trigger] a[j] is Rewrite),
    decreases i,
{
    if exists|j: int| 0 <= j < i && #[trigger] a[j] is Rewrite {
        let j = choose|j: int| 0 <= j < i && #[trigger] a[j] is Rewrite;
        choose_first(a, j)
    } else {
        i
    }
}

/// Applying gives the content of the first rewrite wherever it stands: when
/// no result before index `k` is a rewrite and the result at `k` is a rewrite
/// with content `c`, applying gives `Ok(c)`; when reading that rewrite failed
/// with `e`, it gives `Err(e)`. The source does not come back then.
pub proof fn law_first_rewrite_content(outcomes: Seq<MatchOutcome>, source: Seq<char>, k: int)
    requires
        0 <= k < outcomes.len(),
        outcomes[k] is Rewrite,
        forall|j: int| 0 <= j < k ==> !(#[trigger] outcomes[j] is Rewrite),
    ensures
        outcomes[k] matches MatchOutcome::Rewrite(Ok(c)) ==> spec_applied(outcomes, source) == Ok::<Seq<char>, Seq<char>>(c@),
        outcomes[k] matches MatchOutcome::Rewrite(Err(e)) ==> spec_applied(outcomes, source) == Err::<Seq<char>, Seq<char>>(e@),
{
    lemma_first_rewrite(outcomes, k);
}

} // verus!
