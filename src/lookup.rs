use vstd::prelude::*;
use crate::store::{
    after_local_refresh, after_web_result, can_advance, count_of, local_step, saved,
    step_forward_with_local_only, step_forward_with_web_result, web_step, Answer, AnswerStore,
    AnswerView,
};

verus! {

/// Where a resolved answer came from.
#[derive(Debug, PartialEq, Eq, Structural)]
pub enum Origin {
    /// The remote service answered during this call.
    Web,
    /// The remote service failed and the cached record was refreshed.
    Local,
}

/// A successful lookup: the answer now stored and where it came from.
#[derive(Debug)]
pub struct Resolved {
    pub answer: Answer,
    pub origin: Origin,
}

/// Why a lookup failed.
#[derive(Debug)]
pub enum LookupError {
    /// The remote service failed and nothing was cached for the query.
    NotFound { query: String, cause: String },
}

/// What the remote service gave for a query: the rendered explanation, or
/// the text of the failure.
pub open spec fn fetch_view(fetched: Result<String, String>) -> Result<Seq<char>, Seq<char>> {
    match fetched {
        Ok(e) => Ok(e@),
        Err(c) => Err(c@),
    }
}

/// Whether a lookup of `query` on the map `m` succeeds.
pub open spec fn resolve_succeeds(
    m: Map<Seq<char>, AnswerView>,
    query: Seq<char>,
    fetched: Result<Seq<char>, Seq<char>>,
) -> bool {
    fetched is Ok || m.contains_key(query)
}

/// The map after one lookup of `query`.
pub open spec fn resolve_step(
    m: Map<Seq<char>, AnswerView>,
    query: Seq<char>,
    fetched: Result<Seq<char>, Seq<char>>,
) -> Map<Seq<char>, AnswerView> {
    match fetched {
        Ok(e) => web_step(m, query, e),
        Err(_) => local_step(m, query),
    }
}

/// The answer that one lookup of `query` gives, where it succeeds.
pub open spec fn resolve_answer(
    m: Map<Seq<char>, AnswerView>,
    query: Seq<char>,
    fetched: Result<Seq<char>, Seq<char>>,
) -> AnswerView {
    match fetched {
        Ok(e) => after_web_result(saved(m, query), e),
        Err(_) => after_local_refresh(saved(m, query))->Some_0,
    }
}

/// Resolves `query` from what the remote service gave: a fresh explanation
/// is stored with the count advanced; on a failure the cached record, if
/// any, is refreshed and returned; with no record the lookup fails and the
/// store is left as it was.
pub fn resolve(store: &mut AnswerStore, query: &str, fetched: Result<String, String>) -> (r: Result<
    Resolved,
    LookupError,
>)
    requires
        old(store).wf(),
        can_advance(old(store)@, query@),
    ensures
        final(store).wf(),
        final(store)@ == resolve_step(old(store)@, query@, fetch_view(fetched)),
        r is Ok <==> resolve_succeeds(old(store)@, query@, fetch_view(fetched)),
        match r {
            Ok(res) => {
                &&& res.answer@ == resolve_answer(old(store)@, query@, fetch_view(fetched))
                &&& res.origin == (if fetched is Ok {
                    Origin::Web
                } else {
                    Origin::Local
                })
            },
            Err(LookupError::NotFound { query: q, cause }) => {
                &&& q@ == query@
                &&& fetched is Err
                &&& cause@ == fetched->Err_0@
            },
        },
{
    match fetched {
        Ok(explain) => {
            let answer = step_forward_with_web_result(store, query, explain);
            Ok(Resolved { answer, origin: Origin::Web })
        },
        Err(cause) => match step_forward_with_local_only(store, query) {
            Some(answer) => Ok(Resolved { answer, origin: Origin::Local }),
            None => Err(LookupError::NotFound { query: query.to_owned(), cause }),
        },
    }
}

/// The map after a run of lookups of `query`, one per entry of `fetches`.
pub open spec fn resolve_run(
    m: Map<Seq<char>, AnswerView>,
    query: Seq<char>,
    fetches: Seq<Result<Seq<char>, Seq<char>>>,
) -> Map<Seq<char>, AnswerView>
    decreases fetches.len(),
{
    if fetches.len() == 0 {
        m
    } else {
        resolve_run(
            resolve_step(m, query, fetches[0]),
            query,
            fetches.drop_first(),
        )
    }
}

/// How many lookups of a run of lookups of `query` succeed.
pub open spec fn run_successes(
    m: Map<Seq<char>, AnswerView>,
    query: Seq<char>,
    fetches: Seq<Result<Seq<char>, Seq<char>>>,
) -> nat
    decreases fetches.len(),
{
    if fetches.len() == 0 {
        0
    } else {
        (if resolve_succeeds(m, query, fetches[0]) {
            1nat
        } else {
            0nat
        }) + run_successes(resolve_step(m, query, fetches[0]), query, fetches.drop_first())
    }
}

/// Each successful lookup advances the count of its query by exactly one,
/// and a failed one leaves the store as it was.
proof fn lemma_run_count(
    m: Map<Seq<char>, AnswerView>,
    query: Seq<char>,
    fetches: Seq<Result<Seq<char>, Seq<char>>>,
)
    requires
        count_of(m, query) + fetches.len() <= u64::MAX,
    ensures
        count_of(resolve_run(m, query, fetches), query) == count_of(m, query) + run_successes(
            m,
            query,
            fetches,
        ),
        resolve_run(m, query, fetches).contains_key(query) <==> (m.contains_key(query)
            || run_successes(m, query, fetches) > 0),
    decreases fetches.len(),
{
    if fetches.len() > 0 {
        lemma_run_count(resolve_step(m, query, fetches[0]), query, fetches.drop_first());
    }
}

/// Monotonic counting: starting where `query` has no record, after a run of
/// lookups of it the stored count equals the number of lookups that
/// succeeded, whether from the network or from the cache; with none, there
/// is still no record.
pub proof fn lemma_count_equals_successes(
    m: Map<Seq<char>, AnswerView>,
    query: Seq<char>,
    fetches: Seq<Result<Seq<char>, Seq<char>>>,
)
    requires
        !m.contains_key(query),
        fetches.len() <= u64::MAX,
    ensures
        run_successes(m, query, fetches) > 0 ==> resolve_run(m, query, fetches)[query].query_count
            == run_successes(m, query, fetches),
        run_successes(m, query, fetches) == 0 ==> !resolve_run(m, query, fetches).contains_key(
            query,
        ),
{
    lemma_run_count(m, query, fetches);
}

/// The first lookup of a query that succeeds through the network stores a
/// count of one.
pub proof fn lemma_first_web_result_counts_one(
    m: Map<Seq<char>, AnswerView>,
    query: Seq<char>,
    explain: Seq<char>,
)
    requires
        !m.contains_key(query),
    ensures
        resolve_answer(m, query, Ok(explain)).query_count == 1,
        resolve_step(m, query, Ok(explain))[query] == resolve_answer(m, query, Ok(explain)),
{
}

/// A lookup whose network step fails reuses the cached explanation and
/// advances only the count.
pub proof fn lemma_fallback_keeps_explanation(
    m: Map<Seq<char>, AnswerView>,
    query: Seq<char>,
    cause: Seq<char>,
)
    requires
        m.contains_key(query),
        can_advance(m, query),
    ensures
        resolve_succeeds(m, query, Err(cause)),
        resolve_answer(m, query, Err(cause)).explain == m[query].explain,
        resolve_answer(m, query, Err(cause)).query_count == m[query].query_count + 1,
        resolve_step(m, query, Err(cause)) == m.insert(query, resolve_answer(m, query, Err(cause))),
{
}

/// A lookup of an unseen query with the network failing fails, and creates
/// no record.
pub proof fn lemma_fallback_without_history_fails(
    m: Map<Seq<char>, AnswerView>,
    query: Seq<char>,
    cause: Seq<char>,
)
    requires
        !m.contains_key(query),
    ensures
        !resolve_succeeds(m, query, Err(cause)),
        resolve_step(m, query, Err(cause)) == m,
{
}

/// Storing a second fresh explanation of a query after a first one leaves
/// the second explanation with a count of two.
pub proof fn lemma_web_result_overwrites(
    m: Map<Seq<char>, AnswerView>,
    query: Seq<char>,
    first: Seq<char>,
    second: Seq<char>,
)
    requires
        !m.contains_key(query),
    ensures
        web_step(web_step(m, query, first), query, second)[query] == (AnswerView {
            explain: second,
            query_count: 2,
        }),
{
}

} // verus!
