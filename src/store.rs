use vstd::prelude::*;

verus! {

/// A cached explanation of one query, with the number of times the query
/// has been resolved so far.
#[derive(Debug)]
pub struct Answer {
    pub explain: String,
    pub query_count: u64,
}

/// The mathematical value of an [`Answer`].
pub ghost struct AnswerView {
    pub explain: Seq<char>,
    pub query_count: u64,
}

impl View for Answer {
    type V = AnswerView;

    open spec fn view(&self) -> AnswerView {
        AnswerView { explain: self.explain@, query_count: self.query_count }
    }
}

impl Answer {
    /// A copy of this answer.
    pub fn duplicate(&self) -> (r: Answer)
        ensures
            r@ == self@,
    {
        Answer { explain: self.explain.clone(), query_count: self.query_count }
    }
}

/// The record that a map of answers holds for `query`, if any.
pub open spec fn saved(m: Map<Seq<char>, AnswerView>, query: Seq<char>) -> Option<AnswerView> {
    if m.contains_key(query) {
        Some(m[query])
    } else {
        None
    }
}

/// The view of an optional answer.
pub open spec fn view_of(a: Option<Answer>) -> Option<AnswerView> {
    match a {
        Some(x) => Some(x@),
        None => None,
    }
}

/// The count that a record holds, zero where there is none.
pub open spec fn count_of(m: Map<Seq<char>, AnswerView>, query: Seq<char>) -> nat {
    if m.contains_key(query) {
        m[query].query_count as nat
    } else {
        0
    }
}

/// A record can be advanced once more without its count overflowing.
pub open spec fn can_advance(m: Map<Seq<char>, AnswerView>, query: Seq<char>) -> bool {
    count_of(m, query) < u64::MAX
}

/// The record stored for a fresh explanation: the count goes one past the
/// earlier record's, or starts at one.
pub open spec fn after_web_result(prior: Option<AnswerView>, explain: Seq<char>) -> AnswerView {
    match prior {
        Some(a) => AnswerView { explain, query_count: (a.query_count + 1) as u64 },
        None => AnswerView { explain, query_count: 1 },
    }
}

/// The record stored when only the cache is at hand: the same explanation
/// with the count advanced, and nothing where there was no record.
pub open spec fn after_local_refresh(prior: Option<AnswerView>) -> Option<AnswerView> {
    match prior {
        Some(a) => Some(AnswerView { explain: a.explain, query_count: (a.query_count + 1) as u64 }),
        None => None,
    }
}

/// The map after a fresh explanation of `query` has been stored.
pub open spec fn web_step(
    m: Map<Seq<char>, AnswerView>,
    query: Seq<char>,
    explain: Seq<char>,
) -> Map<Seq<char>, AnswerView> {
    m.insert(query, after_web_result(saved(m, query), explain))
}

/// The map after the record of `query`, if any, has been refreshed.
pub open spec fn local_step(m: Map<Seq<char>, AnswerView>, query: Seq<char>) -> Map<
    Seq<char>,
    AnswerView,
> {
    match after_local_refresh(saved(m, query)) {
        Some(a) => m.insert(query, a),
        None => m,
    }
}

/// One stored record: the query it is keyed by and its answer.
struct Record {
    query: String,
    answer: Answer,
}

/// The cached answers, one per distinct query string (exact match, no
/// normalization). Its view maps each query to its answer.
pub struct AnswerStore {
    records: Vec<Record>,
    model: Ghost<Map<Seq<char>, AnswerView>>,
}

impl View for AnswerStore {
    type V = Map<Seq<char>, AnswerView>;

    closed spec fn view(&self) -> Map<Seq<char>, AnswerView> {
        self.model@
    }
}

impl AnswerStore {
    /// The records and the map agree, and no query is held twice.
    pub closed spec fn wf(&self) -> bool {
        &&& forall|i: int|
            0 <= i < self.records@.len() ==> {
                &&& self.model@.contains_key(#[trigger] self.records@[i].query@)
                &&& self.model@[self.records@[i].query@] == self.records@[i].answer@
            }
        &&& forall|k: Seq<char>|
            #[trigger] self.model@.contains_key(k) ==> exists|i: int|
                0 <= i < self.records@.len() && #[trigger] self.records@[i].query@ == k
        &&& forall|i: int, j: int|
            0 <= i < self.records@.len() && 0 <= j < self.records@.len()
                && #[trigger] self.records@[i].query@ == #[trigger] self.records@[j].query@
                ==> i == j
    }

    /// An empty store.
    pub fn new() -> (s: AnswerStore)
        ensures
            s.wf(),
            s@ == Map::<Seq<char>, AnswerView>::empty(),
    {
        AnswerStore { records: Vec::new(), model: Ghost(Map::empty()) }
    }

    /// Where the record of `query` stands, if there is one.
    fn position(&self, query: &String) -> (r: Option<usize>)
        requires
            self.wf(),
        ensures
            match r {
                Some(i) => i < self.records@.len() && self.records@[i as int].query@ == query@,
                None => !self@.contains_key(query@),
            },
    {
        let mut i: usize = 0;
        while i < self.records.len()
            invariant
                self.wf(),
                i <= self.records@.len(),
                forall|j: int| 0 <= j < i ==> self.records@[j].query@ != query@,
            decreases self.records@.len() - i,
        {
            if self.records[i].query == *query {
                return Some(i);
            }
            i = i + 1;
        }
        proof {
            if self@.contains_key(query@) {
                let j = choose|j: int|
                    0 <= j < self.records@.len() && #[trigger] self.records@[j].query@ == query@;
                assert(self.records@[j].query@ == query@);
            }
        }
        None
    }
}

/// The answer cached for `query`, if any.
pub fn get_saved_answer(store: &AnswerStore, query: &str) -> (r: Option<Answer>)
    requires
        store.wf(),
    ensures
        view_of(r) == saved(store@, query@),
{
    let key = query.to_owned();
    match store.position(&key) {
        Some(i) => Some(store.records[i].answer.duplicate()),
        None => None,
    }
}

/// Stores `value` under `key`, replacing in full whatever was there.
pub fn insert_value(store: &mut AnswerStore, key: &str, value: Answer)
    requires
        old(store).wf(),
    ensures
        final(store).wf(),
        final(store)@ == old(store)@.insert(key@, value@),
{
    let k = key.to_owned();
    let ghost v = value@;
    match store.position(&k) {
        Some(i) => {
            store.records.set(i, Record { query: k, answer: value });
            proof {
                store.model@ = store.model@.insert(key@, v);
            }
            assert forall|kk: Seq<char>| #[trigger] store.model@.contains_key(kk) implies exists|
                j: int,
            |
                0 <= j < store.records@.len() && #[trigger] store.records@[j].query@ == kk by {
                if kk != key@ {
                    let j = choose|j: int|
                        0 <= j < old(store).records@.len() && #[trigger] old(
                            store,
                        ).records@[j].query@ == kk;
                    assert(store.records@[j].query@ == kk);
                } else {
                    assert(store.records@[i as int].query@ == kk);
                }
            }
        },
        None => {
            store.records.push(Record { query: k, answer: value });
            proof {
                store.model@ = store.model@.insert(key@, v);
            }
            let ghost n = store.records@.len() - 1;
            assert forall|kk: Seq<char>| #[trigger] store.model@.contains_key(kk) implies exists|
                j: int,
            |
                0 <= j < store.records@.len() && #[trigger] store.records@[j].query@ == kk by {
                if kk != key@ {
                    let j = choose|j: int|
                        0 <= j < old(store).records@.len() && #[trigger] old(
                            store,
                        ).records@[j].query@ == kk;
                    assert(store.records@[j].query@ == kk);
                } else {
                    assert(store.records@[n].query@ == kk);
                }
            }
        },
    }
}

/// Stores a fresh explanation of `query`: the count goes one past the
/// earlier record's, or starts at one. Returns the stored answer.
pub fn step_forward_with_web_result(store: &mut AnswerStore, query: &str, explain: String) -> (r:
    Answer)
    requires
        old(store).wf(),
        can_advance(old(store)@, query@),
    ensures
        final(store).wf(),
        r@ == after_web_result(saved(old(store)@, query@), explain@),
        final(store)@ == web_step(old(store)@, query@, explain@),
{
    let query_count: u64 = match get_saved_answer(store, query) {
        Some(a) => a.query_count + 1,
        None => 1,
    };
    let new_answer = Answer { explain, query_count };
    insert_value(store, query, new_answer.duplicate());
    new_answer
}

/// Refreshes the record of `query` with its own explanation and the count
/// advanced by one. Where there is no record, nothing is written and nothing
/// is returned.
pub fn step_forward_with_local_only(store: &mut AnswerStore, query: &str) -> (r: Option<Answer>)
    requires
        old(store).wf(),
        can_advance(old(store)@, query@),
    ensures
        final(store).wf(),
        view_of(r) == after_local_refresh(saved(old(store)@, query@)),
        final(store)@ == local_step(old(store)@, query@),
{
    match get_saved_answer(store, query) {
        Some(a) => {
            let new_answer = Answer { explain: a.explain, query_count: a.query_count + 1 };
            insert_value(store, query, new_answer.duplicate());
            Some(new_answer)
        },
        None => None,
    }
}

} // verus!
