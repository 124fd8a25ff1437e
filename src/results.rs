use vstd::prelude::*;
use crate::catalogue::{catalogue_entry, is_catalogue, lemma_index_join, ScenarioSpec};
use crate::outcome::TestResult;
use crate::scenario::{client_rank, server_rank, test_rank, Client, InteropTest, Server};

verus! {

/// One line of the result table.
#[derive(Clone, Copy, Debug, PartialEq, Eq, Structural)]
pub struct ResultRow {
    pub test_case: InteropTest,
    pub server: Server,
    pub client: Client,
    pub result: TestResult,
}

/// What identifies a scenario: its test case, server and client.
pub type ScenarioKey = (InteropTest, Server, Client);

pub open spec fn row_key(r: ResultRow) -> ScenarioKey {
    (r.test_case, r.server, r.client)
}

pub open spec fn spec_key(s: ScenarioSpec) -> ScenarioKey {
    (s.test_case, s.server, s.client)
}

pub open spec fn row_keys(rows: Seq<ResultRow>) -> Seq<ScenarioKey> {
    rows.map_values(|r: ResultRow| row_key(r))
}

pub open spec fn spec_keys(specs: Seq<ScenarioSpec>) -> Seq<ScenarioKey> {
    specs.map_values(|s: ScenarioSpec| spec_key(s))
}

/// `a` comes strictly before `b` in the order of test case, then server, then client.
pub open spec fn key_lt(a: ScenarioKey, b: ScenarioKey) -> bool {
    test_rank(a.0) < test_rank(b.0) || (test_rank(a.0) == test_rank(b.0) && (server_rank(a.1)
        < server_rank(b.1) || (server_rank(a.1) == server_rank(b.1) && client_rank(a.2)
        < client_rank(b.2))))
}

pub open spec fn key_le(a: ScenarioKey, b: ScenarioKey) -> bool {
    !key_lt(b, a)
}

pub open spec fn sorted(rows: Seq<ResultRow>) -> bool {
    forall|i: int, j: int| 0 <= i < j < rows.len() ==> key_le(row_key(rows[i]), row_key(rows[j]))
}

/// Whether `a` goes strictly before `b` in the table.
pub fn row_before(a: &ResultRow, b: &ResultRow) -> (r: bool)
    ensures
        r == key_lt(row_key(*a), row_key(*b)),
{
    let (ta, tb) = (a.test_case.rank(), b.test_case.rank());
    if ta != tb {
        return ta < tb;
    }
    let (sa, sb) = (a.server.rank(), b.server.rank());
    if sa != sb {
        return sa < sb;
    }
    a.client.rank() < b.client.rank()
}

/// The results of a run so far, kept sorted by test case, server and client.
pub struct ResultTable {
    pub rows: Vec<ResultRow>,
    /// The rows in the order in which they arrived.
    pub arrived: Ghost<Seq<ResultRow>>,
}

impl ResultTable {
    /// The table is sorted and holds exactly the rows that arrived.
    pub open spec fn wf(&self) -> bool {
        &&& sorted(self.rows@)
        &&& self.rows@.to_multiset() == self.arrived@.to_multiset()
        &&& row_keys(self.rows@).to_multiset() == row_keys(self.arrived@).to_multiset()
    }

    pub fn new() -> (r: ResultTable)
        ensures
            r.wf(),
            r.rows@.len() == 0,
            r.arrived@.len() == 0,
    {
        let r = ResultTable { rows: Vec::new(), arrived: Ghost(Seq::empty()) };
        proof {
            assert(row_keys(r.rows@) =~= Seq::empty());
            assert(row_keys(r.arrived@) =~= Seq::empty());
        }
        r
    }

    /// Adds a row after every row that does not go after it, so that the table
    /// stays sorted; returns the position that it took.
    pub fn insert(&mut self, row: ResultRow) -> (p: usize)
        requires
            old(self).wf(),
        ensures
            final(self).wf(),
            final(self).arrived@ == old(self).arrived@.push(row),
            p <= old(self).rows@.len(),
            final(self).rows@ == old(self).rows@.insert(p as int, row),
            forall|i: int| 0 <= i < p ==> key_le(row_key(#[trigger] old(self).rows@[i]), row_key(row)),
            forall|i: int|
                p <= i < old(self).rows@.len() ==> key_lt(row_key(row), row_key(#[trigger] old(self).rows@[i])),
    {
        let mut p: usize = self.rows.len();
        while p > 0 && row_before(&row, &self.rows[p - 1])
            invariant
                *self == *old(self),
                self.wf(),
                p <= self.rows@.len(),
                forall|i: int| p <= i < self.rows@.len() ==> key_lt(row_key(row), row_key(#[trigger] self.rows@[i])),
            decreases p,
        {
            p = p - 1;
        }
        let ghost before = self.rows@;
        proof {
            assert forall|i: int| 0 <= i < p implies key_le(row_key(#[trigger] before[i]), row_key(row)) by {
                if i < p - 1 {
                    assert(key_le(row_key(before[i]), row_key(before[p - 1])));
                }
            }
        }
        self.rows.insert(p, row);
        self.arrived = Ghost(self.arrived@.push(row));
        proof {
            let after = self.rows@;
            assert forall|i: int, j: int| 0 <= i < j < after.len() implies key_le(
                row_key(after[i]),
                row_key(after[j]),
            ) by {
                let i0 = if i < p { i } else if i == p { -1 } else { i - 1 };
                let j0 = if j < p { j } else if j == p { -1 } else { j - 1 };
                if i0 >= 0 {
                    assert(after[i] == before[i0]);
                }
                if j0 >= 0 {
                    assert(after[j] == before[j0]);
                }
            }
            vstd::seq_lib::to_multiset_insert(before, p as int, row);
            assert(self.arrived@.drop_last() =~= old(self).arrived@);
            vstd::seq_lib::to_multiset_insert(old(self).arrived@, old(self).arrived@.len() as int, row);
            assert(old(self).arrived@.insert(old(self).arrived@.len() as int, row) =~= self.arrived@);
            assert(row_keys(after) =~= row_keys(before).insert(p as int, row_key(row)));
            assert(row_keys(self.arrived@) =~= row_keys(old(self).arrived@).insert(
                old(self).arrived@.len() as int,
                row_key(row),
            ));
            vstd::seq_lib::to_multiset_insert(row_keys(before), p as int, row_key(row));
            vstd::seq_lib::to_multiset_insert(
                row_keys(old(self).arrived@),
                old(self).arrived@.len() as int,
                row_key(row),
            );
        }
        p
    }
}

/// A catalogue built from lists without repetitions names each (test case,
/// server, client) combination once.
pub proof fn lemma_catalogue_distinct(
    r: Seq<ScenarioSpec>,
    tests: Seq<InteropTest>,
    servers: Seq<Server>,
    clients: Seq<Client>,
    port_start: u16,
)
    requires
        is_catalogue(r, tests, servers, clients, port_start),
        tests.no_duplicates(),
        servers.no_duplicates(),
        clients.no_duplicates(),
    ensures
        spec_keys(r).no_duplicates(),
{
    let n_t = tests.len() as int;
    let n_s = servers.len() as int;
    let n_c = clients.len() as int;
    assert forall|i: int, j: int|
        0 <= i < spec_keys(r).len() && 0 <= j < spec_keys(r).len() && i != j implies spec_keys(r)[i]
        != spec_keys(r)[j] by {
        assert(r[i] == catalogue_entry(tests, servers, clients, port_start, i));
        assert(r[j] == catalogue_entry(tests, servers, clients, port_start, j));
        assert(n_s > 0 && n_c > 0) by (nonlinear_arith)
            requires
                0 <= i < n_t * (n_s * n_c),
                n_s >= 0,
                n_c >= 0,
                n_t >= 0,
        ;
        let sc = n_s * n_c;
        assert(sc > 0) by (nonlinear_arith)
            requires
                n_s > 0,
                n_c > 0,
                sc == n_s * n_c,
        ;
        assert(i / sc < n_t && j / sc < n_t) by (nonlinear_arith)
            requires
                0 <= i < n_t * sc,
                0 <= j < n_t * sc,
                sc > 0,
        ;
        if spec_keys(r)[i] == spec_keys(r)[j] {
            assert(tests[i / sc] == tests[j / sc]);
            assert(i / sc == j / sc);
            assert(servers[(i / n_c) % n_s] == servers[(j / n_c) % n_s]);
            assert(clients[i % n_c] == clients[j % n_c]);
            lemma_index_join(i, n_s, n_c);
            lemma_index_join(j, n_s, n_c);
        }
    }
}

/// Whatever the order in which the results of a catalogue arrive, once each
/// scenario has reported once the table is sorted, holds each scenario of the
/// catalogue as often as the catalogue does, and so repeats none where the
/// catalogue repeats none.
pub proof fn lemma_final_table(t: ResultTable, catalogue: Seq<ScenarioSpec>)
    requires
        t.wf(),
        row_keys(t.arrived@).to_multiset() == spec_keys(catalogue).to_multiset(),
    ensures
        sorted(t.rows@),
        row_keys(t.rows@).to_multiset() == spec_keys(catalogue).to_multiset(),
        spec_keys(catalogue).no_duplicates() ==> row_keys(t.rows@).no_duplicates(),
{
    if spec_keys(catalogue).no_duplicates() {
        spec_keys(catalogue).lemma_multiset_has_no_duplicates();
        row_keys(t.rows@).lemma_multiset_has_no_duplicates_conv();
    }
}

} // verus!
