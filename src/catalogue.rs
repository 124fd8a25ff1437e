use vstd::prelude::*;
use crate::scenario::{Client, InteropTest, Server};

verus! {

/// First port of the range that scenarios are placed on.
pub const PORT_RANGE_START: u16 = 9001;

/// Last port of the range that scenarios are placed on.
pub const PORT_RANGE_END: u16 = 9100;

/// One scenario of a run: which test case runs between which server and
/// client, and the local TCP port it uses.
#[derive(Clone, Copy, Debug, PartialEq, Eq, Structural)]
pub struct ScenarioSpec {
    pub test_case: InteropTest,
    pub server: Server,
    pub client: Client,
    pub port: u16,
}

/// Number of ports from `start` to `end`, both included.
pub open spec fn port_capacity(start: u16, end: u16) -> int {
    if start <= end {
        end - start + 1
    } else {
        0
    }
}

pub open spec fn catalogue_len(n_tests: int, n_servers: int, n_clients: int) -> int {
    n_tests * (n_servers * n_clients)
}

/// The `k`-th scenario of the cross product: test cases vary slowest, then
/// servers, then clients; the `k`-th scenario takes the `k`-th port.
pub open spec fn catalogue_entry(
    tests: Seq<InteropTest>,
    servers: Seq<Server>,
    clients: Seq<Client>,
    port_start: u16,
    k: int,
) -> ScenarioSpec {
    let n_s = servers.len() as int;
    let n_c = clients.len() as int;
    ScenarioSpec {
        test_case: tests[k / (n_s * n_c)],
        server: servers[(k / n_c) % n_s],
        client: clients[k % n_c],
        port: (port_start + k) as u16,
    }
}

/// The catalogue of a run, as long as it has one port for each scenario.
pub open spec fn is_catalogue(
    r: Seq<ScenarioSpec>,
    tests: Seq<InteropTest>,
    servers: Seq<Server>,
    clients: Seq<Client>,
    port_start: u16,
) -> bool {
    &&& r.len() == catalogue_len(tests.len() as int, servers.len() as int, clients.len() as int)
    &&& forall|k: int|
        0 <= k < r.len() ==> #[trigger] r[k] == catalogue_entry(tests, servers, clients, port_start, k)
}

/// Index `(t * S + s) * C + c` of the cross product splits back into `t`, `s` and `c`.
pub proof fn lemma_index_split(t: int, s: int, c: int, n_servers: int, n_clients: int)
    requires
        0 <= t,
        0 <= s < n_servers,
        0 <= c < n_clients,
    ensures
        ((t * n_servers + s) * n_clients + c) / (n_servers * n_clients) == t,
        (((t * n_servers + s) * n_clients + c) / n_clients) % n_servers == s,
        ((t * n_servers + s) * n_clients + c) % n_clients == c,
{
    let k = (t * n_servers + s) * n_clients + c;
    let sc = n_servers * n_clients;
    assert(k == t * sc + (s * n_clients + c)) by (nonlinear_arith)
        requires
            k == (t * n_servers + s) * n_clients + c,
            sc == n_servers * n_clients,
    ;
    assert(s * n_clients + c < sc) by (nonlinear_arith)
        requires
            0 <= s < n_servers,
            0 <= c < n_clients,
            sc == n_servers * n_clients,
    ;
    assert(0 <= s * n_clients + c) by (nonlinear_arith)
        requires
            0 <= s,
            0 <= c,
            0 < n_clients,
    ;
    vstd::arithmetic::div_mod::lemma_fundamental_div_mod_converse(k, sc, t, s * n_clients + c);
    vstd::arithmetic::div_mod::lemma_fundamental_div_mod_converse(k, n_clients, t * n_servers + s, c);
    assert(t * n_servers + s == s + n_servers * t) by (nonlinear_arith);
    vstd::arithmetic::div_mod::lemma_fundamental_div_mod_converse(t * n_servers + s, n_servers, t, s);
}

/// Index `k` of the cross product is `(t * S + s) * C + c` for the `t`, `s`
/// and `c` that its entry is made of.
pub proof fn lemma_index_join(k: int, n_servers: int, n_clients: int)
    requires
        0 <= k,
        n_servers > 0,
        n_clients > 0,
    ensures
        k == ((k / (n_servers * n_clients)) * n_servers + (k / n_clients) % n_servers) * n_clients
            + k % n_clients,
{
    let q = k / n_clients;
    vstd::arithmetic::div_mod::lemma_fundamental_div_mod(k, n_clients);
    vstd::arithmetic::div_mod::lemma_fundamental_div_mod(q, n_servers);
    vstd::arithmetic::div_mod::lemma_div_denominator(k, n_clients, n_servers);
    assert(n_clients * n_servers == n_servers * n_clients) by (nonlinear_arith);
    let t = k / (n_servers * n_clients);
    let s = q % n_servers;
    let c = k % n_clients;
    assert(q == n_servers * t + s);
    assert(k == n_clients * q + c);
    assert(k == (t * n_servers + s) * n_clients + c) by (nonlinear_arith)
        requires
            q == n_servers * t + s,
            k == n_clients * q + c,
    ;
}

/// Every (test case, server, client) combination has its place in the
/// catalogue: the one at index `(t * S + s) * C + c` runs the `t`-th test
/// case between the `s`-th server and the `c`-th client.
pub proof fn lemma_catalogue_covers(
    r: Seq<ScenarioSpec>,
    tests: Seq<InteropTest>,
    servers: Seq<Server>,
    clients: Seq<Client>,
    port_start: u16,
    t: int,
    s: int,
    c: int,
)
    requires
        is_catalogue(r, tests, servers, clients, port_start),
        0 <= t < tests.len(),
        0 <= s < servers.len(),
        0 <= c < clients.len(),
    ensures
        0 <= (t * servers.len() + s) * clients.len() + c < r.len(),
        r[(t * servers.len() + s) * clients.len() + c].test_case == tests[t],
        r[(t * servers.len() + s) * clients.len() + c].server == servers[s],
        r[(t * servers.len() + s) * clients.len() + c].client == clients[c],
{
    let n_t = tests.len() as int;
    let n_s = servers.len() as int;
    let n_c = clients.len() as int;
    lemma_index_split(t, s, c, n_s, n_c);
    assert(0 <= (t * n_s + s) * n_c + c < n_t * (n_s * n_c)) by (nonlinear_arith)
        requires
            0 <= t < n_t,
            0 <= s < n_s,
            0 <= c < n_c,
    ;
}

/// The cross product of test cases, servers and clients, each scenario on
/// its own port counted up from `port_start`; `None` where the ports from
/// `port_start` to `port_end` are fewer than the scenarios.
pub fn catalogue(
    tests: &Vec<InteropTest>,
    servers: &Vec<Server>,
    clients: &Vec<Client>,
    port_start: u16,
    port_end: u16,
) -> (r: Option<Vec<ScenarioSpec>>)
    ensures
        r is Some <==> catalogue_len(tests@.len() as int, servers@.len() as int, clients@.len() as int)
            <= port_capacity(port_start, port_end),
        r matches Some(v) ==> is_catalogue(v@, tests@, servers@, clients@, port_start),
{
    let n_t = tests.len();
    let n_s = servers.len();
    let n_c = clients.len();
    let capacity: usize = if port_start <= port_end {
        (port_end - port_start) as usize + 1
    } else {
        0
    };
    let ghost total = catalogue_len(n_t as int, n_s as int, n_c as int);
    if n_t == 0 || n_s == 0 || n_c == 0 {
        assert(total == 0) by (nonlinear_arith)
            requires
                n_t == 0 || n_s == 0 || n_c == 0,
                total == n_t * (n_s * n_c),
        ;
        let v: Vec<ScenarioSpec> = Vec::new();
        return Some(v);
    }
    if n_t > capacity || n_s > capacity || n_c > capacity {
        assert(total >= n_t && total >= n_s && total >= n_c) by (nonlinear_arith)
            requires
                n_t >= 1,
                n_s >= 1,
                n_c >= 1,
                total == n_t * (n_s * n_c),
        ;
        return None;
    }
    assert(n_s * n_c <= 65536 * 65536 && n_s * n_c > 0) by (nonlinear_arith)
        requires
            1 <= n_s <= 65536,
            1 <= n_c <= 65536,
    ;
    let per_test: u64 = n_s as u64 * n_c as u64;
    let cap: u64 = capacity as u64;
    if n_t as u64 > cap / per_test {
        assert(total > capacity) by (nonlinear_arith)
            requires
                n_t > cap / per_test,
                per_test > 0,
                cap == capacity,
                total == n_t * per_test,
        ;
        return None;
    }
    assert(total <= capacity) by (nonlinear_arith)
        requires
            n_t <= cap / per_test,
            per_test > 0,
            cap == capacity,
            total == n_t * per_test,
    ;
    assert(per_test <= total) by (nonlinear_arith)
        requires
            n_t >= 1,
            per_test > 0,
            total == n_t * per_test,
    ;
    let pt: usize = per_test as usize;
    let count: usize = n_t * pt;
    let mut v: Vec<ScenarioSpec> = Vec::new();
    let mut k: usize = 0;
    while k < count
        invariant
            k <= count,
            count == total,
            count <= capacity,
            capacity == port_capacity(port_start, port_end),
            per_test == n_s * n_c,
            per_test > 0,
            pt == per_test,
            count == n_t * per_test,
            n_t == tests@.len(),
            n_s == servers@.len(),
            n_c == clients@.len(),
            n_s > 0,
            n_c > 0,
            v@.len() == k,
            forall|j: int|
                0 <= j < k ==> #[trigger] v@[j] == catalogue_entry(tests@, servers@, clients@, port_start, j),
        decreases count - k,
    {
        assert((k as int) / (per_test as int) < n_t as int) by (nonlinear_arith)
            requires
                k < count,
                count == n_t * per_test,
                per_test > 0,
        ;
        let entry = ScenarioSpec {
            test_case: tests[k / pt],
            server: servers[(k / n_c) % n_s],
            client: clients[k % n_c],
            port: port_start + k as u16,
        };
        v.push(entry);
        assert(v@[k as int] == catalogue_entry(tests@, servers@, clients@, port_start, k as int));
        k = k + 1;
    }
    Some(v)
}

} // verus!
