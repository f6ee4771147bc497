//! A pool of CDP endpoints with random, round-robin or failover selection and
//! health tracking: an endpoint that fails a request is set aside until every
//! endpoint has failed, and then all are tried again.
use vstd::prelude::*;
use std::time::Duration;
use crate::cdp::client::{CdpClient, CdpClientBuilder, CdpClientBuilderView, CdpClientView};
use crate::json::opt_view;
use crate::random::{draw_below, Draw};
use crate::time::{duration_from_secs, secs_duration};

verus! {

/// How the pool picks an endpoint for a request.
#[derive(Debug, Clone, Copy, PartialEq, Eq, Structural)]
pub enum CdpStrategy {
    /// A healthy endpoint drawn at random.
    Random,
    /// The healthy endpoints in turn (the default).
    RoundRobin,
    /// The first healthy endpoint, in the order they were added.
    Failover,
}

impl Default for CdpStrategy {
    fn default() -> (r: Self)
        ensures
            r == CdpStrategy::RoundRobin,
    {
        CdpStrategy::RoundRobin
    }
}

/// An endpoint entry of a pool builder as plain values: its URL and its name.
pub open spec fn endpoint_entry(e: (String, Option<String>)) -> (Seq<char>, Option<Seq<char>>) {
    (e.0@, opt_view(e.1))
}

/// The name an endpoint goes by: the one it was given, or else its URL.
pub open spec fn endpoint_label(e: (Seq<char>, Option<Seq<char>>)) -> Seq<char> {
    match e.1 {
        Some(n) => n,
        None => e.0,
    }
}

/// A pool builder's settings as plain values.
pub struct CdpPoolBuilderView {
    pub endpoints: Seq<(Seq<char>, Option<Seq<char>>)>,
    pub strategy: CdpStrategy,
    pub navigation_timeout: Duration,
}

/// Builder of a [`CdpPool`].
pub struct CdpPoolBuilder {
    endpoints: Vec<(String, Option<String>)>,
    strategy: CdpStrategy,
    navigation_timeout: Duration,
}

impl View for CdpPoolBuilder {
    type V = CdpPoolBuilderView;

    closed spec fn view(&self) -> CdpPoolBuilderView {
        CdpPoolBuilderView {
            endpoints: self.endpoints@.map_values(|e: (String, Option<String>)| endpoint_entry(e)),
            strategy: self.strategy,
            navigation_timeout: self.navigation_timeout,
        }
    }
}

/// Why a pool could not be built.
#[derive(Debug, PartialEq, Eq)]
pub enum PoolBuildError {
    /// No endpoint was added.
    NoEndpoints,
    /// No endpoint could be connected; the last connection error, if any.
    AllFailed { last_error: Option<String> },
}

/// The outcome of connecting one endpoint, as plain values.
pub open spec fn connection_view(r: Result<CdpClient, String>) -> Result<CdpClientView, Seq<char>> {
    match r {
        Ok(c) => Ok(c@),
        Err(e) => Err(e@),
    }
}

/// The endpoints that connected, in order, each with its label and client.
pub open spec fn survivors(
    labels: Seq<Seq<char>>,
    outcomes: Seq<Result<CdpClientView, Seq<char>>>,
) -> Seq<(Seq<char>, CdpClientView)>
    decreases outcomes.len(),
{
    if outcomes.len() == 0 {
        Seq::empty()
    } else {
        let before = survivors(labels, outcomes.drop_last());
        match outcomes.last() {
            Ok(c) => before.push((labels[outcomes.len() - 1], c)),
            Err(_) => before,
        }
    }
}

/// The error of the last endpoint that failed to connect.
pub open spec fn last_failure(outcomes: Seq<Result<CdpClientView, Seq<char>>>) -> Option<Seq<char>>
    decreases outcomes.len(),
{
    if outcomes.len() == 0 {
        None
    } else {
        match outcomes.last() {
            Err(e) => Some(e),
            Ok(_) => last_failure(outcomes.drop_last()),
        }
    }
}

impl Default for CdpPoolBuilder {
    /// No endpoints, round-robin selection, a 30 s navigation timeout.
    fn default() -> (r: Self)
        ensures
            r@ == (CdpPoolBuilderView {
                endpoints: Seq::empty(),
                strategy: CdpStrategy::RoundRobin,
                navigation_timeout: secs_duration(30),
            }),
    {
        let r = CdpPoolBuilder {
            endpoints: Vec::new(),
            strategy: CdpStrategy::RoundRobin,
            navigation_timeout: duration_from_secs(30),
        };
        assert(r@.endpoints =~= Seq::empty());
        r
    }
}

impl CdpPoolBuilder {
    /// Adds an endpoint, named by its URL.
    pub fn with_endpoint(self, endpoint: &str) -> (r: Self)
        ensures
            r@ == (CdpPoolBuilderView { endpoints: self@.endpoints.push((endpoint@, None)), ..self@ }),
    {
        let ghost before = self@.endpoints;
        let mut endpoints = self.endpoints;
        endpoints.push((String::from_str(endpoint), None));
        let r = CdpPoolBuilder { endpoints, ..self };
        assert(r@.endpoints =~= before.push((endpoint@, None)));
        r
    }

    /// Adds an endpoint with a name.
    pub fn with_named_endpoint(self, name: &str, endpoint: &str) -> (r: Self)
        ensures
            r@ == (CdpPoolBuilderView {
                endpoints: self@.endpoints.push((endpoint@, Some(name@))),
                ..self@
            }),
    {
        let ghost before = self@.endpoints;
        let mut endpoints = self.endpoints;
        endpoints.push((String::from_str(endpoint), Some(String::from_str(name))));
        let r = CdpPoolBuilder { endpoints, ..self };
        assert(r@.endpoints =~= before.push((endpoint@, Some(name@))));
        r
    }

    /// Sets how endpoints are picked.
    pub fn with_strategy(self, strategy: CdpStrategy) -> (r: Self)
        ensures
            r@ == (CdpPoolBuilderView { strategy, ..self@ }),
    {
        CdpPoolBuilder { strategy, ..self }
    }

    /// Sets the navigation timeout of every endpoint.
    pub fn with_navigation_timeout(self, timeout: Duration) -> (r: Self)
        ensures
            r@ == (CdpPoolBuilderView { navigation_timeout: timeout, ..self@ }),
    {
        CdpPoolBuilder { navigation_timeout: timeout, ..self }
    }

    /// The endpoints added so far: URL and name, in order.
    pub fn endpoints(&self) -> (r: &Vec<(String, Option<String>)>)
        ensures
            r@.map_values(|e: (String, Option<String>)| endpoint_entry(e)) == self@.endpoints,
    {
        &self.endpoints
    }

    /// The selection strategy.
    pub fn strategy(&self) -> (r: CdpStrategy)
        ensures
            r == self@.strategy,
    {
        self.strategy
    }

    /// The navigation timeout.
    pub fn navigation_timeout(&self) -> (r: Duration)
        ensures
            r == self@.navigation_timeout,
    {
        self.navigation_timeout
    }

    /// The client builders that building the pool connects, one per endpoint in
    /// order: its URL, its label as name, the pool's navigation timeout and the
    /// default connection timeout. A pool needs at least one endpoint.
    pub fn client_builders(&self) -> (r: Result<Vec<CdpClientBuilder>, PoolBuildError>)
        ensures
            self@.endpoints.len() == 0 ==> r == Err::<Vec<CdpClientBuilder>, PoolBuildError>(
                PoolBuildError::NoEndpoints,
            ),
            self@.endpoints.len() > 0 ==> (r matches Ok(v) && v.len() == self@.endpoints.len() && forall|i: int|
                0 <= i < v.len() ==> (#[trigger] v[i])@ == (CdpClientBuilderView {
                    endpoint: self@.endpoints[i].0,
                    name: Some(endpoint_label(self@.endpoints[i])),
                    navigation_timeout: self@.navigation_timeout,
                    connection_timeout: secs_duration(10),
                })),
    {
        if self.endpoints.len() == 0 {
            return Err(PoolBuildError::NoEndpoints);
        }
        let mut out: Vec<CdpClientBuilder> = Vec::new();
        let n = self.endpoints.len();
        for i in 0..n
            invariant
                n == self.endpoints.len(),
                out.len() == i,
                forall|j: int|
                    0 <= j < i ==> (#[trigger] out[j])@ == (CdpClientBuilderView {
                        endpoint: self@.endpoints[j].0,
                        name: Some(endpoint_label(self@.endpoints[j])),
                        navigation_timeout: self@.navigation_timeout,
                        connection_timeout: secs_duration(10),
                    }),
        {
            let entry = &self.endpoints[i];
            let label: &str = match &entry.1 {
                Some(n) => n.as_str(),
                None => entry.0.as_str(),
            };
            assert(self@.endpoints[i as int] == endpoint_entry(self.endpoints@[i as int]));
            let b = CdpClient::builder().with_endpoint(entry.0.as_str()).with_name(label)
                .with_navigation_timeout(self.navigation_timeout);
            out.push(b);
        }
        Ok(out)
    }

    /// The pool, given the outcome of connecting each endpoint (in the order of
    /// [`client_builders`](Self::client_builders)): the endpoints that connected,
    /// all healthy, in order. With no endpoint, or none connected, there is no pool.
    pub fn assemble(self, connected: Vec<Result<CdpClient, String>>) -> (r: Result<CdpPool, PoolBuildError>)
        requires
            connected.len() == self@.endpoints.len(),
        ensures
            ({
                let labels = self@.endpoints.map_values(|e: (Seq<char>, Option<Seq<char>>)| endpoint_label(e));
                let outcomes = connected@.map_values(|c: Result<CdpClient, String>| connection_view(c));
                let kept = survivors(labels, outcomes);
                &&& self@.endpoints.len() == 0 ==> r == Err::<CdpPool, PoolBuildError>(PoolBuildError::NoEndpoints)
                &&& (self@.endpoints.len() > 0 && kept.len() == 0) ==> (r matches Err(
                    PoolBuildError::AllFailed { last_error },
                ) && opt_view(last_error) == last_failure(outcomes))
                &&& kept.len() > 0 ==> (r matches Ok(p) && p@ == (PoolState {
                    entries: kept,
                    healthy: Seq::new(kept.len(), |i: int| true),
                    strategy: self@.strategy,
                    counter: 0,
                }))
            }),
    {
        let ghost labels = self@.endpoints.map_values(|e: (Seq<char>, Option<Seq<char>>)| endpoint_label(e));
        let ghost outcomes = connected@.map_values(|c: Result<CdpClient, String>| connection_view(c));
        if self.endpoints.len() == 0 {
            return Err(PoolBuildError::NoEndpoints);
        }
        let n = self.endpoints.len();
        let mut rest = connected;
        let mut kept: Vec<CdpEndpoint> = Vec::new();
        let mut last_error: Option<String> = None;
        let mut k: usize = 0;
        assert(outcomes.take(0) =~= Seq::<Result<CdpClientView, Seq<char>>>::empty());
        while k < n
            invariant
                n == self.endpoints.len(),
                n == self@.endpoints.len(),
                labels.len() == n,
                outcomes.len() == n,
                k <= n,
                rest.len() == n - k,
                forall|j: int| 0 <= j < rest.len() ==> connection_view(#[trigger] rest@[j]) == outcomes[k + j],
                kept@.map_values(|e: CdpEndpoint| e.entry()) == survivors(labels, outcomes.take(k as int)),
                opt_view(last_error) == last_failure(outcomes.take(k as int)),
                labels == self@.endpoints.map_values(|e: (Seq<char>, Option<Seq<char>>)| endpoint_label(e)),
            decreases n - k,
        {
            let ghost before = kept@.map_values(|e: CdpEndpoint| e.entry());
            let outcome = rest.remove(0);
            assert(outcomes.take(k + 1).drop_last() =~= outcomes.take(k as int));
            assert(outcomes.take(k + 1).last() == outcomes[k as int]);
            assert(connection_view(outcome) == outcomes[k as int]);
            let entry = &self.endpoints[k];
            assert(self@.endpoints[k as int] == endpoint_entry(self.endpoints@[k as int]));
            match outcome {
                Ok(client) => {
                    let label = match &entry.1 {
                        Some(n) => n.clone(),
                        None => entry.0.clone(),
                    };
                    kept.push(CdpEndpoint { client, name: label });
                    assert(kept@.map_values(|e: CdpEndpoint| e.entry()) =~= before.push(
                        (labels[k as int], outcomes[k as int]->Ok_0),
                    ));
                },
                Err(e) => {
                    last_error = Some(e);
                },
            }
            k = k + 1;
        }
        assert(outcomes.take(n as int) =~= outcomes);
        if kept.len() == 0 {
            return Err(PoolBuildError::AllFailed { last_error });
        }
        let m = kept.len();
        let mut healthy: Vec<bool> = Vec::new();
        for i in 0..m
            invariant
                healthy.len() == i,
                forall|j: int| 0 <= j < i ==> healthy[j],
        {
            healthy.push(true);
        }
        let pool = CdpPool { endpoints: kept, healthy, strategy: self.strategy, counter: 0 };
        assert(pool@.healthy =~= Seq::new(m as nat, |i: int| true));
        Ok(pool)
    }
}

/// One endpoint of a pool.
struct CdpEndpoint {
    client: CdpClient,
    name: String,
}

impl CdpEndpoint {
    spec fn entry(&self) -> (Seq<char>, CdpClientView) {
        (self.name@, self.client@)
    }
}

/// A pool's state as plain values: each endpoint's label and client, which are
/// healthy, the strategy, and the round-robin counter.
pub struct PoolState {
    pub entries: Seq<(Seq<char>, CdpClientView)>,
    pub healthy: Seq<bool>,
    pub strategy: CdpStrategy,
    pub counter: nat,
}

/// A pool of CDP endpoints.
pub struct CdpPool {
    endpoints: Vec<CdpEndpoint>,
    healthy: Vec<bool>,
    strategy: CdpStrategy,
    counter: usize,
}

impl View for CdpPool {
    type V = PoolState;

    closed spec fn view(&self) -> PoolState {
        PoolState {
            entries: self.endpoints@.map_values(|e: CdpEndpoint| e.entry()),
            healthy: self.healthy@,
            strategy: self.strategy,
            counter: self.counter as nat,
        }
    }
}

/// The positions of the healthy endpoints, in increasing order.
pub open spec fn healthy_positions(healthy: Seq<bool>) -> Seq<int>
    decreases healthy.len(),
{
    if healthy.len() == 0 {
        Seq::empty()
    } else {
        let before = healthy_positions(healthy.drop_last());
        if healthy.last() {
            before.push(healthy.len() - 1)
        } else {
            before
        }
    }
}

/// The endpoint a strategy picks when some are healthy: the healthy one at
/// position `draw` among them (random), the one the counter points to
/// (round-robin), or the first (failover).
pub open spec fn pick(healthy: Seq<bool>, strategy: CdpStrategy, counter: nat, draw: int) -> int {
    let p = healthy_positions(healthy);
    match strategy {
        CdpStrategy::Random => p[draw],
        CdpStrategy::RoundRobin => p[(counter % p.len()) as int],
        CdpStrategy::Failover => p[0],
    }
}

/// The round-robin counter after a pick: one more (wrapping around) for
/// round-robin, unchanged otherwise.
pub open spec fn next_counter(counter: nat, strategy: CdpStrategy) -> nat {
    if strategy is RoundRobin {
        if counter == usize::MAX { 0 } else { counter + 1 }
    } else {
        counter
    }
}

/// One selection: with no healthy endpoint every endpoint is made healthy again
/// and the first is picked; otherwise the strategy picks a healthy one (random
/// selection with `draw` below the number of healthy endpoints).
pub open spec fn select_step(pre: PoolState, post: PoolState, chosen: int, draw: int) -> bool {
    let p = healthy_positions(pre.healthy);
    &&& post.entries == pre.entries
    &&& post.strategy == pre.strategy
    &&& if p.len() == 0 {
        &&& chosen == 0
        &&& post.healthy == Seq::new(pre.healthy.len(), |i: int| true)
        &&& post.counter == pre.counter
    } else {
        &&& (pre.strategy is Random ==> 0 <= draw < p.len())
        &&& chosen == pick(pre.healthy, pre.strategy, pre.counter, draw)
        &&& post.healthy == pre.healthy
        &&& post.counter == next_counter(pre.counter, pre.strategy)
    }
}

/// What the positions of the healthy endpoints are: valid, healthy, increasing,
/// and every healthy endpoint among them.
pub proof fn lemma_healthy_positions(healthy: Seq<bool>)
    ensures
        forall|k: int| 0 <= k < healthy_positions(healthy).len() ==> {
            let i = #[trigger] healthy_positions(healthy)[k];
            0 <= i < healthy.len() && healthy[i]
        },
        forall|a: int, b: int|
            0 <= a < b < healthy_positions(healthy).len() ==> #[trigger] healthy_positions(healthy)[a]
                < #[trigger] healthy_positions(healthy)[b],
        forall|j: int|
            0 <= j < healthy.len() && #[trigger] healthy[j] ==> healthy_positions(healthy).contains(j),
        healthy_positions(healthy).len() <= healthy.len(),
    decreases healthy.len(),
{
    if healthy.len() > 0 {
        let before = healthy.drop_last();
        lemma_healthy_positions(before);
        assert forall|j: int| 0 <= j < healthy.len() && #[trigger] healthy[j] implies healthy_positions(
            healthy,
        ).contains(j) by {
            if j < healthy.len() - 1 {
                assert(before[j] == healthy[j]);
                let k = choose|k: int| 0 <= k < healthy_positions(before).len() && healthy_positions(before)[k] == j;
                assert(healthy_positions(healthy)[k] == j);
            } else {
                let p = healthy_positions(healthy);
                assert(p[p.len() - 1] == j);
            }
        }
    }
}

impl CdpPool {
    #[verifier::type_invariant]
    spec fn well_formed(self) -> bool {
        &&& self.endpoints.len() > 0
        &&& self.healthy.len() == self.endpoints.len()
    }

    /// A pool builder with the default settings.
    pub fn builder() -> (r: CdpPoolBuilder)
        ensures
            r@ == (CdpPoolBuilderView {
                endpoints: Seq::empty(),
                strategy: CdpStrategy::RoundRobin,
                navigation_timeout: secs_duration(30),
            }),
    {
        CdpPoolBuilder::default()
    }

    /// The number of endpoints; a pool always has one at least.
    pub fn total_count(&self) -> (r: usize)
        ensures
            r == self@.entries.len(),
            r > 0,
            self@.healthy.len() == r,
    {
        proof {
            use_type_invariant(self);
        }
        self.endpoints.len()
    }

    /// The number of healthy endpoints.
    pub fn healthy_count(&self) -> (r: usize)
        ensures
            r == healthy_positions(self@.healthy).len(),
            r <= self@.entries.len(),
            self@.healthy.len() == self@.entries.len(),
    {
        proof {
            use_type_invariant(self);
            lemma_healthy_positions(self@.healthy);
        }
        let p = self.healthy_indices();
        p.len()
    }

    /// The strategy.
    pub fn strategy(&self) -> (r: CdpStrategy)
        ensures
            r == self@.strategy,
    {
        self.strategy
    }

    /// The name the pool reports.
    pub fn name(&self) -> (r: &'static str)
        ensures
            r@ == "cdp-pool"@,
    {
        "cdp-pool"
    }

    /// The label of the endpoint at `index`.
    pub fn endpoint_label(&self, index: usize) -> (r: &str)
        requires
            index < self@.entries.len(),
        ensures
            r@ == self@.entries[index as int].0,
    {
        self.endpoints[index].name.as_str()
    }

    /// The client of the endpoint at `index`.
    pub fn endpoint_client(&self, index: usize) -> (r: &CdpClient)
        requires
            index < self@.entries.len(),
        ensures
            r@ == self@.entries[index as int].1,
    {
        &self.endpoints[index].client
    }

    fn healthy_indices(&self) -> (r: Vec<usize>)
        ensures
            r@.map_values(|x: usize| x as int) == healthy_positions(self@.healthy),
    {
        let mut out: Vec<usize> = Vec::new();
        let n = self.healthy.len();
        assert(self.healthy@.take(0) =~= Seq::<bool>::empty());
        assert(out@.map_values(|x: usize| x as int) =~= Seq::<int>::empty());
        for i in 0..n
            invariant
                n == self.healthy.len(),
                out@.map_values(|x: usize| x as int) == healthy_positions(self.healthy@.take(i as int)),
        {
            let ghost before = out@.map_values(|x: usize| x as int);
            assert(self.healthy@.take(i + 1).drop_last() =~= self.healthy@.take(i as int));
            if self.healthy[i] {
                out.push(i);
                assert(out@.map_values(|x: usize| x as int) =~= before.push(i as int));
            }
        }
        assert(self.healthy@.take(n as int) =~= self.healthy@);
        out
    }

    /// Marks the endpoint at `index` unhealthy; an index past the end changes nothing.
    pub fn mark_unhealthy(&mut self, index: usize)
        ensures
            final(self)@ == (PoolState {
                healthy: if index < old(self)@.healthy.len() {
                    old(self)@.healthy.update(index as int, false)
                } else {
                    old(self)@.healthy
                },
                ..old(self)@
            }),
    {
        proof {
            use_type_invariant(&*self);
        }
        if index < self.healthy.len() {
            let mut flags = self.healthy.clone();
            flags.set(index, false);
            self.healthy = flags;
        }
    }

    /// Makes every endpoint healthy again.
    pub fn reset_all_health(&mut self)
        ensures
            final(self)@ == (PoolState {
                healthy: Seq::new(old(self)@.healthy.len(), |i: int| true),
                ..old(self)@
            }),
    {
        proof {
            use_type_invariant(&*self);
        }
        let n = self.healthy.len();
        let mut flags: Vec<bool> = Vec::new();
        for i in 0..n
            invariant
                flags.len() == i,
                forall|j: int| 0 <= j < i ==> flags@[j],
        {
            flags.push(true);
        }
        self.healthy = flags;
        assert(self@.healthy =~= Seq::new(n as nat, |i: int| true));
    }

    /// Picks the endpoint for the next attempt, with `draw` standing for the
    /// random choice among the healthy endpoints.
    pub fn select_index_with(&mut self, draw: usize) -> (r: Option<usize>)
        requires
            old(self)@.strategy is Random && healthy_positions(old(self)@.healthy).len() > 0 ==> draw
                < healthy_positions(old(self)@.healthy).len(),
        ensures
            r matches Some(i) && i < final(self)@.entries.len() && select_step(
                old(self)@,
                final(self)@,
                i as int,
                draw as int,
            ),
    {
        proof {
            use_type_invariant(&*self);
        }
        let positions = self.healthy_indices();
        let ghost p = healthy_positions(self@.healthy);
        proof {
            lemma_healthy_positions(self@.healthy);
        }
        assert(positions.len() == p.len());
        if positions.len() == 0 {
            self.reset_all_health();
            return Some(0);
        }
        let chosen = match self.strategy {
            CdpStrategy::Random => positions[draw],
            CdpStrategy::RoundRobin => {
                let c = self.counter;
                self.counter = if c == usize::MAX { 0 } else { c + 1 };
                positions[c % positions.len()]
            },
            CdpStrategy::Failover => positions[0],
        };
        proof {
            let k = if self.strategy is Random { draw as int } else if self.strategy is RoundRobin {
                (old(self)@.counter % p.len()) as int
            } else {
                0
            };
            assert(positions@.map_values(|x: usize| x as int)[k] == p[k]);
        }
        Some(chosen)
    }

    /// Picks an endpoint outside any request: the strategy's healthy endpoint, or,
    /// with none healthy, the first after making all healthy again; random
    /// selection draws among the healthy endpoints. Requests pick through
    /// [`next_attempt`](Self::next_attempt), which never retries an endpoint.
    pub fn select_index(&mut self) -> (r: Option<usize>)
        ensures
            r matches Some(i) && i < final(self)@.entries.len() && exists|draw: int|
                select_step(old(self)@, final(self)@, i as int, draw),
    {
        let n = self.healthy_count();
        let draw = if self.strategy == CdpStrategy::Random && n > 0 {
            Some(draw_below(n))
        } else {
            None
        };
        let r = self.select_drawn(draw);
        r
    }

    /// Picks as [`select_index_with`](Self::select_index_with) does, random
    /// selection using `draw`, which was drawn below the number of healthy endpoints.
    fn select_drawn(&mut self, draw: Option<Draw>) -> (r: Option<usize>)
        requires
            old(self)@.strategy is Random && count_true(old(self)@.healthy) > 0 ==> (draw matches Some(d)
                && d.among() == count_true(old(self)@.healthy)),
        ensures
            r matches Some(i) && i < final(self)@.entries.len() && select_step(
                old(self)@,
                final(self)@,
                i as int,
                match draw {
                    Some(d) => d.drawn() as int,
                    None => 0,
                },
            ),
    {
        let v = match &draw {
            Some(d) => d.value(),
            None => 0,
        };
        self.select_index_with(v)
    }
}

/// How many flags are set.
pub open spec fn count_true(flags: Seq<bool>) -> nat {
    healthy_positions(flags).len()
}

/// The endpoints a request may try next: healthy and not yet tried by it.
pub open spec fn available(healthy: Seq<bool>, attempted: Seq<bool>) -> Seq<bool> {
    Seq::new(healthy.len(), |i: int| healthy[i] && !attempted[i])
}

/// Every endpoint healthy.
pub open spec fn all_healthy(n: nat) -> Seq<bool> {
    Seq::new(n, |i: int| true)
}

/// One failover attempt of a request that already tried the endpoints flagged
/// in `attempted`: the first healthy endpoint not yet tried; when there is none,
/// every endpoint is made healthy again and the first one not yet tried is picked.
pub open spec fn failover_step(pre: PoolState, post: PoolState, attempted: Seq<bool>, chosen: int, draw: int) -> bool {
    let first = available(pre.healthy, attempted);
    let reset = count_true(first) == 0;
    let candidates = if reset { available(all_healthy(pre.healthy.len()), attempted) } else { first };
    &&& post.entries == pre.entries
    &&& post.strategy == pre.strategy
    &&& post.healthy == (if reset { all_healthy(pre.healthy.len()) } else { pre.healthy })
    &&& (pre.strategy is Random ==> 0 <= draw < count_true(candidates))
    &&& chosen == pick(candidates, pre.strategy, pre.counter, draw)
    &&& post.counter == next_counter(pre.counter, pre.strategy)
}

/// One attempt of a request. Random and round-robin pick as a selection outside
/// a request does ([`select_step`]: among the healthy endpoints, or endpoint 0
/// after making all healthy again). Failover follows the strategy's promise to
/// move on to the next endpoint after a failure ([`failover_step`]: it never
/// picks an endpoint the request already tried).
pub open spec fn round_step(pre: PoolState, post: PoolState, attempted: Seq<bool>, chosen: int, draw: int) -> bool {
    if pre.strategy is Failover {
        failover_step(pre, post, attempted, chosen, draw)
    } else {
        select_step(pre, post, chosen, draw)
    }
}

/// The state of one request across the endpoints of a pool: how many attempts
/// it may make and made, which endpoints it tried, and its last error.
pub struct PoolRoundView {
    pub total: nat,
    pub made: nat,
    pub attempted: Seq<bool>,
    pub last_error: Option<Seq<char>>,
}

/// One request across the endpoints of a pool: as many attempts as there are
/// endpoints, each failure setting its endpoint aside.
pub struct PoolRound {
    total: usize,
    made: usize,
    attempted: Vec<bool>,
    last_error: Option<String>,
}

impl View for PoolRound {
    type V = PoolRoundView;

    closed spec fn view(&self) -> PoolRoundView {
        PoolRoundView {
            total: self.total as nat,
            made: self.made as nat,
            attempted: self.attempted@,
            last_error: opt_view(self.last_error),
        }
    }
}

/// How many attempts the request made.
pub open spec fn round_tried(r: PoolRoundView) -> nat {
    r.made
}

proof fn lemma_count_bounds(flags: Seq<bool>)
    ensures
        count_true(flags) <= flags.len(),
        count_true(flags) == flags.len() ==> forall|i: int| 0 <= i < flags.len() ==> flags[i],
    decreases flags.len(),
{
    if flags.len() > 0 {
        lemma_count_bounds(flags.drop_last());
        if count_true(flags) == flags.len() {
            assert forall|i: int| 0 <= i < flags.len() implies flags[i] by {
                if i < flags.len() - 1 {
                    assert(flags.drop_last()[i] == flags[i]);
                }
            }
        }
    }
}

proof fn lemma_count_update(flags: Seq<bool>, i: int)
    requires
        0 <= i < flags.len(),
        !flags[i],
    ensures
        count_true(flags.update(i, true)) == count_true(flags) + 1,
    decreases flags.len(),
{
    let u = flags.update(i, true);
    if i == flags.len() - 1 {
        assert(u.drop_last() =~= flags.drop_last());
    } else {
        assert(u.drop_last() =~= flags.drop_last().update(i, true));
        lemma_count_update(flags.drop_last(), i);
    }
}

proof fn lemma_count_untried(attempted: Seq<bool>)
    ensures
        count_true(available(all_healthy(attempted.len()), attempted)) + count_true(attempted) == attempted.len(),
    decreases attempted.len(),
{
    let c = available(all_healthy(attempted.len()), attempted);
    if attempted.len() > 0 {
        let d = attempted.drop_last();
        lemma_count_untried(d);
        assert(c.drop_last() =~= available(all_healthy(d.len()), d));
    } else {
        assert(c.len() == 0);
    }
}

proof fn lemma_all_positions(n: nat)
    ensures
        healthy_positions(all_healthy(n)) =~= Seq::new(n, |i: int| i),
    decreases n,
{
    if n > 0 {
        assert(all_healthy(n).drop_last() =~= all_healthy((n - 1) as nat));
        lemma_all_positions((n - 1) as nat);
    }
}

impl PoolRound {
    #[verifier::type_invariant]
    spec fn one_flag_per_endpoint(self) -> bool {
        &&& self.attempted.len() == self.total
        &&& self.made <= self.total
        &&& count_true(self.attempted@) <= self.made
    }

    /// How many attempts the request may make: one per endpoint.
    pub fn total(&self) -> (r: usize)
        ensures
            r == self@.total,
            self@.attempted.len() == self@.total,
    {
        proof {
            use_type_invariant(self);
        }
        self.total
    }

    /// How many attempts the request made.
    pub fn tried(&self) -> (r: usize)
        ensures
            r == round_tried(self@),
            r <= self@.total,
            count_true(self@.attempted) <= r,
    {
        proof {
            use_type_invariant(self);
        }
        self.made
    }

    /// The error of the last failed attempt, if any.
    pub fn last_error(&self) -> (r: Option<&str>)
        ensures
            match r {
                Some(e) => self@.last_error == Some(e@),
                None => self@.last_error is None,
            },
    {
        match &self.last_error {
            Some(e) => Some(e.as_str()),
            None => None,
        }
    }
}

impl CdpPool {
    /// A new request: one attempt per endpoint, none made yet.
    pub fn start_round(&self) -> (r: PoolRound)
        ensures
            r@ == (PoolRoundView {
                total: self@.entries.len(),
                made: 0,
                attempted: Seq::new(self@.entries.len(), |i: int| false),
                last_error: None,
            }),
    {
        let n = self.total_count();
        let mut attempted: Vec<bool> = Vec::new();
        for i in 0..n
            invariant
                attempted.len() == i,
                forall|j: int| 0 <= j < i ==> !attempted@[j],
        {
            attempted.push(false);
        }
        let ghost none = Seq::new(n as nat, |i: int| false);
        assert(attempted@ =~= none);
        proof {
            lemma_count_untried(none);
            assert(available(all_healthy(n as nat), none) =~= all_healthy(n as nat));
            lemma_all_positions(n as nat);
        }
        let r = PoolRound { total: n, made: 0, attempted, last_error: None };
        r
    }

    fn candidate_indices(&self, attempted: &Vec<bool>) -> (r: Vec<usize>)
        requires
            attempted.len() == self@.healthy.len(),
        ensures
            r@.map_values(|x: usize| x as int) == healthy_positions(available(self@.healthy, attempted@)),
            forall|k: int| 0 <= k < r.len() ==> r@[k] < self@.healthy.len(),
    {
        let ghost flags = available(self@.healthy, attempted@);
        proof {
            lemma_healthy_positions(flags);
        }
        let mut out: Vec<usize> = Vec::new();
        let n = self.healthy.len();
        assert(flags.take(0) =~= Seq::<bool>::empty());
        assert(out@.map_values(|x: usize| x as int) =~= Seq::<int>::empty());
        for i in 0..n
            invariant
                n == self.healthy.len(),
                n == attempted.len(),
                flags == available(self@.healthy, attempted@),
                out@.map_values(|x: usize| x as int) == healthy_positions(flags.take(i as int)),
                forall|k: int| 0 <= k < out.len() ==> out@[k] < i,
        {
            let ghost before = out@.map_values(|x: usize| x as int);
            assert(flags.take(i + 1).drop_last() =~= flags.take(i as int));
            if self.healthy[i] && !attempted[i] {
                out.push(i);
                assert(out@.map_values(|x: usize| x as int) =~= before.push(i as int));
            }
        }
        assert(flags.take(n as int) =~= flags);
        out
    }

    /// The endpoint for the next attempt of `round`, or `None` once the request
    /// made one attempt per endpoint (the pool is then left as it is). Random and
    /// round-robin pick among the healthy endpoints, or endpoint 0 after making
    /// all healthy again, as [`select_index`](Self::select_index) does. Failover,
    /// whose promise is to move on to the next endpoint after a failure, picks the
    /// first healthy endpoint the request has not tried, or, when there is none,
    /// makes all healthy again and picks the first one it has not tried.
    pub fn next_attempt(&mut self, round: &mut PoolRound) -> (r: Option<usize>)
        requires
            old(round)@.total == old(self)@.entries.len(),
        ensures
            final(round)@.total == old(round)@.total,
            final(round)@.last_error == old(round)@.last_error,
            round_tried(old(round)@) < old(round)@.total ==> {
                &&& r matches Some(i) && i < final(self)@.entries.len()
                &&& exists|draw: int|
                    #[trigger] round_step(old(self)@, final(self)@, old(round)@.attempted, r.unwrap() as int, draw)
                &&& (old(self)@.strategy is Failover ==> !old(round)@.attempted[r.unwrap() as int])
                &&& final(round)@.attempted == old(round)@.attempted.update(r.unwrap() as int, true)
                &&& round_tried(final(round)@) == round_tried(old(round)@) + 1
            },
            round_tried(old(round)@) >= old(round)@.total ==> {
                &&& r is None
                &&& final(self)@ == old(self)@
                &&& final(round)@ == old(round)@
            },
    {
        proof {
            use_type_invariant(&*round);
            use_type_invariant(&*self);
        }
        if round.made >= round.total {
            return None;
        }
        let ghost attempted = round.attempted@;
        let ghost pre = self@;
        let chosen: usize;
        let ghost mut witness: int = 0;
        if self.strategy != CdpStrategy::Failover {
            let picked = self.select_index();
            chosen = picked.unwrap();
            proof {
                let d = choose|d: int| select_step(pre, self@, chosen as int, d);
                assert(!(pre.strategy is Failover));
                assert(round_step(pre, self@, attempted, chosen as int, d));
                witness = d;
            }
        } else {
            let n = self.healthy.len();
            let mut candidates = self.candidate_indices(&round.attempted);
            if candidates.len() == 0 {
                self.reset_all_health();
                assert(self@.healthy =~= all_healthy(n as nat));
                candidates = self.candidate_indices(&round.attempted);
                proof {
                    lemma_count_untried(attempted);
                }
            }
            let ghost first = available(pre.healthy, attempted);
            let ghost cands = if count_true(first) == 0 { available(all_healthy(n as nat), attempted) } else { first };
            assert(available(self@.healthy, attempted) == cands);
            assert(candidates.len() == count_true(cands));
            assert(candidates.len() > 0);
            chosen = candidates[0];
            proof {
                lemma_healthy_positions(cands);
                assert(candidates@.map_values(|x: usize| x as int)[0] == healthy_positions(cands)[0]);
                assert(cands[chosen as int]);
                assert(cands[chosen as int] ==> !attempted[chosen as int]);
                assert(failover_step(pre, self@, attempted, chosen as int, 0));
                assert(round_step(pre, self@, attempted, chosen as int, 0));
            }
        }
        proof {
            if attempted[chosen as int] {
                assert(attempted.update(chosen as int, true) =~= attempted);
            } else {
                lemma_count_update(attempted, chosen as int);
            }
        }
        round.made = round.made + 1;
        let mut marked = round.attempted.clone();
        marked.set(chosen, true);
        round.attempted = marked;
        assert(round@.attempted == attempted.update(chosen as int, true));
        assert(round_step(pre, self@, attempted, chosen as int, witness));
        assert(round_step(old(self)@, self@, old(round)@.attempted, chosen as int, witness));
        Some(chosen)
    }

    /// Records that the attempt on the endpoint at `index` failed with `error`:
    /// the endpoint is marked unhealthy and the error kept as the last one.
    pub fn report_failure(&mut self, round: &mut PoolRound, index: usize, error: String)
        ensures
            final(self)@ == (PoolState {
                healthy: if index < old(self)@.healthy.len() {
                    old(self)@.healthy.update(index as int, false)
                } else {
                    old(self)@.healthy
                },
                ..old(self)@
            }),
            final(round)@ == (PoolRoundView { last_error: Some(error@), ..old(round)@ }),
    {
        proof {
            use_type_invariant(&*round);
        }
        self.mark_unhealthy(index);
        round.last_error = Some(error);
    }
}

/// Under failover a request never tries an endpoint twice: each attempt goes to
/// an endpoint it had not tried, and once it made as many attempts as there are
/// endpoints, it tried every one.
pub proof fn lemma_round_tries_each_endpoint_once(
    pre: PoolState,
    post: PoolState,
    attempted: Seq<bool>,
    chosen: int,
    draw: int,
)
    requires
        pre.strategy is Failover,
        attempted.len() == pre.healthy.len(),
        count_true(attempted) < attempted.len(),
        round_step(pre, post, attempted, chosen, draw),
    ensures
        0 <= chosen < attempted.len(),
        !attempted[chosen],
        count_true(attempted.update(chosen, true)) == count_true(attempted) + 1,
        count_true(attempted.update(chosen, true)) == attempted.len() ==> forall|i: int|
            0 <= i < attempted.len() ==> attempted.update(chosen, true)[i],
{
    let first = available(pre.healthy, attempted);
    let cands = if count_true(first) == 0 { available(all_healthy(pre.healthy.len()), attempted) } else { first };
    lemma_count_untried(attempted);
    lemma_healthy_positions(cands);
    let p = healthy_positions(cands);
    let k = if pre.strategy is Random { draw } else if pre.strategy is RoundRobin {
        (pre.counter % p.len()) as int
    } else {
        0
    };
    assert(chosen == p[k]);
    lemma_count_update(attempted, chosen);
    lemma_count_bounds(attempted.update(chosen, true));
}

/// Failover tries the endpoints in the order they were added: each attempt goes
/// to the first healthy endpoint the request has not tried, or, when none is
/// left, to the first endpoint it has not tried. After a failure it moves on to
/// the next endpoint.
pub proof fn lemma_failover_round_moves_on(
    pre: PoolState,
    post: PoolState,
    attempted: Seq<bool>,
    chosen: int,
    draw: int,
)
    requires
        pre.strategy is Failover,
        attempted.len() == pre.healthy.len(),
        count_true(attempted) < attempted.len(),
        round_step(pre, post, attempted, chosen, draw),
    ensures
        !attempted[chosen],
        count_true(available(pre.healthy, attempted)) > 0 ==> pre.healthy[chosen] && forall|j: int|
            0 <= j < chosen ==> !(pre.healthy[j] && !attempted[j]),
        count_true(available(pre.healthy, attempted)) == 0 ==> forall|j: int| 0 <= j < chosen ==> attempted[j],
{
    let first = available(pre.healthy, attempted);
    let cands = if count_true(first) == 0 { available(all_healthy(pre.healthy.len()), attempted) } else { first };
    lemma_count_untried(attempted);
    lemma_healthy_positions(cands);
    let p = healthy_positions(cands);
    assert(chosen == p[0]);
    assert(cands[chosen]);
    assert forall|j: int| 0 <= j < chosen implies !cands[j] by {
        if cands[j] {
            assert(p.contains(j));
            let k = choose|k: int| 0 <= k < p.len() && p[k] == j;
            if k > 0 {
                assert(p[0] < p[k]);
            }
        }
    }
    if count_true(first) > 0 {
        assert forall|j: int| 0 <= j < chosen implies !(pre.healthy[j] && !attempted[j]) by {
            assert(!cands[j]);
            assert(cands[j] == (pre.healthy[j] && !attempted[j]));
        }
        assert(cands[chosen] == (pre.healthy[chosen] && !attempted[chosen]));
    } else {
        assert forall|j: int| 0 <= j < chosen implies attempted[j] by {
            assert(!cands[j]);
            assert(cands[j] == (all_healthy(pre.healthy.len())[j] && !attempted[j]));
        }
        assert(cands[chosen] == (all_healthy(pre.healthy.len())[chosen] && !attempted[chosen]));
    }
}

/// Round-robin serves requests in turn: on a pool whose endpoints are all
/// healthy, a request that meets no failure goes to the endpoint the counter
/// points to, leaves every endpoint healthy and moves the counter on by one. A
/// new pool starts at zero, so its k-th request goes to endpoint k modulo the
/// number of endpoints (until the counter wraps around at `usize::MAX`).
pub proof fn lemma_round_robin_takes_turns(pre: PoolState, post: PoolState, chosen: int, draw: int)
    requires
        pre.strategy is RoundRobin,
        pre.healthy.len() > 0,
        pre.healthy == all_healthy(pre.healthy.len()),
        pre.counter < usize::MAX,
        round_step(pre, post, Seq::new(pre.healthy.len(), |i: int| false), chosen, draw),
    ensures
        chosen == pre.counter % pre.healthy.len(),
        post.healthy == pre.healthy,
        post.counter == pre.counter + 1,
{
    let n = pre.healthy.len();
    let none = Seq::new(n, |i: int| false);
    assert(available(pre.healthy, none) =~= all_healthy(n));
    lemma_all_positions(n);
    assert(count_true(all_healthy(n)) == n);
}

/// Some endpoint is healthy.
pub open spec fn any_healthy(healthy: Seq<bool>) -> bool {
    exists|j: int| 0 <= j < healthy.len() && healthy[j]
}

/// A selection always picks an endpoint of the pool, and that endpoint is healthy
/// afterwards; while some endpoint is healthy, the one picked was healthy already.
pub proof fn lemma_selection_is_healthy(pre: PoolState, post: PoolState, chosen: int, draw: int)
    requires
        pre.healthy.len() > 0,
        select_step(pre, post, chosen, draw),
    ensures
        0 <= chosen < pre.healthy.len(),
        post.healthy[chosen],
        any_healthy(pre.healthy) ==> pre.healthy[chosen],
        !any_healthy(pre.healthy) ==> chosen == 0 && forall|j: int| 0 <= j < post.healthy.len() ==> post.healthy[j],
{
    lemma_healthy_positions(pre.healthy);
    let p = healthy_positions(pre.healthy);
    if any_healthy(pre.healthy) {
        let j = choose|j: int| 0 <= j < pre.healthy.len() && pre.healthy[j];
        assert(p.contains(j));
        let k = if pre.strategy is Random { draw } else if pre.strategy is RoundRobin {
            (pre.counter % p.len()) as int
        } else {
            0
        };
        assert(chosen == p[k]);
    } else {
        if p.len() > 0 {
            assert(pre.healthy[p[0]]);
        }
    }
}

/// An endpoint that is marked unhealthy is not picked again while another one
/// is healthy.
pub proof fn lemma_failed_endpoint_is_skipped(
    pre: PoolState,
    post: PoolState,
    chosen: int,
    draw: int,
    failed: int,
)
    requires
        pre.healthy.len() > 0,
        select_step(pre, post, chosen, draw),
        0 <= failed < pre.healthy.len(),
        !pre.healthy[failed],
        any_healthy(pre.healthy),
    ensures
        chosen != failed,
{
    lemma_selection_is_healthy(pre, post, chosen, draw);
}

/// Failover picks the first healthy endpoint in the order they were added.
pub proof fn lemma_failover_picks_first_healthy(pre: PoolState, post: PoolState, chosen: int, draw: int)
    requires
        pre.healthy.len() > 0,
        pre.strategy is Failover,
        any_healthy(pre.healthy),
        select_step(pre, post, chosen, draw),
    ensures
        pre.healthy[chosen],
        forall|j: int| 0 <= j < chosen ==> !pre.healthy[j],
{
    lemma_healthy_positions(pre.healthy);
    lemma_selection_is_healthy(pre, post, chosen, draw);
    let p = healthy_positions(pre.healthy);
    assert forall|j: int| 0 <= j < chosen implies !pre.healthy[j] by {
        if pre.healthy[j] {
            assert(p.contains(j));
            let k = choose|k: int| 0 <= k < p.len() && p[k] == j;
            if k > 0 {
                assert(p[0] < p[k]);
            }
        }
    }
}

/// Round-robin is fair: with the health of the endpoints unchanged, as many
/// consecutive picks as there are healthy endpoints pick each of them.
pub proof fn lemma_round_robin_visits_all(healthy: Seq<bool>, counter: nat, target: int)
    requires
        0 <= target < healthy.len(),
        healthy[target],
    ensures
        exists|k: nat| k < healthy_positions(healthy).len() && #[trigger] pick(
            healthy,
            CdpStrategy::RoundRobin,
            counter + k,
            0,
        ) == target,
{
    lemma_healthy_positions(healthy);
    let p = healthy_positions(healthy);
    let n = p.len();
    assert(p.contains(target));
    let m = choose|m: int| 0 <= m < n && p[m] == target;
    let c = (counter % n) as int;
    let k: nat = if m >= c { (m - c) as nat } else { (m - c + n) as nat };
    assert(0 <= c < n);
    assert(k < n);
    assert(((counter + k) as int) % (n as int) == m) by {
        vstd::arithmetic::div_mod::lemma_add_mod_noop(counter as int, k as int, n as int);
        vstd::arithmetic::div_mod::lemma_small_mod(k, n);
        if m >= c {
            vstd::arithmetic::div_mod::lemma_small_mod(m as nat, n);
        } else {
            vstd::arithmetic::div_mod::lemma_mod_add_multiples_vanish(m, n as int);
            vstd::arithmetic::div_mod::lemma_small_mod(m as nat, n);
        }
    }
    assert(pick(healthy, CdpStrategy::RoundRobin, counter + k, 0) == target);
}

/// Random selection can reach every healthy endpoint: for each, some draw
/// below the number of healthy endpoints picks it.
pub proof fn lemma_random_reaches_every_healthy(healthy: Seq<bool>, counter: nat, target: int)
    requires
        0 <= target < healthy.len(),
        healthy[target],
    ensures
        exists|draw: int|
            0 <= draw < count_true(healthy) && #[trigger] pick(healthy, CdpStrategy::Random, counter, draw) == target,
{
    lemma_healthy_positions(healthy);
    let p = healthy_positions(healthy);
    assert(p.contains(target));
    let k = choose|k: int| 0 <= k < p.len() && p[k] == target;
    assert(pick(healthy, CdpStrategy::Random, counter, k) == target);
}

} // verus!
