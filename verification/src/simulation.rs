//! The latency simulator.
//!
//! A [`Simulation`] owns a set of sharded index registries together with
//! the cost coefficients of a scatter-gather query and a thread count.
//! [`Simulation::simulate_find`] applies a closed-form cost model over the
//! shards of one index: every shard is scanned in parallel, so the search
//! phase lasts as long as the slowest shard, while each shard's dispatch
//! and collection overheads add up.
use vstd::prelude::*;

verus! {

use crate::index::Index;
use crate::index::IndexAssignment;
use crate::index::IndexView;
use crate::timing::Duration;
use crate::timing::lemma_duration_eq;
use vstd::arithmetic::div_mod::lemma_div_basics;
use vstd::arithmetic::mul::lemma_mul_inequality;
use vstd::arithmetic::mul::lemma_mul_is_distributive_add;

/// Failure of a simulated query.
#[derive(Debug, PartialEq, Eq, Structural)]
pub enum SimulationError {
    /// No registry with this index identifier was registered.
    IndexNotFound { index_id: usize },
}

/// The registries of a sequence of indexes, as views.
pub open spec fn index_views(indexes: Seq<Index>) -> Seq<IndexView> {
    indexes.map_values(|x: Index| x@)
}

/// `indexes` with `x` added: an entry with the same index identifier is
/// overwritten, otherwise `x` is appended.
pub open spec fn upsert_index(indexes: Seq<IndexView>, x: IndexView) -> Seq<IndexView> {
    let ids = indexes.map_values(|v: IndexView| v.index_id);
    if ids.contains(x.index_id) {
        indexes.update(ids.index_of(x.index_id), x)
    } else {
        indexes.push(x)
    }
}

/// The abstract state of a simulation: the registered registries, the cost
/// coefficients (all in attoseconds), and the thread count.
pub struct SimulationView {
    /// The registered registries.
    pub indexes: Seq<IndexView>,
    /// Scan cost per vector element (attoseconds).
    pub element_cost: u128,
    /// Fixed scan cost per vector (attoseconds).
    pub vector_cost: u128,
    /// Dispatch cost per shard (attoseconds).
    pub scatter_cost: u128,
    /// Collection cost per shard (attoseconds).
    pub gather_cost: u128,
    /// How many threads scan a shard in parallel; at least 1.
    pub thread_count: usize,
    /// Fixed cost per thread spun up (attoseconds).
    pub thread_cost: u128,
}

impl SimulationView {
    /// The registered index identifiers, in registration order.
    pub open spec fn index_ids(&self) -> Seq<usize> {
        self.indexes.map_values(|x: IndexView| x.index_id)
    }

    /// Whether a registry with this index identifier is registered.
    pub open spec fn has_index(&self, index_id: usize) -> bool {
        self.index_ids().contains(index_id)
    }

    /// The position of the registry with this index identifier.
    pub open spec fn index_pos(&self, index_id: usize) -> int {
        self.index_ids().index_of(index_id)
    }

    /// The registry with this index identifier.
    pub open spec fn index(&self, index_id: usize) -> IndexView {
        self.indexes[self.index_pos(index_id)]
    }

    /// Well-formedness: a positive thread count, distinct index
    /// identifiers, and well-formed registries.
    pub open spec fn wf(&self) -> bool {
        &&& self.thread_count >= 1
        &&& forall|i: int, j: int|
            0 <= i < j < self.indexes.len() ==> (#[trigger] self.indexes[i]).index_id
                != (#[trigger] self.indexes[j]).index_id
        &&& forall|i: int| 0 <= i < self.indexes.len() ==> (#[trigger] self.indexes[i]).wf()
    }

    /// In a well-formed simulation an index identifier occurs at one
    /// position at most.
    pub proof fn lemma_index_pos_unique(&self, i: int, j: int)
        requires
            self.wf(),
            0 <= i < self.indexes.len(),
            0 <= j < self.indexes.len(),
            self.indexes[i].index_id == self.indexes[j].index_id,
        ensures
            i == j,
    {
        if i < j {
            assert(self.indexes[i].index_id != self.indexes[j].index_id);
        } else if j < i {
            assert(self.indexes[j].index_id != self.indexes[i].index_id);
        }
    }

    /// The registry at position `i` is found again by its own identifier.
    pub proof fn lemma_index_pos_at(&self, i: int)
        requires
            self.wf(),
            0 <= i < self.indexes.len(),
        ensures
            self.has_index(self.indexes[i].index_id),
            self.index_pos(self.indexes[i].index_id) == i,
            self.index(self.indexes[i].index_id) == self.indexes[i],
    {
        let id = self.indexes[i].index_id;
        assert(self.index_ids()[i] == id);
        assert(self.index_ids().contains(id));
        let j = self.index_ids().index_of(id);
        assert(0 <= j < self.index_ids().len() && self.index_ids()[j] == id);
        self.lemma_index_pos_unique(i, j);
    }

    /// Cost of scoring one vector of shard `a`: a term proportional to the
    /// dimensionality plus a fixed term.
    pub open spec fn per_vector_time(&self, a: IndexAssignment) -> int {
        self.element_cost * a.vector_length + self.vector_cost
    }

    /// Serial cost of scanning all of shard `a`.
    pub open spec fn serial_shard_time(&self, a: IndexAssignment) -> int {
        self.per_vector_time(a) * a.num_vectors
    }

    /// Cost of scanning shard `a` with the configured threads: the serial
    /// cost divided over the threads, plus a fixed overhead per thread
    /// spun up.
    pub open spec fn threaded_shard_time(&self, a: IndexAssignment) -> int {
        self.serial_shard_time(a) / (self.thread_count as int) + self.thread_cost
            * self.thread_count
    }

    /// Duration of the search phase over `shards`: all shards are scanned
    /// in parallel, so the phase ends when the slowest shard finishes.
    pub open spec fn search_time(&self, shards: Seq<IndexAssignment>) -> int
        decreases shards.len(),
    {
        if shards.len() == 0 {
            0
        } else {
            vstd::math::max(
                self.search_time(shards.drop_last()),
                self.threaded_shard_time(shards.last()),
            )
        }
    }

    /// Duration of the search phase with one thread and no overhead: the
    /// slowest serial shard scan.
    pub open spec fn serial_search_time(&self, shards: Seq<IndexAssignment>) -> int
        decreases shards.len(),
    {
        if shards.len() == 0 {
            0
        } else {
            vstd::math::max(
                self.serial_search_time(shards.drop_last()),
                self.serial_shard_time(shards.last()),
            )
        }
    }

    /// Predicted duration of one query over `shards`: the search phase
    /// plus one dispatch and one collection overhead per shard.
    pub open spec fn total_time(&self, shards: Seq<IndexAssignment>) -> int {
        self.search_time(shards) + self.scatter_cost * shards.len() + self.gather_cost
            * shards.len()
    }

    /// Every intermediate value of the cost model over `shards` fits the
    /// machine arithmetic.
    pub open spec fn fits(&self, shards: Seq<IndexAssignment>) -> bool {
        &&& self.thread_cost * self.thread_count <= u128::MAX
        &&& forall|i: int|
            0 <= i < shards.len() ==> {
                &&& self.per_vector_time(#[trigger] shards[i]) <= u128::MAX
                &&& self.serial_shard_time(shards[i]) <= u128::MAX
                &&& self.threaded_shard_time(shards[i]) <= u128::MAX
            }
        &&& self.scatter_cost * shards.len() <= u128::MAX
        &&& self.gather_cost * shards.len() <= u128::MAX
        &&& self.total_time(shards) <= u128::MAX
    }
}

proof fn lemma_search_time_step(v: SimulationView, shards: Seq<IndexAssignment>, k: int)
    requires
        0 <= k < shards.len(),
    ensures
        v.search_time(shards.take(k + 1)) == vstd::math::max(
            v.search_time(shards.take(k)),
            v.threaded_shard_time(shards[k]),
        ),
{
    assert(shards.take(k + 1).drop_last() =~= shards.take(k));
    assert(shards.take(k + 1).last() == shards[k]);
}

/// The simulator: an immutable set of registries, cost coefficients, and
/// a thread count, built once by [`SimulationBuilder`].
#[derive(Debug)]
pub struct Simulation {
    indexes: Vec<Index>,
    search_cost_per_vector_element: Duration,
    search_cost_per_vector: Duration,
    search_cost_per_scatter: Duration,
    search_cost_per_gather: Duration,
    thread_count: usize,
    threading_cost: Duration,
}

impl View for Simulation {
    type V = SimulationView;

    closed spec fn view(&self) -> SimulationView {
        SimulationView {
            indexes: index_views(self.indexes@),
            element_cost: self.search_cost_per_vector_element@,
            vector_cost: self.search_cost_per_vector@,
            scatter_cost: self.search_cost_per_scatter@,
            gather_cost: self.search_cost_per_gather@,
            thread_count: self.thread_count,
            thread_cost: self.threading_cost@,
        }
    }
}

/// Accumulates registries and cost coefficients, then produces an
/// immutable [`Simulation`].
pub struct SimulationBuilder {
    indexes: Vec<Index>,
    search_cost_per_vector_element: Duration,
    search_cost_per_vector: Duration,
    search_cost_per_scatter: Duration,
    search_cost_per_gather: Duration,
    thread_count: usize,
    threading_cost: Duration,
}

impl View for SimulationBuilder {
    type V = SimulationView;

    closed spec fn view(&self) -> SimulationView {
        SimulationView {
            indexes: index_views(self.indexes@),
            element_cost: self.search_cost_per_vector_element@,
            vector_cost: self.search_cost_per_vector@,
            scatter_cost: self.search_cost_per_scatter@,
            gather_cost: self.search_cost_per_gather@,
            thread_count: self.thread_count,
            thread_cost: self.threading_cost@,
        }
    }
}

impl Default for SimulationBuilder {
    /// A builder with no registries, all costs zero, one thread, and no
    /// per-thread overhead.
    fn default() -> (b: SimulationBuilder)
        ensures
            b@.wf(),
            b@ == (SimulationView {
                indexes: Seq::<IndexView>::empty(),
                element_cost: 0,
                vector_cost: 0,
                scatter_cost: 0,
                gather_cost: 0,
                thread_count: 1,
                thread_cost: 0,
            }),
    {
        let b = SimulationBuilder {
            indexes: Vec::new(),
            search_cost_per_vector_element: Duration::zero(),
            search_cost_per_vector: Duration::zero(),
            search_cost_per_scatter: Duration::zero(),
            search_cost_per_gather: Duration::zero(),
            thread_count: 1,
            threading_cost: Duration::zero(),
        };
        proof {
            assert(b@.indexes =~= Seq::<IndexView>::empty());
        }
        b
    }
}

impl SimulationBuilder {
    /// Registers a registry; a registry already registered under the same
    /// index identifier is overwritten.
    pub fn with_index(self, index: Index) -> (b: SimulationBuilder)
        requires
            self@.wf(),
            index@.wf(),
        ensures
            b@.wf(),
            b@ == (SimulationView { indexes: upsert_index(self@.indexes, index@), ..self@ }),
    {
        let mut b = self;
        let n = b.indexes.len();
        let mut k: usize = 0;
        while k < n
            invariant
                self@.wf(),
                index@.wf(),
                b == self,
                n == b.indexes@.len(),
                k <= n,
                forall|j: int|
                    0 <= j < k ==> (#[trigger] index_views(b.indexes@)[j]).index_id
                        != index@.index_id,
            decreases n - k,
        {
            if b.indexes[k].index_id() == index.index_id() {
                proof {
                    self@.lemma_index_pos_at(k as int);
                }
                b.indexes[k] = index;
                proof {
                    assert(b@.indexes =~= self@.indexes.update(k as int, index@));
                    assert(b@.indexes == upsert_index(self@.indexes, index@));
                }
                return b;
            }
            k = k + 1;
        }
        proof {
            assert forall|j: int| 0 <= j < self@.indexes.len() implies self@.index_ids()[j]
                != index@.index_id by {
                assert(self@.index_ids()[j] == index_views(self.indexes@)[j].index_id);
            }
            assert(!self@.index_ids().contains(index@.index_id));
        }
        b.indexes.push(index);
        proof {
            assert(b@.indexes =~= self@.indexes.push(index@));
        }
        b
    }

    /// Sets the scan cost coefficients: per vector element scored, and
    /// fixed per vector.
    pub fn with_search_cost(self, per_element: Duration, per_vector: Duration) -> (b:
        SimulationBuilder)
        ensures
            b@ == (SimulationView {
                element_cost: per_element@,
                vector_cost: per_vector@,
                ..self@
            }),
    {
        let mut b = self;
        b.search_cost_per_vector_element = per_element;
        b.search_cost_per_vector = per_vector;
        b
    }

    /// Sets the per-shard dispatch and collection cost coefficients.
    pub fn with_scatter_gather_cost(self, scatter: Duration, gather: Duration) -> (b:
        SimulationBuilder)
        ensures
            b@ == (SimulationView { scatter_cost: scatter@, gather_cost: gather@, ..self@ }),
    {
        let mut b = self;
        b.search_cost_per_scatter = scatter;
        b.search_cost_per_gather = gather;
        b
    }

    /// Sets the thread count and the fixed cost of spinning one thread up.
    /// A thread count of zero is a configuration error and is ruled out.
    pub fn with_threads(self, num_threads: usize, cost: Duration) -> (b: SimulationBuilder)
        requires
            num_threads >= 1,
        ensures
            b@ == (SimulationView { thread_count: num_threads, thread_cost: cost@, ..self@ }),
    {
        let mut b = self;
        b.thread_count = num_threads;
        b.threading_cost = cost;
        b
    }

    /// Finalizes the accumulated configuration into an immutable
    /// [`Simulation`].
    pub fn build(self) -> (sim: Simulation)
        ensures
            sim@ == self@,
    {
        Simulation {
            indexes: self.indexes,
            search_cost_per_vector_element: self.search_cost_per_vector_element,
            search_cost_per_vector: self.search_cost_per_vector,
            search_cost_per_scatter: self.search_cost_per_scatter,
            search_cost_per_gather: self.search_cost_per_gather,
            thread_count: self.thread_count,
            threading_cost: self.threading_cost,
        }
    }
}

impl Simulation {
    /// Predicts the duration of one query against the named index by the
    /// cost model: the slowest threaded shard scan, plus one dispatch and
    /// one collection overhead per shard.
    pub fn simulate_find(&self, index_id: usize) -> (r: Result<Duration, SimulationError>)
        requires
            self@.wf(),
            self@.has_index(index_id) ==> self@.fits(self@.index(index_id).shards),
        ensures
            self@.has_index(index_id) ==> (r matches Ok(d) && d@ == self@.total_time(
                self@.index(index_id).shards,
            )),
            !self@.has_index(index_id) ==> r == Err::<Duration, SimulationError>(
                SimulationError::IndexNotFound { index_id },
            ),
    {
        let pos = match self.find_index_pos(index_id) {
            Some(pos) => pos,
            None => {
                return Err(SimulationError::IndexNotFound { index_id });
            },
        };
        let index = &self.indexes[pos];
        proof {
            assert(index@ == self@.index(index_id));
        }
        let ghost shards = self@.index(index_id).shards;
        let num_shards = index.num_shards();
        let element_cost = self.search_cost_per_vector_element.as_attos();
        let vector_cost = self.search_cost_per_vector.as_attos();
        let scatter_cost = self.search_cost_per_scatter.as_attos();
        let gather_cost = self.search_cost_per_gather.as_attos();
        let thread_total: u128 = self.threading_cost.as_attos() * (self.thread_count as u128);
        let mut search_time: u128 = 0;
        let mut scatter_time: u128 = 0;
        let mut gather_time: u128 = 0;
        let mut k: usize = 0;
        while k < num_shards
            invariant
                self@.wf(),
                self@.has_index(index_id),
                self@.fits(shards),
                shards == self@.index(index_id).shards,
                index@ == self@.index(index_id),
                num_shards == shards.len(),
                k <= num_shards,
                element_cost == self@.element_cost,
                vector_cost == self@.vector_cost,
                scatter_cost == self@.scatter_cost,
                gather_cost == self@.gather_cost,
                thread_total == self@.thread_cost * self@.thread_count,
                search_time == self@.search_time(shards.take(k as int)),
                scatter_time == self@.scatter_cost * k,
                gather_time == self@.gather_cost * k,
            decreases num_shards - k,
        {
            let a = index.shard_at(k);
            proof {
                assert(a == shards[k as int]);
                lemma_mul_inequality(k + 1, shards.len() as int, self@.scatter_cost as int);
                lemma_mul_inequality(k + 1, shards.len() as int, self@.gather_cost as int);
                lemma_mul_is_distributive_add(self@.scatter_cost as int, k as int, 1);
                lemma_mul_is_distributive_add(self@.gather_cost as int, k as int, 1);
                lemma_search_time_step(self@, shards, k as int);
            }
            let per_vector_time = element_cost * (a.vector_length as u128) + vector_cost;
            let serial = per_vector_time * (a.num_vectors as u128);
            let threaded = serial / (self.thread_count as u128) + thread_total;
            if threaded > search_time {
                search_time = threaded;
            }
            scatter_time = scatter_time + scatter_cost;
            gather_time = gather_time + gather_cost;
            k = k + 1;
        }
        proof {
            assert(shards.take(num_shards as int) =~= shards);
        }
        Ok(Duration::from_attos(search_time + scatter_time + gather_time))
    }

    /// The registered index identifiers, in registration order.
    pub fn index_ids(&self) -> (ids: Vec<usize>)
        ensures
            ids@ == self@.index_ids(),
    {
        let mut ids: Vec<usize> = Vec::new();
        let mut k: usize = 0;
        while k < self.indexes.len()
            invariant
                k <= self@.indexes.len(),
                self@.indexes.len() == self.indexes@.len(),
                ids@ =~= self@.index_ids().take(k as int),
            decreases self@.indexes.len() - k,
        {
            let id = self.indexes[k].index_id();
            proof {
                assert(self@.index_ids()[k as int] == index_views(self.indexes@)[k as int].index_id);
            }
            ids.push(id);
            k = k + 1;
        }
        proof {
            assert(self@.index_ids().take(self@.indexes.len() as int) =~= self@.index_ids());
        }
        ids
    }

    /// The registry registered under this index identifier.
    pub fn index(&self, index_id: usize) -> (r: Result<&Index, SimulationError>)
        requires
            self@.wf(),
        ensures
            self@.has_index(index_id) ==> (r matches Ok(x) && x@ == self@.index(index_id)),
            !self@.has_index(index_id) ==> r == Err::<&Index, SimulationError>(
                SimulationError::IndexNotFound { index_id },
            ),
    {
        match self.find_index_pos(index_id) {
            Some(pos) => Ok(&self.indexes[pos]),
            None => Err(SimulationError::IndexNotFound { index_id }),
        }
    }

    /// How many threads the simulator assumes scan a shard in parallel.
    pub fn thread_count(&self) -> (n: usize)
        ensures
            n == self@.thread_count,
    {
        self.thread_count
    }

    /// The position of the registry with this index identifier, if any.
    fn find_index_pos(&self, index_id: usize) -> (pos: Option<usize>)
        requires
            self@.wf(),
        ensures
            match pos {
                Some(p) => {
                    &&& self@.has_index(index_id)
                    &&& p < self@.indexes.len()
                    &&& p == self@.index_pos(index_id)
                    &&& self@.indexes[p as int] == self@.index(index_id)
                },
                None => !self@.has_index(index_id),
            },
    {
        let mut k: usize = 0;
        while k < self.indexes.len()
            invariant
                self@.wf(),
                k <= self@.indexes.len(),
                self@.indexes.len() == self.indexes@.len(),
                forall|j: int|
                    0 <= j < k ==> (#[trigger] self@.indexes[j]).index_id != index_id,
            decreases self@.indexes.len() - k,
        {
            if self.indexes[k].index_id() == index_id {
                proof {
                    self@.lemma_index_pos_at(k as int);
                }
                return Some(k);
            }
            k = k + 1;
        }
        proof {
            assert forall|j: int| 0 <= j < self@.index_ids().len() implies self@.index_ids()[j]
                != index_id by {
                assert(self@.index_ids()[j] == self@.indexes[j].index_id);
            }
        }
        None
    }
}

/// Law: a simulated query is deterministic. Its contract pins the result
/// to a function of the configuration alone, so any two results that meet
/// the contract of `Simulation::simulate_find` for the same simulation and
/// index identifier are equal.
pub proof fn lemma_simulate_find_deterministic(
    sim: Simulation,
    index_id: usize,
    r1: Result<Duration, SimulationError>,
    r2: Result<Duration, SimulationError>,
)
    requires
        sim@.has_index(index_id) ==> (r1 matches Ok(d) && d@ == sim@.total_time(
            sim@.index(index_id).shards,
        )),
        sim@.has_index(index_id) ==> (r2 matches Ok(d) && d@ == sim@.total_time(
            sim@.index(index_id).shards,
        )),
        !sim@.has_index(index_id) ==> r1 == Err::<Duration, SimulationError>(
            SimulationError::IndexNotFound { index_id },
        ),
        !sim@.has_index(index_id) ==> r2 == Err::<Duration, SimulationError>(
            SimulationError::IndexNotFound { index_id },
        ),
    ensures
        r1 == r2,
{
    if sim@.has_index(index_id) {
        lemma_duration_eq(r1->Ok_0, r2->Ok_0);
    }
}

/// Law: with a single thread and zero per-thread overhead the cost model
/// reduces to the serial formula: the slowest serial shard scan, plus one
/// dispatch and one collection overhead per shard.
pub proof fn lemma_single_thread_is_serial(v: SimulationView, shards: Seq<IndexAssignment>)
    requires
        v.thread_count == 1,
        v.thread_cost == 0,
    ensures
        v.search_time(shards) == v.serial_search_time(shards),
        v.total_time(shards) == v.serial_search_time(shards) + v.scatter_cost * shards.len()
            + v.gather_cost * shards.len(),
    decreases shards.len(),
{
    if shards.len() > 0 {
        lemma_single_thread_is_serial(v, shards.drop_last());
        assert(v.threaded_shard_time(shards.last()) == v.serial_shard_time(shards.last())) by {
            lemma_div_basics(v.serial_shard_time(shards.last()));
        }
    }
}

} // verus!
