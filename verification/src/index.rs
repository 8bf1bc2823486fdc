//! The sharded index registry.
//!
//! An [`Index`] owns the shards of one logical vector index. Shards are
//! held in a vector kept strictly sorted by shard identifier, and a
//! monotone counter mints fresh identifiers, so an identifier is never
//! reused. The registry supports creating shards, looking them up, and
//! transferring vectors between them.
use vstd::prelude::*;

verus! {

/// Identifier of a shard within its registry; always at least 1.
pub type ShardId = usize;

/// One shard: a slice of an index's vectors assigned to one worker.
#[derive(Clone, Copy, Debug, PartialEq, Eq, Structural)]
pub struct IndexAssignment {
    /// The owning index.
    pub index_id: usize,
    /// This shard's identifier, unique within the owning registry.
    pub shard_id: ShardId,
    /// How many vectors the shard currently holds.
    pub num_vectors: usize,
    /// Dimensionality of each vector; shared by all shards of one index.
    pub vector_length: usize,
}

/// Failure of a shard lookup.
#[derive(Debug, PartialEq, Eq, Structural)]
pub enum GetShardError {
    /// No shard with this identifier exists in the registry.
    ShardNotFound { shard_id: ShardId },
}

/// Failure of a vector transfer between shards.
#[derive(Debug, PartialEq, Eq, Structural)]
pub enum AssignmentError {
    /// No shard with this identifier exists in the registry.
    ShardNotFound { shard_id: ShardId },
    /// The source shard holds fewer vectors than the transfer asks for.
    SourceShardTooSmall,
}

/// `a` with its vector count replaced by `n`.
pub open spec fn with_num_vectors(a: IndexAssignment, n: usize) -> IndexAssignment {
    IndexAssignment {
        index_id: a.index_id,
        shard_id: a.shard_id,
        num_vectors: n,
        vector_length: a.vector_length,
    }
}

/// The shard sequence after `amount` vectors moved from position `si` to
/// position `ti`.
pub open spec fn shards_after_move(
    shards: Seq<IndexAssignment>,
    si: int,
    ti: int,
    amount: usize,
) -> Seq<IndexAssignment>
    recommends
        0 <= si < shards.len(),
        0 <= ti < shards.len(),
        si != ti,
{
    shards.update(si, with_num_vectors(shards[si], (shards[si].num_vectors - amount) as usize))
        .update(ti, with_num_vectors(shards[ti], (shards[ti].num_vectors + amount) as usize))
}

/// The sum of a sequence of vector counts.
pub open spec fn sum_of(s: Seq<usize>) -> int
    decreases s.len(),
{
    if s.len() == 0 {
        0
    } else {
        sum_of(s.drop_last()) + s.last()
    }
}

proof fn lemma_sum_of_take_step(s: Seq<usize>, i: int)
    requires
        0 <= i < s.len(),
    ensures
        sum_of(s.take(i + 1)) == sum_of(s.take(i)) + s[i],
{
    assert(s.take(i + 1).drop_last() =~= s.take(i));
    assert(s.take(i + 1).last() == s[i]);
}

proof fn lemma_sum_of_take_le(s: Seq<usize>, i: int)
    requires
        0 <= i <= s.len(),
    ensures
        sum_of(s.take(i)) <= sum_of(s),
    decreases s.len() - i,
{
    if i < s.len() {
        lemma_sum_of_take_step(s, i);
        lemma_sum_of_take_le(s, i + 1);
    } else {
        assert(s.take(i) =~= s);
    }
}

/// The registry of all shards belonging to one logical index.
#[derive(Debug)]
pub struct Index {
    index_id: usize,
    num_vectors: usize,
    vector_length: usize,
    shards: Vec<IndexAssignment>,
    highest_shard_id: ShardId,
}

/// The abstract state of a registry.
pub struct IndexView {
    /// Stable identity of the index.
    pub index_id: usize,
    /// Aggregate vector count, set at construction. Mutating a shard
    /// afterwards does not update this cached total.
    pub num_vectors: usize,
    /// Dimensionality shared by every shard of this index.
    pub vector_length: usize,
    /// The shards, in strictly ascending order of shard identifier.
    pub shards: Seq<IndexAssignment>,
    /// The highest shard identifier ever issued by this registry.
    pub highest_shard_id: ShardId,
}

impl View for Index {
    type V = IndexView;

    closed spec fn view(&self) -> IndexView {
        IndexView {
            index_id: self.index_id,
            num_vectors: self.num_vectors,
            vector_length: self.vector_length,
            shards: self.shards@,
            highest_shard_id: self.highest_shard_id,
        }
    }
}

impl IndexView {
    /// The shard identifiers, in storage order.
    pub open spec fn id_seq(&self) -> Seq<ShardId> {
        self.shards.map_values(|a: IndexAssignment| a.shard_id)
    }

    /// Whether a shard with this identifier exists.
    pub open spec fn has_shard(&self, shard_id: ShardId) -> bool {
        self.id_seq().contains(shard_id)
    }

    /// The position of the shard with this identifier.
    pub open spec fn shard_index_of(&self, shard_id: ShardId) -> int {
        self.id_seq().index_of(shard_id)
    }

    /// The shard with this identifier.
    pub open spec fn shard(&self, shard_id: ShardId) -> IndexAssignment {
        self.shards[self.shard_index_of(shard_id)]
    }

    /// Well-formedness: at least one shard; the root shard has identifier 1;
    /// identifiers strictly ascend and never exceed the issue counter; every
    /// shard carries the registry's index identity and dimensionality.
    pub open spec fn wf(&self) -> bool {
        &&& self.shards.len() >= 1
        &&& self.shards[0].shard_id == 1
        &&& forall|i: int, j: int|
            0 <= i < j < self.shards.len() ==> #[trigger] self.shards[i].shard_id
                < #[trigger] self.shards[j].shard_id
        &&& forall|i: int|
            0 <= i < self.shards.len() ==> {
                &&& (#[trigger] self.shards[i]).index_id == self.index_id
                &&& self.shards[i].vector_length == self.vector_length
                &&& 1 <= self.shards[i].shard_id
                &&& self.shards[i].shard_id <= self.highest_shard_id
            }
        &&& self.highest_shard_id >= 1
    }

    /// In a well-formed registry a shard identifier occurs at one position
    /// at most.
    pub proof fn lemma_id_position_unique(&self, i: int, j: int)
        requires
            self.wf(),
            0 <= i < self.shards.len(),
            0 <= j < self.shards.len(),
            self.shards[i].shard_id == self.shards[j].shard_id,
        ensures
            i == j,
    {
        if i < j {
            assert(self.shards[i].shard_id < self.shards[j].shard_id);
        } else if j < i {
            assert(self.shards[j].shard_id < self.shards[i].shard_id);
        }
    }

    /// The shard at position `i` is found again by its own identifier.
    pub proof fn lemma_shard_index_at(&self, i: int)
        requires
            self.wf(),
            0 <= i < self.shards.len(),
        ensures
            self.has_shard(self.shards[i].shard_id),
            self.shard_index_of(self.shards[i].shard_id) == i,
            self.shard(self.shards[i].shard_id) == self.shards[i],
    {
        let id = self.shards[i].shard_id;
        assert(self.id_seq()[i] == id);
        assert(self.id_seq().contains(id));
        let j = self.id_seq().index_of(id);
        assert(0 <= j < self.id_seq().len() && self.id_seq()[j] == id);
        self.lemma_id_position_unique(i, j);
    }
}

impl Index {
    /// A registry whose vectors all sit in one root shard with identifier 1.
    pub fn new(index_id: usize, num_items: usize, vector_length: usize) -> (index: Index)
        ensures
            index@.wf(),
            index@ == (IndexView {
                index_id,
                num_vectors: num_items,
                vector_length,
                shards: seq![
                    (IndexAssignment {
                        index_id,
                        shard_id: 1,
                        num_vectors: num_items,
                        vector_length,
                    }),
                ],
                highest_shard_id: 1,
            }),
    {
        let first_shard = IndexAssignment {
            index_id,
            shard_id: 1,
            num_vectors: num_items,
            vector_length,
        };
        let mut shards: Vec<IndexAssignment> = Vec::new();
        shards.push(first_shard);
        Index { index_id, num_vectors: num_items, vector_length, shards, highest_shard_id: 1 }
    }

    /// A registry with one shard per entry of `num_items`, created in order:
    /// the first entry becomes the root shard with identifier 1, each later
    /// entry the next identifier. An empty slice still yields a root shard,
    /// holding zero vectors. The registry's aggregate count is the sum of
    /// the entries.
    pub fn new_from_shards(index_id: usize, num_items: &[usize], vector_length: usize) -> (index:
        Index)
        requires
            sum_of(num_items@) <= usize::MAX,
        ensures
            index@.wf(),
            index@.index_id == index_id,
            index@.vector_length == vector_length,
            index@.num_vectors == sum_of(num_items@),
            index@.shards.len() == if num_items@.len() == 0 {
                1int
            } else {
                num_items@.len() as int
            },
            index@.highest_shard_id == index@.shards.len(),
            forall|i: int|
                0 <= i < index@.shards.len() ==> #[trigger] index@.shards[i].shard_id == i + 1,
            forall|i: int|
                0 <= i < num_items@.len() ==> #[trigger] index@.shards[i].num_vectors
                    == num_items@[i],
            num_items@.len() == 0 ==> index@.shards[0].num_vectors == 0,
    {
        if num_items.len() == 0 {
            return Index::new(index_id, 0, vector_length);
        }
        let n = num_items.len();
        let mut shards: Vec<IndexAssignment> = Vec::new();
        let mut total: usize = 0;
        let mut i: usize = 0;
        while i < n
            invariant
                n == num_items@.len(),
                0 < n <= usize::MAX,
                i <= n,
                sum_of(num_items@) <= usize::MAX,
                shards@.len() == i,
                total == sum_of(num_items@.take(i as int)),
                forall|k: int|
                    0 <= k < i ==> #[trigger] shards@[k] == (IndexAssignment {
                        index_id,
                        shard_id: (k + 1) as usize,
                        num_vectors: num_items@[k],
                        vector_length,
                    }),
            decreases n - i,
        {
            let count = num_items[i];
            shards.push(
                IndexAssignment { index_id, shard_id: i + 1, num_vectors: count, vector_length },
            );
            proof {
                lemma_sum_of_take_step(num_items@, i as int);
                lemma_sum_of_take_le(num_items@, i + 1);
            }
            total = total + count;
            i = i + 1;
        }
        proof {
            assert(num_items@.take(n as int) =~= num_items@);
        }
        Index { index_id, num_vectors: total, vector_length, shards, highest_shard_id: n }
    }

    /// Stable identity of the index.
    pub fn index_id(&self) -> (id: usize)
        ensures
            id == self@.index_id,
    {
        self.index_id
    }

    /// Dimensionality shared by every shard of this index.
    pub fn vector_length(&self) -> (d: usize)
        ensures
            d == self@.vector_length,
    {
        self.vector_length
    }

    /// Total scan work of the whole index: vector count times dimensionality.
    pub fn weight(&self) -> (w: usize)
        requires
            self@.num_vectors * self@.vector_length <= usize::MAX,
        ensures
            w == self@.num_vectors * self@.vector_length,
    {
        self.num_vectors * self.vector_length
    }

    /// Mints the next shard identifier and inserts an empty shard under it.
    /// The new identifier is strictly greater than every identifier this
    /// registry has ever issued.
    pub fn create_empty_shard(&mut self) -> (shard_id: ShardId)
        requires
            old(self)@.wf(),
            old(self)@.highest_shard_id < usize::MAX,
        ensures
            final(self)@.wf(),
            shard_id == old(self)@.highest_shard_id + 1,
            forall|i: int|
                0 <= i < old(self)@.shards.len()
                    ==> #[trigger] old(self)@.shards[i].shard_id < shard_id,
            final(self)@ == (IndexView {
                shards: old(self)@.shards.push(
                    (IndexAssignment {
                        index_id: old(self)@.index_id,
                        shard_id: (old(self)@.highest_shard_id + 1) as usize,
                        num_vectors: 0,
                        vector_length: old(self)@.vector_length,
                    }),
                ),
                highest_shard_id: (old(self)@.highest_shard_id + 1) as usize,
                ..old(self)@
            }),
    {
        self.highest_shard_id = self.highest_shard_id + 1;
        let shard_id = self.highest_shard_id;
        let assignment = IndexAssignment {
            index_id: self.index_id,
            shard_id,
            num_vectors: 0,
            vector_length: self.vector_length,
        };
        self.shards.push(assignment);
        shard_id
    }

    /// Looks a shard up by identifier, returning a snapshot of it.
    pub fn shard(&self, shard_id: ShardId) -> (r: Result<IndexAssignment, GetShardError>)
        requires
            self@.wf(),
        ensures
            self@.has_shard(shard_id) ==> r == Ok::<IndexAssignment, GetShardError>(
                self@.shard(shard_id),
            ),
            !self@.has_shard(shard_id) ==> r == Err::<IndexAssignment, GetShardError>(
                GetShardError::ShardNotFound { shard_id },
            ),
    {
        match self.find_pos(shard_id) {
            Some(pos) => Ok(self.shards[pos]),
            None => Err(GetShardError::ShardNotFound { shard_id }),
        }
    }

    /// Looks a shard up by identifier, returning an exclusive-write handle
    /// to it. The caller may change the shard's fields; the registry's
    /// cached aggregate count is not kept in sync with such edits.
    pub fn get_shard_mut(&mut self, shard_id: ShardId) -> (r: Result<
        &mut IndexAssignment,
        GetShardError,
    >)
        requires
            old(self)@.wf(),
        ensures
            old(self)@.has_shard(shard_id) ==> (r matches Ok(a)
                && *a == old(self)@.shard(shard_id)
                && final(self)@ == (IndexView {
                    shards: old(self)@.shards.update(
                        old(self)@.shard_index_of(shard_id),
                        *final(a),
                    ),
                    ..old(self)@
                })),
            !old(self)@.has_shard(shard_id) ==> (r matches Err(e)
                && e == (GetShardError::ShardNotFound { shard_id })
                && final(self)@ == old(self)@),
    {
        match self.find_pos(shard_id) {
            Some(pos) => Ok(&mut self.shards[pos]),
            None => Err(GetShardError::ShardNotFound { shard_id }),
        }
    }

    /// Transfers `amount` vectors from the source shard to the target shard.
    /// Fails without mutating anything if the source (checked first) or the
    /// target is absent, or if the source holds fewer than `amount` vectors;
    /// otherwise both counts change together and snapshots of the two shards
    /// after the transfer are returned.
    pub fn move_data(
        &mut self,
        source_shard_id: ShardId,
        target_shard_id: ShardId,
        amount: usize,
    ) -> (r: Result<(IndexAssignment, IndexAssignment), AssignmentError>)
        requires
            old(self)@.wf(),
            source_shard_id != target_shard_id,
            old(self)@.has_shard(source_shard_id) && old(self)@.has_shard(target_shard_id)
                && amount <= old(self)@.shard(source_shard_id).num_vectors
                ==> old(self)@.shard(target_shard_id).num_vectors + amount <= usize::MAX,
        ensures
            final(self)@.wf(),
            final(self)@.index_id == old(self)@.index_id,
            final(self)@.num_vectors == old(self)@.num_vectors,
            final(self)@.vector_length == old(self)@.vector_length,
            final(self)@.highest_shard_id == old(self)@.highest_shard_id,
            final(self)@.id_seq() == old(self)@.id_seq(),
            !old(self)@.has_shard(source_shard_id)
                ==> r == Err::<(IndexAssignment, IndexAssignment), AssignmentError>(
                    AssignmentError::ShardNotFound { shard_id: source_shard_id },
                ) && final(self)@ == old(self)@,
            old(self)@.has_shard(source_shard_id) && !old(self)@.has_shard(target_shard_id)
                ==> r == Err::<(IndexAssignment, IndexAssignment), AssignmentError>(
                    AssignmentError::ShardNotFound { shard_id: target_shard_id },
                ) && final(self)@ == old(self)@,
            old(self)@.has_shard(source_shard_id) && old(self)@.has_shard(target_shard_id)
                && old(self)@.shard(source_shard_id).num_vectors < amount
                ==> r == Err::<(IndexAssignment, IndexAssignment), AssignmentError>(
                    AssignmentError::SourceShardTooSmall,
                ) && final(self)@ == old(self)@,
            old(self)@.has_shard(source_shard_id) && old(self)@.has_shard(target_shard_id)
                && amount <= old(self)@.shard(source_shard_id).num_vectors
                ==> (r matches Ok(pair)
                    && pair.0 == with_num_vectors(
                        old(self)@.shard(source_shard_id),
                        (old(self)@.shard(source_shard_id).num_vectors - amount) as usize,
                    )
                    && pair.1 == with_num_vectors(
                        old(self)@.shard(target_shard_id),
                        (old(self)@.shard(target_shard_id).num_vectors + amount) as usize,
                    )
                    && final(self)@.shards == shards_after_move(
                        old(self)@.shards,
                        old(self)@.shard_index_of(source_shard_id),
                        old(self)@.shard_index_of(target_shard_id),
                        amount,
                    )),
    {
        let source_pos = match self.find_pos(source_shard_id) {
            Some(pos) => pos,
            None => {
                return Err(AssignmentError::ShardNotFound { shard_id: source_shard_id });
            },
        };
        let target_pos = match self.find_pos(target_shard_id) {
            Some(pos) => pos,
            None => {
                return Err(AssignmentError::ShardNotFound { shard_id: target_shard_id });
            },
        };
        let source_shard = self.shards[source_pos];
        if source_shard.num_vectors < amount {
            return Err(AssignmentError::SourceShardTooSmall);
        }
        let target_shard = self.shards[target_pos];
        let new_source = with_num_vectors_exec(source_shard, source_shard.num_vectors - amount);
        let new_target = with_num_vectors_exec(target_shard, target_shard.num_vectors + amount);
        self.shards[source_pos] = new_source;
        self.shards[target_pos] = new_target;
        proof {
            assert(self@.id_seq() =~= old(self)@.id_seq());
        }
        Ok((new_source, new_target))
    }

    /// All shard identifiers, in strictly ascending order; one entry per
    /// shard.
    pub fn shard_ids(&self) -> (ids: Vec<ShardId>)
        requires
            self@.wf(),
        ensures
            ids@ == self@.id_seq(),
            ids@.len() == self@.shards.len(),
            forall|i: int, j: int|
                0 <= i < j < ids@.len() ==> #[trigger] ids@[i] < #[trigger] ids@[j],
    {
        let mut ids: Vec<ShardId> = Vec::new();
        let mut k: usize = 0;
        while k < self.shards.len()
            invariant
                k <= self@.shards.len(),
                ids@ =~= self@.id_seq().take(k as int),
            decreases self@.shards.len() - k,
        {
            ids.push(self.shards[k].shard_id);
            k = k + 1;
        }
        proof {
            assert(self@.id_seq().take(self@.shards.len() as int) =~= self@.id_seq());
        }
        ids
    }

    /// How many shards the registry holds.
    pub fn num_shards(&self) -> (n: usize)
        ensures
            n == self@.shards.len(),
    {
        self.shards.len()
    }

    /// The cached aggregate vector count.
    pub fn len(&self) -> (n: usize)
        ensures
            n == self@.num_vectors,
    {
        self.num_vectors
    }

    /// Whether the cached aggregate vector count is zero.
    pub fn is_empty(&self) -> (b: bool)
        ensures
            b == (self@.num_vectors == 0),
    {
        self.num_vectors == 0
    }

    /// The identifier of the root shard, the first shard of every registry.
    pub fn root_shard_id() -> (id: ShardId)
        ensures
            id == 1,
    {
        1
    }

    /// The shard at a storage position; positions follow ascending shard
    /// identifier order.
    pub fn shard_at(&self, pos: usize) -> (a: IndexAssignment)
        requires
            pos < self@.shards.len(),
        ensures
            a == self@.shards[pos as int],
    {
        self.shards[pos]
    }

    /// Snapshots of all shards, in ascending shard identifier order.
    pub fn assignments(&self) -> (v: Vec<IndexAssignment>)
        ensures
            v@ == self@.shards,
    {
        let mut v: Vec<IndexAssignment> = Vec::new();
        let mut k: usize = 0;
        while k < self.shards.len()
            invariant
                k <= self@.shards.len(),
                v@ =~= self@.shards.take(k as int),
            decreases self@.shards.len() - k,
        {
            v.push(self.shards[k]);
            k = k + 1;
        }
        proof {
            assert(self@.shards.take(self@.shards.len() as int) =~= self@.shards);
        }
        v
    }

    /// The storage position of the shard with this identifier, if any.
    fn find_pos(&self, shard_id: ShardId) -> (pos: Option<usize>)
        requires
            self@.wf(),
        ensures
            match pos {
                Some(p) => {
                    &&& self@.has_shard(shard_id)
                    &&& p < self@.shards.len()
                    &&& p == self@.shard_index_of(shard_id)
                    &&& self@.shards[p as int] == self@.shard(shard_id)
                },
                None => !self@.has_shard(shard_id),
            },
    {
        let mut k: usize = 0;
        while k < self.shards.len()
            invariant
                self@.wf(),
                k <= self@.shards.len(),
                forall|j: int| 0 <= j < k ==> #[trigger] self@.shards[j].shard_id != shard_id,
            decreases self@.shards.len() - k,
        {
            if self.shards[k].shard_id == shard_id {
                proof {
                    self@.lemma_shard_index_at(k as int);
                }
                return Some(k);
            }
            k = k + 1;
        }
        proof {
            assert forall|j: int| 0 <= j < self@.id_seq().len() implies self@.id_seq()[j]
                != shard_id by {
                assert(self@.id_seq()[j] == self@.shards[j].shard_id);
            }
        }
        None
    }
}

/// `a` with its vector count replaced by `n` (executable twin of
/// [`with_num_vectors`]).
fn with_num_vectors_exec(a: IndexAssignment, n: usize) -> (r: IndexAssignment)
    ensures
        r == with_num_vectors(a, n),
{
    IndexAssignment {
        index_id: a.index_id,
        shard_id: a.shard_id,
        num_vectors: n,
        vector_length: a.vector_length,
    }
}

impl IndexAssignment {
    /// Scan work of this shard: vector count times dimensionality.
    pub fn weight(&self) -> (w: usize)
        requires
            self.num_vectors * self.vector_length <= usize::MAX,
        ensures
            w == self.num_vectors * self.vector_length,
    {
        self.num_vectors * self.vector_length
    }

    /// Work units held by this shard; same measure as [`Self::weight`].
    pub fn len(&self) -> (w: usize)
        requires
            self.num_vectors * self.vector_length <= usize::MAX,
        ensures
            w == self.num_vectors * self.vector_length,
    {
        self.num_vectors * self.vector_length
    }

    /// Whether the shard holds no vectors.
    pub fn is_empty(&self) -> (b: bool)
        ensures
            b == (self.num_vectors == 0),
    {
        self.num_vectors == 0
    }
}

/// Law: transferring `amount` vectors from one shard to another and then
/// transferring `amount` back restores every shard to its original state,
/// provided nothing else changed in between. The two transitions are
/// exactly the shard sequence transitions that `Index::move_data` ensures
/// on success.
pub proof fn lemma_move_round_trip(index: IndexView, a: ShardId, b: ShardId, amount: usize)
    requires
        index.wf(),
        a != b,
        index.has_shard(a),
        index.has_shard(b),
        amount <= index.shard(a).num_vectors,
        index.shard(b).num_vectors + amount <= usize::MAX,
    ensures
        shards_after_move(
            shards_after_move(index.shards, index.shard_index_of(a), index.shard_index_of(b), amount),
            index.shard_index_of(b),
            index.shard_index_of(a),
            amount,
        ) == index.shards,
{
    let ai = index.shard_index_of(a);
    let bi = index.shard_index_of(b);
    assert(0 <= ai < index.shards.len() && index.id_seq()[ai] == a);
    assert(0 <= bi < index.shards.len() && index.id_seq()[bi] == b);
    let once = shards_after_move(index.shards, ai, bi, amount);
    let twice = shards_after_move(once, bi, ai, amount);
    assert(twice =~= index.shards);
}

} // verus!
