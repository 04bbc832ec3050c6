use vstd::prelude::*;
use crate::errors::DigitalAssetError;
use crate::models::committee::{Committee, NodeAddress};
use crate::models::shard::{Shard, ShardKey};

verus! {

/// True when `s` holds a committee for shard id `id`.
pub open spec fn committees_contain(s: Seq<(u64, Seq<NodeAddress>)>, id: u64) -> bool {
    exists|i: int| 0 <= i < s.len() && s[i].0 == id
}

/// The members recorded for shard id `id` (meaningful only when present).
pub open spec fn committee_members(s: Seq<(u64, Seq<NodeAddress>)>, id: u64) -> Seq<NodeAddress> {
    let i = choose|i: int| 0 <= i < s.len() && s[i].0 == id;
    s[i].1
}

/// First-match routing of a key byte through the range table: a row
/// `(start, end, shard)` routes bytes `start <= b < end`.
pub open spec fn spec_route(s: Seq<(u8, u8, u64)>, b: u8) -> Option<u64>
    decreases s.len(),
{
    if s.len() == 0 {
        None
    } else if s[0].0 <= b && b < s[0].1 {
        Some(s[0].2)
    } else {
        spec_route(s.drop_first(), b)
    }
}

/// Resolves which addresses form the committee for a shard, routes shard
/// keys to shards, and knows which shard this node participates in.
/// Committees are replaced wholesale between views, never mid-phase.
#[derive(Debug)]
pub struct CommitteeManager {
    pub shard_committees: Vec<(Shard, Committee)>,
    pub shard_map: Vec<(u8, u8, Shard)>,
    pub current_shard: Shard,
}

impl CommitteeManager {
    /// Shard ids occur at most once in the committee table.
    pub open spec fn well_formed(&self) -> bool {
        forall|i: int, j: int|
            0 <= i < j < self.spec_committees().len() ==> self.spec_committees()[i].0
                != self.spec_committees()[j].0
    }

    pub open spec fn spec_committees(&self) -> Seq<(u64, Seq<NodeAddress>)> {
        self.shard_committees@.map(
            |i: int, e: (Shard, Committee)| (e.0.id, e.1.members@),
        )
    }

    pub open spec fn spec_shard_map(&self) -> Seq<(u8, u8, u64)> {
        self.shard_map@.map(|i: int, e: (u8, u8, Shard)| (e.0, e.1, e.2.id))
    }

    pub open spec fn spec_current_shard(&self) -> Shard {
        self.current_shard
    }

    pub fn new(current_shard: Shard) -> (r: CommitteeManager)
        ensures
            r.spec_committees() == Seq::<(u64, Seq<NodeAddress>)>::empty(),
            r.spec_shard_map() == Seq::<(u8, u8, u64)>::empty(),
            r.spec_current_shard() == current_shard,
            r.well_formed(),
    {
        let r = CommitteeManager {
            shard_committees: Vec::new(),
            shard_map: Vec::new(),
            current_shard,
        };
        proof {
            assert(r.spec_committees() =~= Seq::<(u64, Seq<NodeAddress>)>::empty());
            assert(r.spec_shard_map() =~= Seq::<(u8, u8, u64)>::empty());
        }
        r
    }

    /// In a well-formed table an id occurs at most once.
    proof fn lemma_unique(&self, i: int)
        requires
            self.well_formed(),
            0 <= i < self.spec_committees().len(),
        ensures
            forall|j: int|
                0 <= j < self.spec_committees().len() && self.spec_committees()[j].0
                    == self.spec_committees()[i].0 ==> j == i,
            committees_contain(self.spec_committees(), self.spec_committees()[i].0),
            committee_members(self.spec_committees(), self.spec_committees()[i].0)
                == self.spec_committees()[i].1,
    {
    }

    /// Adds `node` to `shard`'s committee and routes `range_start <= b <
    /// range_end` key bytes to `shard`.
    pub fn assign(&mut self, shard: Shard, range_start: u8, range_end: u8, node: NodeAddress)
        requires
            old(self).well_formed(),
        ensures
            final(self).well_formed(),
            final(self).spec_current_shard() == old(self).spec_current_shard(),
            final(self).spec_shard_map() == old(self).spec_shard_map().push(
                (range_start, range_end, shard.id),
            ),
            committees_contain(final(self).spec_committees(), shard.id),
            !committees_contain(old(self).spec_committees(), shard.id) ==> committee_members(
                final(self).spec_committees(),
                shard.id,
            ) == seq![node],
            committees_contain(old(self).spec_committees(), shard.id) ==> committee_members(
                final(self).spec_committees(),
                shard.id,
            ) == committee_members(old(self).spec_committees(), shard.id).push(node),
            forall|id: u64|
                id != shard.id ==> (committees_contain(final(self).spec_committees(), id)
                    == committees_contain(old(self).spec_committees(), id) && (committees_contain(
                    old(self).spec_committees(),
                    id,
                ) ==> committee_members(final(self).spec_committees(), id) == committee_members(
                    old(self).spec_committees(),
                    id,
                ))),
    {
        let ghost pre = self.spec_committees();
        let mut i: usize = 0;
        let mut found: bool = false;
        while i < self.shard_committees.len() && !found
            invariant
                i <= pre.len(),
                self.spec_committees() == pre,
                self.well_formed(),
                !found ==> forall|j: int| 0 <= j < i ==> pre[j].0 != shard.id,
                found ==> i < pre.len() && pre[i as int].0 == shard.id,
            decreases pre.len() - i + (if found { 0int } else { 1int }),
        {
            if self.shard_committees[i].0.id == shard.id {
                found = true;
            } else {
                i = i + 1;
            }
        }
        if found {
            proof {
                self.lemma_unique(i as int);
            }
            let mut entry = self.shard_committees.remove(i);
            entry.1.members.push(node);
            self.shard_committees.insert(i, entry);
            proof {
                assert(self.spec_committees() =~= pre.update(
                    i as int,
                    (shard.id, pre[i as int].1.push(node)),
                ));
                self.lemma_unique(i as int);
                assert forall|id: u64| id != shard.id implies committees_contain(
                    self.spec_committees(),
                    id,
                ) == committees_contain(pre, id) && (committees_contain(pre, id)
                    ==> committee_members(self.spec_committees(), id) == committee_members(
                    pre,
                    id,
                )) by {
                    if committees_contain(pre, id) {
                        let j = choose|j: int| 0 <= j < pre.len() && pre[j].0 == id;
                        assert(self.spec_committees()[j].0 == id);
                        self.lemma_unique(j);
                    }
                    if committees_contain(self.spec_committees(), id) {
                        let j = choose|j: int|
                            0 <= j < self.spec_committees().len() && self.spec_committees()[j].0
                                == id;
                        assert(pre[j].0 == id);
                    }
                }
            }
        } else {
            proof {
                assert(!committees_contain(pre, shard.id));
            }
            let mut members: Vec<NodeAddress> = Vec::new();
            members.push(node);
            self.shard_committees.push((shard, Committee { members }));
            proof {
                let post = self.spec_committees();
                assert(post =~= pre.push((shard.id, seq![node])));
                assert(post[post.len() - 1].0 == shard.id);
                assert(self.well_formed());
                self.lemma_unique(post.len() - 1);
                assert forall|id: u64| id != shard.id implies committees_contain(post, id)
                    == committees_contain(pre, id) && (committees_contain(pre, id)
                    ==> committee_members(post, id) == committee_members(pre, id)) by {
                    if committees_contain(pre, id) {
                        let j = choose|j: int| 0 <= j < pre.len() && pre[j].0 == id;
                        assert(post[j].0 == id);
                        self.lemma_unique(j);
                    }
                    if committees_contain(post, id) {
                        let j = choose|j: int| 0 <= j < post.len() && post[j].0 == id;
                        assert(pre[j].0 == id);
                    }
                }
            }
        }
        self.shard_map.push((range_start, range_end, shard));
        proof {
            assert(self.spec_shard_map() =~= old(self).spec_shard_map().push(
                (range_start, range_end, shard.id),
            ));
        }
    }

    pub fn current_shard(&self) -> (r: Result<Shard, DigitalAssetError>)
        ensures
            r == Result::<Shard, DigitalAssetError>::Ok(self.spec_current_shard()),
    {
        Ok(self.current_shard)
    }

    /// The committee for one shard, if one is known.
    pub fn get_shard_committee(&self, shard: Shard) -> (r: Option<&Committee>)
        requires
            self.well_formed(),
        ensures
            r is Some <==> committees_contain(self.spec_committees(), shard.id),
            r matches Some(c) ==> c.members@ == committee_members(
                self.spec_committees(),
                shard.id,
            ),
    {
        let mut i: usize = 0;
        while i < self.shard_committees.len()
            invariant
                i <= self.spec_committees().len(),
                self.well_formed(),
                forall|j: int| 0 <= j < i ==> self.spec_committees()[j].0 != shard.id,
            decreases self.spec_committees().len() - i,
        {
            if self.shard_committees[i].0.id == shard.id {
                proof {
                    self.lemma_unique(i as int);
                }
                return Some(&self.shard_committees[i].1);
            }
            i = i + 1;
        }
        proof {
            assert(!committees_contain(self.spec_committees(), shard.id));
        }
        None
    }

    /// The committee of the shard this node participates in.
    pub fn current_committee(&self) -> (r: Result<&Committee, DigitalAssetError>)
        requires
            self.well_formed(),
        ensures
            r is Ok <==> committees_contain(
                self.spec_committees(),
                self.spec_current_shard().id,
            ),
            r matches Ok(c) ==> c.members@ == committee_members(
                self.spec_committees(),
                self.spec_current_shard().id,
            ),
            r is Err ==> r == Result::<&Committee, DigitalAssetError>::Err(
                DigitalAssetError::MissingShardCommittee,
            ),
    {
        match self.get_shard_committee(self.current_shard) {
            Some(c) => Ok(c),
            None => Err(DigitalAssetError::MissingShardCommittee),
        }
    }

    /// The shard whose committee lists `node`, if any.
    pub fn find_shard_for(&self, node: &NodeAddress) -> (r: Option<Shard>)
        requires
            self.well_formed(),
        ensures
            r matches Some(s) ==> committees_contain(self.spec_committees(), s.id)
                && committee_members(self.spec_committees(), s.id).contains(*node),
            r is None ==> forall|i: int|
                0 <= i < self.spec_committees().len() ==> !self.spec_committees()[i].1.contains(
                    *node,
                ),
    {
        let mut i: usize = 0;
        while i < self.shard_committees.len()
            invariant
                i <= self.spec_committees().len(),
                self.well_formed(),
                forall|j: int| 0 <= j < i ==> !self.spec_committees()[j].1.contains(*node),
            decreases self.spec_committees().len() - i,
        {
            if self.shard_committees[i].1.contains(node) {
                proof {
                    self.lemma_unique(i as int);
                }
                return Some(self.shard_committees[i].0);
            }
            i = i + 1;
        }
        None
    }

    /// Routes one key byte through the range table, first match wins.
    pub fn route_key_byte(&self, b: u8) -> (r: Option<Shard>)
        ensures
            r matches Some(s) ==> spec_route(self.spec_shard_map(), b) == Some(s.id),
            r is None <==> spec_route(self.spec_shard_map(), b) is None,
    {
        let ghost m = self.spec_shard_map();
        proof {
            assert(m.skip(0) =~= m);
        }
        let mut i: usize = 0;
        while i < self.shard_map.len()
            invariant
                i <= m.len(),
                self.spec_shard_map() == m,
                spec_route(m, b) == spec_route(m.skip(i as int), b),
            decreases m.len() - i,
        {
            let row = self.shard_map[i];
            proof {
                assert(m.skip(i as int)[0] == m[i as int]);
            }
            if row.0 <= b && b < row.1 {
                return Some(row.2);
            }
            proof {
                assert(m.skip(i as int).drop_first() =~= m.skip(i as int + 1));
            }
            i = i + 1;
        }
        proof {
            assert(m.skip(m.len() as int) =~= Seq::<(u8, u8, u64)>::empty());
        }
        None
    }

    /// A key routes to the shard its first byte falls in.
    pub open spec fn spec_key_shard(&self, key: Seq<u8>) -> Option<u64> {
        if key.len() == 0 {
            None
        } else {
            spec_route(self.spec_shard_map(), key[0])
        }
    }

    /// True when some key in `keys` routes to shard id `id`.
    pub open spec fn spec_keys_route_to(&self, keys: Seq<ShardKey>, n: int, id: u64) -> bool {
        exists|i: int| #![auto] 0 <= i < n && self.spec_key_shard(keys[i]@) == Some(id)
    }

    /// True when `a` sits on the committee of a shard some key routes to.
    pub open spec fn spec_addr_in_involved_committee(
        &self,
        keys: Seq<ShardKey>,
        n: int,
        a: NodeAddress,
    ) -> bool {
        exists|i: int| #![auto]
            0 <= i < n && committee_members(
                self.spec_committees(),
                self.spec_key_shard(keys[i]@)->0,
            ).contains(a)
    }

    /// The distinct shards that a set of keys routes to. `Err` exactly when
    /// some key is empty or falls outside every range.
    pub fn get_shards_for_keys(&self, keys: &Vec<ShardKey>) -> (r: Result<
        Vec<Shard>,
        DigitalAssetError,
    >)
        ensures
            r is Ok <==> forall|i: int|
                0 <= i < keys@.len() ==> self.spec_key_shard(keys@[i]@) is Some,
            r matches Ok(shards) ==> forall|k: int| #![auto]
                0 <= k < shards@.len() ==> self.spec_keys_route_to(
                    keys@,
                    keys@.len() as int,
                    shards@[k].id,
                ),
            r matches Ok(shards) ==> forall|i: int| #![auto]
                0 <= i < keys@.len() ==> seq_contains_shard_id(
                    shards@,
                    self.spec_key_shard(keys@[i]@)->0,
                ),
            r matches Ok(shards) ==> forall|k: int, l: int|
                0 <= k < l < shards@.len() ==> shards@[k].id != shards@[l].id,
            r is Err ==> r == Result::<Vec<Shard>, DigitalAssetError>::Err(
                DigitalAssetError::MissingShardCommittee,
            ),
    {
        let mut shards: Vec<Shard> = Vec::new();
        let mut i: usize = 0;
        while i < keys.len()
            invariant
                i <= keys@.len(),
                forall|j: int| 0 <= j < i ==> self.spec_key_shard(keys@[j]@) is Some,
                forall|k: int| #![auto]
                    0 <= k < shards@.len() ==> self.spec_keys_route_to(
                        keys@,
                        i as int,
                        shards@[k].id,
                    ),
                forall|j: int| #![auto]
                    0 <= j < i ==> seq_contains_shard_id(
                        shards@,
                        self.spec_key_shard(keys@[j]@)->0,
                    ),
                forall|k: int, l: int| 0 <= k < l < shards@.len() ==> shards@[k].id != shards@[l].id,
            decreases keys@.len() - i,
        {
            let key = &keys[i];
            if key.0.len() == 0 {
                return Err(DigitalAssetError::MissingShardCommittee);
            }
            match self.route_key_byte(key.0[0]) {
                None => {
                    return Err(DigitalAssetError::MissingShardCommittee);
                },
                Some(shard) => {
                    let ghost pre_shards = shards@;
                    if !contains_shard(&shards, shard.id) {
                        shards.push(shard);
                        proof {
                            assert forall|id2: u64| seq_contains_shard_id(
                                pre_shards,
                                id2,
                            ) implies seq_contains_shard_id(shards@, id2) by {
                                let k = choose|k: int|
                                    0 <= k < pre_shards.len() && pre_shards[k].id == id2;
                                assert(shards@[k].id == id2);
                            }
                            assert(shards@[pre_shards.len() as int].id == shard.id);
                        }
                    }
                    proof {
                        assert(seq_contains_shard_id(shards@, shard.id));
                    }
                },
            }
            i = i + 1;
        }
        Ok(shards)
    }

    /// The union of the committees of the shards a set of keys routes to:
    /// the full node set a cross-shard proposal is broadcast to. `Err`
    /// exactly when some key does not route or a routed shard has no
    /// committee.
    pub fn get_node_set_for_shards(&self, keys: &Vec<ShardKey>) -> (r: Result<
        Vec<NodeAddress>,
        DigitalAssetError,
    >)
        requires
            self.well_formed(),
        ensures
            r is Ok <==> forall|i: int| #![auto]
                0 <= i < keys@.len() ==> (self.spec_key_shard(keys@[i]@) is Some
                    && committees_contain(
                    self.spec_committees(),
                    self.spec_key_shard(keys@[i]@)->0,
                )),
            r matches Ok(nodes) ==> forall|k: int| #![auto]
                0 <= k < nodes@.len() ==> self.spec_addr_in_involved_committee(
                    keys@,
                    keys@.len() as int,
                    nodes@[k],
                ),
            r matches Ok(nodes) ==> forall|i: int, m: int| #![auto]
                (0 <= i < keys@.len() && 0 <= m < committee_members(
                    self.spec_committees(),
                    self.spec_key_shard(keys@[i]@)->0,
                ).len()) ==> nodes@.contains(
                    committee_members(
                        self.spec_committees(),
                        self.spec_key_shard(keys@[i]@)->0,
                    )[m],
                ),
            r matches Ok(nodes) ==> forall|k: int, l: int|
                0 <= k < l < nodes@.len() ==> nodes@[k] != nodes@[l],
            r is Err ==> r == Result::<Vec<NodeAddress>, DigitalAssetError>::Err(
                DigitalAssetError::MissingShardCommittee,
            ),
    {
        let mut nodes: Vec<NodeAddress> = Vec::new();
        let mut i: usize = 0;
        while i < keys.len()
            invariant
                i <= keys@.len(),
                self.well_formed(),
                forall|j: int| #![auto]
                    0 <= j < i ==> (self.spec_key_shard(keys@[j]@) is Some
                        && committees_contain(
                        self.spec_committees(),
                        self.spec_key_shard(keys@[j]@)->0,
                    )),
                forall|k: int| #![auto]
                    0 <= k < nodes@.len() ==> self.spec_addr_in_involved_committee(
                        keys@,
                        i as int,
                        nodes@[k],
                    ),
                forall|j: int, m: int| #![auto]
                    (0 <= j < i && 0 <= m < committee_members(
                        self.spec_committees(),
                        self.spec_key_shard(keys@[j]@)->0,
                    ).len()) ==> nodes@.contains(
                        committee_members(
                            self.spec_committees(),
                            self.spec_key_shard(keys@[j]@)->0,
                        )[m],
                    ),
                forall|k: int, l: int| 0 <= k < l < nodes@.len() ==> nodes@[k] != nodes@[l],
            decreases keys@.len() - i,
        {
            let key = &keys[i];
            if key.0.len() == 0 {
                return Err(DigitalAssetError::MissingShardCommittee);
            }
            let shard = match self.route_key_byte(key.0[0]) {
                None => {
                    return Err(DigitalAssetError::MissingShardCommittee);
                },
                Some(shard) => shard,
            };
            let committee = match self.get_shard_committee(shard) {
                None => {
                    return Err(DigitalAssetError::MissingShardCommittee);
                },
                Some(c) => c,
            };
            let ghost members = committee_members(self.spec_committees(), shard.id);
            let mut m: usize = 0;
            while m < committee.members.len()
                invariant
                    m <= committee.members@.len(),
                    self.well_formed(),
                    i < keys@.len(),
                    keys@[i as int]@.len() > 0,
                    self.spec_key_shard(keys@[i as int]@) == Some(shard.id),
                    committee.members@ == members,
                    members == committee_members(self.spec_committees(), shard.id),
                    forall|k: int| #![auto]
                        0 <= k < nodes@.len() ==> self.spec_addr_in_involved_committee(
                            keys@,
                            i as int,
                            nodes@[k],
                        ) || members.contains(nodes@[k]),
                    forall|j: int, m2: int| #![auto]
                        (0 <= j < i && 0 <= m2 < committee_members(
                            self.spec_committees(),
                            self.spec_key_shard(keys@[j]@)->0,
                        ).len()) ==> nodes@.contains(
                            committee_members(
                                self.spec_committees(),
                                self.spec_key_shard(keys@[j]@)->0,
                            )[m2],
                        ),
                    forall|m2: int| 0 <= m2 < m ==> nodes@.contains(members[m2]),
                    forall|k: int, l: int| 0 <= k < l < nodes@.len() ==> nodes@[k] != nodes@[l],
                decreases committee.members@.len() - m,
            {
                let member = committee.members[m];
                let ghost pre_nodes = nodes@;
                if !contains_address(&nodes, &member) {
                    nodes.push(member);
                    proof {
                        assert forall|a: NodeAddress| pre_nodes.contains(a) implies nodes@.contains(
                            a,
                        ) by {
                            let k = choose|k: int|
                                0 <= k < pre_nodes.len() && pre_nodes[k] == a;
                            assert(nodes@[k] == a);
                        }
                        assert(nodes@[pre_nodes.len() as int] == member);
                        assert(nodes@.contains(member));
                    }
                }
                proof {
                    assert(nodes@.contains(member));
                }
                m = m + 1;
            }
            proof {
                assert forall|k: int| #![auto] 0 <= k < nodes@.len() implies self
                    .spec_addr_in_involved_committee(keys@, i as int + 1, nodes@[k]) by {
                    if members.contains(nodes@[k]) {
                        assert(self.spec_key_shard(keys@[i as int]@)->0 == shard.id);
                        assert(committee_members(
                            self.spec_committees(),
                            self.spec_key_shard(keys@[i as int]@)->0,
                        ).contains(nodes@[k]));
                    } else {
                        assert(self.spec_addr_in_involved_committee(keys@, i as int, nodes@[k]));
                    }
                }
            }
            i = i + 1;
        }
        Ok(nodes)
    }
}

/// True when `shards` holds an entry with id `id`.
pub open spec fn seq_contains_shard_id(s: Seq<Shard>, id: u64) -> bool {
    exists|k: int| 0 <= k < s.len() && s[k].id == id
}

/// True exactly when `shards` holds an entry with id `id`.
pub fn contains_shard(shards: &Vec<Shard>, id: u64) -> (r: bool)
    ensures
        r == seq_contains_shard_id(shards@, id),
{
    let mut k: usize = 0;
    while k < shards.len()
        invariant
            k <= shards@.len(),
            forall|j: int| 0 <= j < k ==> shards@[j].id != id,
        decreases shards@.len() - k,
    {
        if shards[k].id == id {
            return true;
        }
        k = k + 1;
    }
    false
}

/// True exactly when `nodes` holds `addr`.
pub fn contains_address(nodes: &Vec<NodeAddress>, addr: &NodeAddress) -> (r: bool)
    ensures
        r == nodes@.contains(*addr),
{
    let mut k: usize = 0;
    while k < nodes.len()
        invariant
            k <= nodes@.len(),
            forall|j: int| 0 <= j < k ==> nodes@[j] != *addr,
        decreases nodes@.len() - k,
    {
        if nodes[k].0 == addr.0 {
            return true;
        }
        k = k + 1;
    }
    proof {
        assert(!nodes@.contains(*addr));
    }
    false
}

} // verus!
