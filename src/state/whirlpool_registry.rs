use crate::errors::ErrorCode;
use crate::state::pubkey::Pubkey;
use crate::state::whirlpool::Whirlpool;
use vstd::prelude::*;

verus! {

/// The identity of a pool: its config, its two mints and its tick spacing.
/// No two pools share one.
#[derive(Clone, Copy, Debug, PartialEq, Eq)]
pub struct PoolKey {
    pub whirlpools_config: Pubkey,
    pub token_mint_a: Pubkey,
    pub token_mint_b: Pubkey,
    pub tick_spacing: u16,
}

/// Whether `pool` has the identity `key`.
pub open spec fn has_key(pool: Whirlpool, key: PoolKey) -> bool {
    &&& pool.whirlpools_config.bytes@ == key.whirlpools_config.bytes@
    &&& pool.token_mint_a.bytes@ == key.token_mint_a.bytes@
    &&& pool.token_mint_b.bytes@ == key.token_mint_b.bytes@
    &&& pool.tick_spacing == key.tick_spacing
}

/// The identity of `pool`.
pub open spec fn key_of(pool: Whirlpool) -> PoolKey {
    PoolKey {
        whirlpools_config: pool.whirlpools_config,
        token_mint_a: pool.token_mint_a,
        token_mint_b: pool.token_mint_b,
        tick_spacing: pool.tick_spacing,
    }
}

/// Whether some pool of `pools` has the identity `key`.
pub open spec fn contains_key(pools: Seq<Whirlpool>, key: PoolKey) -> bool {
    exists|i: int| 0 <= i < pools.len() && #[trigger] has_key(pools[i], key)
}

/// Whether no two pools of `pools` share an identity.
pub open spec fn identities_unique(pools: Seq<Whirlpool>) -> bool {
    forall|i: int, j: int|
        0 <= i < pools.len() && 0 <= j < pools.len() && i != j ==> !has_key(
            #[trigger] pools[i],
            key_of(#[trigger] pools[j]),
        )
}

/// The store of pools, which accepts a pool only if no pool has its identity.
pub struct WhirlpoolRegistry {
    pools: Vec<Whirlpool>,
}

impl View for WhirlpoolRegistry {
    type V = Seq<Whirlpool>;

    closed spec fn view(&self) -> Seq<Whirlpool> {
        self.pools@
    }
}

impl PoolKey {
    /// Whether `pool` has this identity.
    pub fn matches(&self, pool: &Whirlpool) -> (r: bool)
        ensures
            r == has_key(*pool, *self),
    {
        pool.whirlpools_config.same_key(&self.whirlpools_config) && pool.token_mint_a.same_key(
            &self.token_mint_a,
        ) && pool.token_mint_b.same_key(&self.token_mint_b) && pool.tick_spacing
            == self.tick_spacing
    }

    /// The identity of `pool`.
    pub fn of(pool: &Whirlpool) -> (r: PoolKey)
        ensures
            r == key_of(*pool),
    {
        PoolKey {
            whirlpools_config: pool.whirlpools_config,
            token_mint_a: pool.token_mint_a,
            token_mint_b: pool.token_mint_b,
            tick_spacing: pool.tick_spacing,
        }
    }
}

impl WhirlpoolRegistry {
    /// Whether the stored pools have distinct identities.
    pub open spec fn wf(&self) -> bool {
        identities_unique(self@)
    }

    /// An empty store.
    pub fn new() -> (r: WhirlpoolRegistry)
        ensures
            r@ == Seq::<Whirlpool>::empty(),
            r.wf(),
    {
        WhirlpoolRegistry { pools: Vec::new() }
    }

    /// The number of stored pools.
    pub fn len(&self) -> (r: usize)
        ensures
            r == self@.len(),
    {
        self.pools.len()
    }

    /// The stored pool with identity `key`, if there is one.
    pub fn get(&self, key: &PoolKey) -> (r: Option<Whirlpool>)
        ensures
            r is None <==> !contains_key(self@, *key),
            r matches Some(p) ==> has_key(p, *key) && self@.contains(p),
    {
        let mut i: usize = 0;
        while i < self.pools.len()
            invariant
                i <= self.pools@.len(),
                forall|j: int| 0 <= j < i ==> !has_key(#[trigger] self.pools@[j], *key),
            decreases self.pools@.len() - i,
        {
            if key.matches(&self.pools[i]) {
                return Some(self.pools[i]);
            }
            i = i + 1;
        }
        None
    }

    /// Stores `pool` unless a stored pool has its identity, in which case it
    /// fails `PoolAlreadyInitialized` and stores nothing.
    pub fn insert_if_absent(&mut self, pool: Whirlpool) -> (r: Result<(), ErrorCode>)
        requires
            old(self).wf(),
        ensures
            final(self).wf(),
            r is Ok <==> !contains_key(old(self)@, key_of(pool)),
            r is Ok ==> final(self)@ == old(self)@.push(pool),
            r is Err ==> r == Err::<(), ErrorCode>(ErrorCode::PoolAlreadyInitialized),
            r is Err ==> final(self)@ == old(self)@,
    {
        let key = PoolKey::of(&pool);
        match self.get(&key) {
            Some(_) => Err(ErrorCode::PoolAlreadyInitialized),
            None => {
                proof {
                    assert(has_key(pool, key_of(pool)));
                }
                self.pools.push(pool);
                proof {
                    let s = self.pools@;
                    assert forall|i: int, j: int|
                        0 <= i < s.len() && 0 <= j < s.len() && i != j implies !has_key(
                        #[trigger] s[i],
                        key_of(#[trigger] s[j]),
                    ) by {
                        if i == s.len() - 1 {
                            assert(!has_key(s[j], key));
                        } else if j == s.len() - 1 {
                            assert(!has_key(s[i], key));
                        }
                    }
                }
                Ok(())
            },
        }
    }
}

} // verus!
