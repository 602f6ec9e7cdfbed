//! The inline cache of a call site.
//!
//! A site remembers the class of the receiver, the global class version at
//! which the method was resolved, and the resolved function.  The cache
//! hits where both the class and the version are the remembered ones.
//! Every definition of a method bumps the global version, so that no site
//! hits with a target that was resolved before the definition.

use vstd::prelude::*;
use crate::funcs::FuncData;
use crate::ids::ClassId;

verus! {

/// The version after one bump: the next number, or zero after the last.
pub open spec fn bump(version: u32) -> u32 {
    if version == u32::MAX {
        0
    } else {
        (version + 1) as u32
    }
}

/// The version after `k` bumps.
pub open spec fn bumped(version: u32, k: nat) -> u32
    decreases k,
{
    if k == 0 {
        version
    } else {
        bump(bumped(version, (k - 1) as nat))
    }
}

/// What a call site remembers.
#[derive(Clone, Copy, Debug, PartialEq, Eq, Structural)]
pub struct InlineCache {
    pub class_id: ClassId,
    pub version: u32,
    pub target: Option<FuncData>,
}

impl InlineCache {
    /// The cache holds a target for a receiver of the class at the global
    /// version.
    pub open spec fn hits(self, recv_class: ClassId, global_version: u32) -> bool {
        self.target is Some && self.class_id == recv_class && self.version == global_version
    }

    /// The cache of a site that was never resolved: the class that names no
    /// class, the last version, and no target.
    pub fn new() -> (c: InlineCache)
        ensures
            c == (InlineCache { class_id: ClassId(0), version: u32::MAX, target: None }),
            forall|class: ClassId, version: u32| !c.hits(class, version),
    {
        InlineCache { class_id: ClassId(0), version: u32::MAX, target: None }
    }

    /// The target of the site for a receiver of the class at the global
    /// version; `None` on a miss.
    pub fn lookup(&self, recv_class: ClassId, global_version: u32) -> (r: Option<FuncData>)
        ensures
            r == if self.hits(recv_class, global_version) {
                self.target
            } else {
                None
            },
    {
        if self.class_id.0 == recv_class.0 && self.version == global_version {
            self.target
        } else {
            None
        }
    }

    /// Fills the cache after the method was resolved.
    pub fn fill(&mut self, recv_class: ClassId, global_version: u32, target: FuncData)
        ensures
            *final(self) == (InlineCache { class_id: recv_class, version: global_version, target: Some(target) }),
            final(self).hits(recv_class, global_version),
    {
        self.class_id = recv_class;
        self.version = global_version;
        self.target = Some(target);
    }
}

/// `k` bumps add `k` to the version, modulo 2^32.
pub proof fn lemma_bumped(version: u32, k: nat)
    ensures
        bumped(version, k) == (version + k) % 0x1_0000_0000,
    decreases k,
{
    if k > 0 {
        lemma_bumped(version, (k - 1) as nat);
        let prev = (version + k - 1) % 0x1_0000_0000;
        assert((version + k) % 0x1_0000_0000 == if prev == 0xffff_ffff {
            0
        } else {
            prev + 1
        }) by (nonlinear_arith)
            requires
                prev == (version + k - 1) % 0x1_0000_0000,
        ;
    }
}

/// No stale hit: a cache that was filled at some version misses for every
/// class once the version was bumped, as long as it was bumped fewer than
/// 2^32 times.
pub proof fn lemma_no_stale_hit(cache: InlineCache, recv_class: ClassId, k: nat)
    requires
        0 < k < 0x1_0000_0000,
    ensures
        !cache.hits(recv_class, bumped(cache.version, k)),
{
    lemma_bumped(cache.version, k);
    let v = cache.version as int;
    assert((v + k) % 0x1_0000_0000 != v) by (nonlinear_arith)
        requires
            0 <= v < 0x1_0000_0000,
            0 < k < 0x1_0000_0000,
    ;
}

} // verus!
