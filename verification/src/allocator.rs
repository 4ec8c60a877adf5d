//! Distributed Unified Virtual Address Space (DUVAS) allocator.
//!
//! Hands out page-aligned virtual address ranges from a single monotonically
//! growing 64-bit address space, records where each block physically resides
//! and keeps the device / virtual byte counters consistent with the blocks.
use std::collections::BTreeMap;
use vstd::prelude::*;

verus! {

broadcast use {vstd::std_specs::btree::group_btree_axioms, vstd::laws_cmp::group_laws_cmp};

/// Physical residence domain of a virtual memory block.
#[derive(Debug, Copy, Clone, PartialEq, Eq, Structural)]
pub enum MemoryDomain {
    /// Host system memory.
    Host,
    /// Local device memory (VRAM).
    LocalDevice,
    /// Memory held by another node of the P2P network.
    RemotePeer,
    /// Swapped out to disk.
    Swap,
}

/// A contiguous chunk of virtual memory.
#[derive(Debug, Copy, Clone)]
pub struct MemoryBlock {
    /// Starting virtual address.
    pub virtual_addr: u64,
    /// Size in bytes (page aligned).
    pub size_bytes: usize,
    /// Current residence domain.
    pub domain: MemoryDomain,
    /// Whether the block holds read-only weights.
    pub is_static: bool,
}

/// Errors reported by the allocator.
#[derive(Debug, Copy, Clone, PartialEq, Eq, Structural)]
pub enum AllocatorError {
    /// `free` of an address that is not the start of a live block.
    InvalidFree(u64),
    /// `migrate` of an address that is not the start of a live block.
    UnallocatedAddress(u64),
}

/// First virtual address handed out (the 64 GB boundary).
pub const VIRTUAL_BASE: u64 = 0x10_0000_0000u64;

/// The allocation granularity.
pub const PAGE_BYTES: usize = 4096usize;

/// `size` rounded up to a whole number of pages.
pub open spec fn page_aligned(size: nat) -> nat {
    ((size + 4095) / 4096 * 4096) as nat
}

/// Bytes a block contributes to a total: all of them, or only those resident
/// on the local device when `device_only` holds.
pub open spec fn block_bytes(b: MemoryBlock, device_only: bool) -> nat {
    if !device_only || b.domain == MemoryDomain::LocalDevice {
        b.size_bytes as nat
    } else {
        0
    }
}

/// Sum of `block_bytes` over every block of a finite map.
pub open spec fn total_bytes(m: Map<u64, MemoryBlock>, device_only: bool) -> nat
    decreases m.dom().len(),
    when m.dom().finite()
{
    if m.dom().len() == 0 {
        0
    } else {
        let k = m.dom().choose();
        block_bytes(m[k], device_only) + total_bytes(m.remove(k), device_only)
    }
}

/// Removing one block from a map takes exactly its bytes off the total.
pub proof fn lemma_total_remove(m: Map<u64, MemoryBlock>, k: u64, device_only: bool)
    requires
        m.dom().finite(),
        m.dom().contains(k),
    ensures
        total_bytes(m, device_only) == block_bytes(m[k], device_only) + total_bytes(
            m.remove(k),
            device_only,
        ),
    decreases m.dom().len(),
{
    assert(m.dom().len() > 0);
    let j = m.dom().choose();
    if j != k {
        assert(m.remove(j).dom() =~= m.dom().remove(j));
        assert(m.remove(k).dom() =~= m.dom().remove(k));
        lemma_total_remove(m.remove(j), k, device_only);
        lemma_total_remove(m.remove(k), j, device_only);
        assert(m.remove(j).remove(k) =~= m.remove(k).remove(j));
    }
}

/// Inserting a block under a fresh key adds exactly its bytes to the total.
pub proof fn lemma_total_insert(
    m: Map<u64, MemoryBlock>,
    k: u64,
    b: MemoryBlock,
    device_only: bool,
)
    requires
        m.dom().finite(),
    ensures
        total_bytes(m.insert(k, b), device_only) == block_bytes(b, device_only) + total_bytes(
            m.remove(k),
            device_only,
        ),
{
    lemma_total_remove(m.insert(k, b), k, device_only);
    assert(m.insert(k, b).remove(k) =~= m.remove(k));
}

/// Device-resident bytes never exceed all bytes.
pub proof fn lemma_device_le_virtual(m: Map<u64, MemoryBlock>)
    requires
        m.dom().finite(),
    ensures
        total_bytes(m, true) <= total_bytes(m, false),
    decreases m.dom().len(),
{
    if m.dom().len() > 0 {
        let k = m.dom().choose();
        assert(m.remove(k).dom() =~= m.dom().remove(k));
        lemma_device_le_virtual(m.remove(k));
    }
}


/// The DUVAS allocator.
pub struct DuvasAllocator {
    allocations: BTreeMap<u64, MemoryBlock>,
    allocated_virtual_bytes: usize,
    allocated_device_bytes: usize,
    next_addr: u64,
    device_capacity_bytes: usize,
}

/// What `allocate` does: the block of `page_aligned(size_bytes)` bytes starts
/// at the old next address, lands where `placement` says, and every counter
/// grows by its bytes.
pub open spec fn allocate_effect(
    pre: DuvasAllocator,
    post: DuvasAllocator,
    size_bytes: usize,
    is_static: bool,
) -> bool {
    let addr = pre.next_address() as u64;
    let size = page_aligned(size_bytes as nat);
    let b = MemoryBlock {
        virtual_addr: addr,
        size_bytes: size as usize,
        domain: pre.placement(size),
        is_static,
    };
    &&& post.blocks() == pre.blocks().insert(addr, b)
    &&& post.virtual_bytes() == pre.virtual_bytes() + size
    &&& post.device_bytes() == pre.device_bytes() + block_bytes(b, true)
    &&& post.next_address() == pre.next_address() + size
    &&& post.capacity() == pre.capacity()
}

/// What `free(addr)` does: a live block is removed and its bytes leave the
/// counters; any other address is refused with `InvalidFree` and nothing moves.
pub open spec fn free_effect(
    pre: DuvasAllocator,
    post: DuvasAllocator,
    addr: u64,
    r: Result<(), AllocatorError>,
) -> bool {
    &&& post.capacity() == pre.capacity()
    &&& post.next_address() == pre.next_address()
    &&& (r is Ok <==> pre.blocks().contains_key(addr))
    &&& r is Ok ==> {
        let b = pre.blocks()[addr];
        &&& post.blocks() == pre.blocks().remove(addr)
        &&& post.virtual_bytes() == pre.virtual_bytes() - block_bytes(b, false)
        &&& post.device_bytes() == pre.device_bytes() - block_bytes(b, true)
    }
    &&& r is Err ==> {
        &&& r == Err::<(), AllocatorError>(AllocatorError::InvalidFree(addr))
        &&& post.blocks() == pre.blocks()
        &&& post.virtual_bytes() == pre.virtual_bytes()
        &&& post.device_bytes() == pre.device_bytes()
    }
}

/// What `migrate(addr, target)` does: a live block moves to the target
/// domain and the device counter follows it; any other address is refused
/// with `UnallocatedAddress` and nothing moves.
pub open spec fn migrate_effect(
    pre: DuvasAllocator,
    post: DuvasAllocator,
    addr: u64,
    target: MemoryDomain,
    r: Result<(), AllocatorError>,
) -> bool {
    &&& post.capacity() == pre.capacity()
    &&& post.next_address() == pre.next_address()
    &&& post.virtual_bytes() == pre.virtual_bytes()
    &&& (r is Ok <==> pre.blocks().contains_key(addr))
    &&& r is Ok ==> {
        let b = pre.blocks()[addr];
        let nb = MemoryBlock { domain: target, ..b };
        &&& post.blocks() == pre.blocks().insert(addr, nb)
        &&& post.device_bytes() == pre.device_bytes() - block_bytes(b, true) + block_bytes(nb, true)
    }
    &&& r is Err ==> {
        &&& r == Err::<(), AllocatorError>(AllocatorError::UnallocatedAddress(addr))
        &&& post.blocks() == pre.blocks()
        &&& post.device_bytes() == pre.device_bytes()
    }
}

impl DuvasAllocator {
    /// The live blocks, keyed by their start address.
    pub closed spec fn blocks(&self) -> Map<u64, MemoryBlock> {
        self.allocations@
    }

    /// Bytes currently resident on the local device.
    pub closed spec fn device_bytes(&self) -> nat {
        self.allocated_device_bytes as nat
    }

    /// Bytes of virtual address space currently allocated.
    pub closed spec fn virtual_bytes(&self) -> nat {
        self.allocated_virtual_bytes as nat
    }

    /// Capacity of the local device in bytes.
    pub closed spec fn capacity(&self) -> nat {
        self.device_capacity_bytes as nat
    }

    /// The address the next allocation will start at.
    pub closed spec fn next_address(&self) -> nat {
        self.next_addr as nat
    }

    /// Well-formedness: the counters are the sums over the blocks, every block
    /// is keyed by its start, lies below the next address and spans whole
    /// pages, the next address is on a page boundary, and no two blocks
    /// overlap.
    pub closed spec fn wf(&self) -> bool {
        &&& self.allocations@.dom().finite()
        &&& self.allocated_virtual_bytes == total_bytes(self.allocations@, false)
        &&& self.allocated_device_bytes == total_bytes(self.allocations@, true)
        &&& VIRTUAL_BASE <= self.next_addr
        &&& self.next_addr % 4096 == 0
        &&& forall|k: u64| #[trigger]
            self.allocations@.contains_key(k) ==> {
                &&& self.allocations@[k].virtual_addr == k
                &&& VIRTUAL_BASE <= k
                &&& k + self.allocations@[k].size_bytes <= self.next_addr
                &&& k % 4096 == 0
                &&& self.allocations@[k].size_bytes % 4096 == 0
            }
        &&& forall|k1: u64, k2: u64|
            #![trigger self.allocations@.contains_key(k1), self.allocations@.contains_key(k2)]
            self.allocations@.contains_key(k1) && self.allocations@.contains_key(k2) && k1 < k2
                ==> k1 + self.allocations@[k1].size_bytes <= k2
    }

    /// Creates an allocator for a device of the given capacity.
    pub fn new(device_capacity_bytes: usize) -> (a: Self)
        ensures
            a.wf(),
            a.blocks() == Map::<u64, MemoryBlock>::empty(),
            a.device_bytes() == 0,
            a.virtual_bytes() == 0,
            a.capacity() == device_capacity_bytes,
            a.next_address() == VIRTUAL_BASE,
    {
        let a = DuvasAllocator {
            allocations: BTreeMap::new(),
            allocated_virtual_bytes: 0,
            allocated_device_bytes: 0,
            next_addr: VIRTUAL_BASE,
            device_capacity_bytes,
        };
        proof {
            assert(a.allocations@.dom() =~= Set::<u64>::empty());
        }
        a
    }

    /// The domain a new block of `size` bytes lands in: the local device while
    /// it still fits under the capacity, host memory otherwise.
    pub open spec fn placement(&self, size: nat) -> MemoryDomain {
        if self.device_bytes() + size <= self.capacity() {
            MemoryDomain::LocalDevice
        } else {
            MemoryDomain::Host
        }
    }

    /// Whether `allocate(size_bytes, _)` stays within the address space and
    /// the counters: rounding up, the virtual byte total and the next address
    /// all fit their types.
    pub fn can_allocate(&self, size_bytes: usize) -> (r: bool)
        ensures
            r == (size_bytes + 4095 <= usize::MAX && self.virtual_bytes() + page_aligned(
                size_bytes as nat,
            ) <= usize::MAX && self.next_address() + page_aligned(size_bytes as nat)
                <= u64::MAX),
    {
        if size_bytes > usize::MAX - 4095 {
            return false;
        }
        let aligned: usize = (size_bytes + 4095) / 4096 * 4096;
        assert(aligned == page_aligned(size_bytes as nat));
        aligned <= usize::MAX - self.allocated_virtual_bytes && (aligned as u64) <= u64::MAX
            - self.next_addr
    }

    /// Allocates a page-aligned block of virtual memory at the next free
    /// address. The block lives on the device while it fits; past the device
    /// capacity it is allocated anyway and placed in host memory.
    pub fn allocate(&mut self, size_bytes: usize, is_static: bool) -> (r: Result<u64, AllocatorError>)
        requires
            old(self).wf(),
            size_bytes + 4095 <= usize::MAX,
            old(self).virtual_bytes() + page_aligned(size_bytes as nat) <= usize::MAX,
            old(self).next_address() + page_aligned(size_bytes as nat) <= u64::MAX,
        ensures
            final(self).wf(),
            r == Ok::<u64, AllocatorError>(old(self).next_address() as u64),
            r matches Ok(addr) && VIRTUAL_BASE <= addr && addr % 4096 == 0,
            allocate_effect(*old(self), *final(self), size_bytes, is_static),
    {
        let padded: usize = size_bytes + 4095;
        let aligned_size: usize = padded & !4095usize;
        assert(aligned_size == padded / 4096 * 4096 && aligned_size % 4096 == 0) by (bit_vector)
            requires
                aligned_size == padded & !4095usize,
        ;
        let addr = self.next_addr;
        let ghost old_map = self.allocations@;
        proof {
            lemma_device_le_virtual(old_map);
            if old_map.contains_key(addr) {
                // only an empty block can sit at the next address
                assert(old_map[addr].size_bytes == 0);
            }
            lemma_total_insert(
                old_map,
                addr,
                MemoryBlock { virtual_addr: addr, size_bytes: aligned_size, domain: MemoryDomain::Host, is_static },
                false,
            );
        }
        self.next_addr = self.next_addr + aligned_size as u64;

        let domain = if self.allocated_device_bytes + aligned_size <= self.device_capacity_bytes {
            self.allocated_device_bytes = self.allocated_device_bytes + aligned_size;
            MemoryDomain::LocalDevice
        } else {
            MemoryDomain::Host
        };

        let block = MemoryBlock { virtual_addr: addr, size_bytes: aligned_size, domain, is_static };
        proof {
            lemma_total_insert(old_map, addr, block, true);
            lemma_total_insert(old_map, addr, block, false);
            if old_map.contains_key(addr) {
                lemma_total_remove(old_map, addr, true);
                lemma_total_remove(old_map, addr, false);
            } else {
                assert(old_map.remove(addr) =~= old_map);
            }
        }
        self.allocations.insert(addr, block);
        self.allocated_virtual_bytes = self.allocated_virtual_bytes + aligned_size;
        proof {
            let m = self.allocations@;
            assert(m == old_map.insert(addr, block));
            assert(self.next_addr % 4096 == 0);
            assert forall|k: u64| #[trigger] m.contains_key(k) implies {
                &&& m[k].virtual_addr == k
                &&& VIRTUAL_BASE <= k
                &&& k + m[k].size_bytes <= self.next_addr
                &&& k % 4096 == 0
                &&& m[k].size_bytes % 4096 == 0
            } by {
                if k != addr {
                    assert(old_map.contains_key(k));
                }
            }
            assert forall|k1: u64, k2: u64|
                m.contains_key(k1) && m.contains_key(k2) && k1 < k2 implies k1 + m[k1].size_bytes
                <= k2 by {
                assert(old_map.contains_key(k1));
                if k2 != addr {
                    assert(old_map.contains_key(k2));
                }
            }
        }
        Ok(addr)
    }

    /// Frees the block that starts at `virtual_addr`; an address that starts no
    /// live block is refused and changes nothing.
    pub fn free(&mut self, virtual_addr: u64) -> (r: Result<(), AllocatorError>)
        requires
            old(self).wf(),
        ensures
            final(self).wf(),
            final(self).capacity() == old(self).capacity(),
            final(self).next_address() == old(self).next_address(),
            free_effect(*old(self), *final(self), virtual_addr, r),
    {
        let ghost old_map = self.allocations@;
        match self.allocations.remove(&virtual_addr) {
            Some(block) => {
                proof {
                    lemma_total_remove(old_map, virtual_addr, false);
                    lemma_total_remove(old_map, virtual_addr, true);
                }
                self.allocated_virtual_bytes = self.allocated_virtual_bytes - block.size_bytes;
                if block.domain == MemoryDomain::LocalDevice {
                    self.allocated_device_bytes = self.allocated_device_bytes - block.size_bytes;
                }
                proof {
                    let m = self.allocations@;
                    assert(m.dom().finite());
                    assert forall|k: u64| #[trigger] m.contains_key(k) implies old_map.contains_key(
                        k,
                    ) && m[k] == old_map[k] by {}
                    assert forall|k1: u64, k2: u64|
                        m.contains_key(k1) && m.contains_key(k2) && k1 < k2 implies k1
                        + m[k1].size_bytes <= k2 by {
                        assert(old_map.contains_key(k1) && old_map.contains_key(k2));
                    }
                }
                Ok(())
            },
            None => {
                proof {
                    assert(self.allocations@ =~= old_map);
                }
                Err(AllocatorError::InvalidFree(virtual_addr))
            },
        }
    }

    /// Moves the block starting at `virtual_addr` to `target_domain`, keeping
    /// the device counter in step. Moving onto the device may overcommit it.
    pub fn migrate(&mut self, virtual_addr: u64, target_domain: MemoryDomain) -> (r: Result<
        (),
        AllocatorError,
    >)
        requires
            old(self).wf(),
        ensures
            final(self).wf(),
            migrate_effect(*old(self), *final(self), virtual_addr, target_domain, r),
    {
        let ghost old_map = self.allocations@;
        let block = match self.allocations.get(&virtual_addr) {
            Some(b) => *b,
            None => {
                return Err(AllocatorError::UnallocatedAddress(virtual_addr));
            },
        };
        let new_block = MemoryBlock { domain: target_domain, ..block };
        proof {
            lemma_total_remove(old_map, virtual_addr, true);
            lemma_total_remove(old_map, virtual_addr, false);
            lemma_total_insert(old_map, virtual_addr, new_block, true);
            lemma_total_insert(old_map, virtual_addr, new_block, false);
            lemma_device_le_virtual(old_map.insert(virtual_addr, new_block));
        }
        if block.domain == target_domain {
            proof {
                assert(old_map.insert(virtual_addr, new_block) =~= old_map);
            }
            return Ok(());
        }
        if block.domain == MemoryDomain::LocalDevice {
            self.allocated_device_bytes = self.allocated_device_bytes - block.size_bytes;
        }
        if target_domain == MemoryDomain::LocalDevice {
            self.allocated_device_bytes = self.allocated_device_bytes + block.size_bytes;
        }
        self.allocations.insert(virtual_addr, new_block);
        proof {
            let m = self.allocations@;
            assert forall|k: u64| #[trigger] m.contains_key(k) implies old_map.contains_key(k)
                && m[k].size_bytes == old_map[k].size_bytes && m[k].virtual_addr
                == old_map[k].virtual_addr by {}
            assert forall|k1: u64, k2: u64|
                m.contains_key(k1) && m.contains_key(k2) && k1 < k2 implies k1 + m[k1].size_bytes
                <= k2 by {
                assert(old_map.contains_key(k1) && old_map.contains_key(k2));
            }
        }
        Ok(())
    }

    /// Returns `(device bytes in use, device capacity, virtual bytes in use)`.
    pub fn get_metrics(&self) -> (r: (usize, usize, usize))
        ensures
            r.0 == self.device_bytes(),
            r.1 == self.capacity(),
            r.2 == self.virtual_bytes(),
    {
        (self.allocated_device_bytes, self.device_capacity_bytes, self.allocated_virtual_bytes)
    }

    /// Returns the domain of the block starting at `virtual_addr`, if any.
    pub fn get_domain(&self, virtual_addr: u64) -> (r: Option<MemoryDomain>)
        ensures
            r == (if self.blocks().contains_key(virtual_addr) {
                Some(self.blocks()[virtual_addr].domain)
            } else {
                None
            }),
    {
        match self.allocations.get(&virtual_addr) {
            Some(b) => Some(b.domain),
            None => None,
        }
    }
}

/// The counters always equal the sums over the live blocks, and the device
/// never holds more bytes than have been allocated.
pub proof fn law_counters_match_blocks(a: DuvasAllocator)
    requires
        a.wf(),
    ensures
        a.virtual_bytes() == total_bytes(a.blocks(), false),
        a.device_bytes() == total_bytes(a.blocks(), true),
        a.device_bytes() <= a.virtual_bytes(),
{
    lemma_device_le_virtual(a.blocks());
}

/// Allocation works in whole pages: the next address and every live block's
/// start and size are multiples of 4096, so every address an allocation
/// returns is page aligned.
pub proof fn law_blocks_page_aligned(a: DuvasAllocator, k: u64)
    requires
        a.wf(),
        a.blocks().contains_key(k),
    ensures
        a.next_address() % 4096 == 0,
        k % 4096 == 0,
        a.blocks()[k].size_bytes % 4096 == 0,
{
}

/// Live blocks never overlap, and all of them lie in the part of the address
/// space that has been handed out.
pub proof fn law_blocks_disjoint(a: DuvasAllocator, k1: u64, k2: u64)
    requires
        a.wf(),
        a.blocks().contains_key(k1),
        a.blocks().contains_key(k2),
        k1 < k2,
    ensures
        k1 + a.blocks()[k1].size_bytes <= k2,
        VIRTUAL_BASE <= k1,
        k2 + a.blocks()[k2].size_bytes <= a.next_address(),
{
}

/// Freeing the block an allocation just returned succeeds and gives every
/// byte back: the counters are where they were before the allocation.
pub proof fn law_free_undoes_allocate(
    a0: DuvasAllocator,
    a1: DuvasAllocator,
    a2: DuvasAllocator,
    size_bytes: usize,
    is_static: bool,
    r: Result<(), AllocatorError>,
)
    requires
        a0.wf(),
        a1.wf(),
        allocate_effect(a0, a1, size_bytes, is_static),
        free_effect(a1, a2, a0.next_address() as u64, r),
    ensures
        r is Ok,
        a2.blocks() == a0.blocks().remove(a0.next_address() as u64),
        a2.virtual_bytes() == a0.virtual_bytes(),
        a2.device_bytes() == a0.device_bytes(),
        a2.capacity() == a0.capacity(),
{
    let addr = a0.next_address() as u64;
    assert(a0.blocks().insert(addr, a1.blocks()[addr]).remove(addr) =~= a0.blocks().remove(addr));
}

/// Migrating a block and then migrating it back to where it was restores the
/// allocator: the same blocks and the same device counter.
pub proof fn law_migrate_back_restores(
    a0: DuvasAllocator,
    a1: DuvasAllocator,
    a2: DuvasAllocator,
    addr: u64,
    target: MemoryDomain,
    r1: Result<(), AllocatorError>,
    r2: Result<(), AllocatorError>,
)
    requires
        a0.blocks().contains_key(addr),
        migrate_effect(a0, a1, addr, target, r1),
        migrate_effect(a1, a2, addr, a0.blocks()[addr].domain, r2),
    ensures
        r1 is Ok && r2 is Ok,
        a2.blocks() == a0.blocks(),
        a2.device_bytes() == a0.device_bytes(),
        a2.virtual_bytes() == a0.virtual_bytes(),
{
    let b = a0.blocks()[addr];
    assert(a1.blocks().contains_key(addr));
    assert(a0.blocks().insert(addr, MemoryBlock { domain: target, ..b }).insert(addr, b) =~= a0.blocks());
}

/// One call of the allocator's mutating operations: an allocation, a free
/// or a migration, whatever its arguments and outcome.
pub open spec fn allocator_call(pre: DuvasAllocator, post: DuvasAllocator) -> bool {
    ||| exists|size: usize, is_static: bool| allocate_effect(pre, post, size, is_static)
    ||| exists|addr: u64, r: Result<(), AllocatorError>| free_effect(pre, post, addr, r)
    ||| exists|addr: u64, target: MemoryDomain, r: Result<(), AllocatorError>|
        migrate_effect(pre, post, addr, target, r)
}

/// The next address never moves back over a run of calls.
proof fn lemma_next_address_grows(states: Seq<DuvasAllocator>, i: int, j: int)
    requires
        0 <= i <= j < states.len(),
        forall|k: int| 0 <= k < states.len() - 1 ==> allocator_call(#[trigger] states[k], states[k + 1]),
    ensures
        states[i].next_address() <= states[j].next_address(),
    decreases j - i,
{
    if i < j {
        lemma_next_address_grows(states, i, j - 1);
        assert(allocator_call(states[j - 1], states[j]));
    }
}

/// Over any run of allocations, frees and migrations, every allocation
/// starts at or past the end of the block of every earlier allocation: the
/// address it returns is at least the earlier address plus the earlier
/// page-aligned size. So blocks handed out never overlap, and an earlier
/// allocation of at least one byte returns a strictly smaller address.
pub proof fn law_later_allocations_start_past_earlier(
    states: Seq<DuvasAllocator>,
    i: int,
    j: int,
    size1: usize,
    static1: bool,
    size2: usize,
    static2: bool,
)
    requires
        0 <= i < j,
        j + 1 < states.len(),
        forall|k: int| 0 <= k < states.len() - 1 ==> allocator_call(#[trigger] states[k], states[k + 1]),
        allocate_effect(states[i], states[i + 1], size1, static1),
        allocate_effect(states[j], states[j + 1], size2, static2),
    ensures
        states[j].next_address() >= states[i].next_address() + page_aligned(size1 as nat),
        size1 > 0 ==> states[j].next_address() > states[i].next_address(),
{
    lemma_next_address_grows(states, i + 1, j);
    assert(page_aligned(size1 as nat) >= size1) by (nonlinear_arith);
}

/// Two allocations in a row, the first of at least one byte, return strictly
/// increasing addresses.
pub proof fn law_addresses_increase(
    a0: DuvasAllocator,
    a1: DuvasAllocator,
    size_bytes: usize,
    is_static: bool,
)
    requires
        allocate_effect(a0, a1, size_bytes, is_static),
        size_bytes > 0,
    ensures
        a1.next_address() >= a0.next_address() + 4096,
{
}

} // verus!
