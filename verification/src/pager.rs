//! Decisions of the virtual sliding pager.
//!
//! Sliding the working-set window turns into a stream of page commands —
//! evictions first, to free device headroom, then prefetches. Active layers
//! are pinned: they are never evicted. The background
//! worker applies each command to the allocator: a prefetch brings a block
//! that is not yet resident onto the device, an eviction sends a resident
//! block back to host memory, and a shutdown stops the worker.
use crate::allocator::{DuvasAllocator, MemoryBlock, MemoryDomain};
use vstd::prelude::*;

verus! {

/// A command for the background paging worker.
#[derive(Debug, Copy, Clone, PartialEq, Eq, Structural)]
pub enum PageCommand {
    /// Bring the block starting at `virtual_addr` onto the local device.
    Prefetch { virtual_addr: u64 },
    /// Send the block starting at `virtual_addr` back to host memory.
    Evict { virtual_addr: u64 },
    /// Stop the worker.
    Shutdown,
}

/// The layers of `evict` that are not active, in order: active layers are
/// pinned and never evicted.
pub open spec fn unpinned(evict: Seq<u64>, active: Seq<u64>) -> Seq<u64>
    decreases evict.len(),
{
    if evict.len() == 0 {
        seq![]
    } else if active.contains(evict.last()) {
        unpinned(evict.drop_last(), active)
    } else {
        unpinned(evict.drop_last(), active).push(evict.last())
    }
}

/// The commands that sliding the window dispatches: one eviction per entry of
/// `evict` that is not active, then one prefetch per entry of `prefetch`, in
/// order.
pub open spec fn window_commands_spec(active: Seq<u64>, prefetch: Seq<u64>, evict: Seq<u64>) -> Seq<
    PageCommand,
> {
    unpinned(evict, active).map_values(|a: u64| PageCommand::Evict { virtual_addr: a })
        + prefetch.map_values(|a: u64| PageCommand::Prefetch { virtual_addr: a })
}

/// A layer is evicted exactly when it is due for eviction and not active.
proof fn lemma_unpinned_contains(evict: Seq<u64>, active: Seq<u64>, a: u64)
    ensures
        unpinned(evict, active).contains(a) <==> (evict.contains(a) && !active.contains(a)),
    decreases evict.len(),
{
    if evict.len() > 0 {
        let rest = evict.drop_last();
        lemma_unpinned_contains(rest, active, a);
        assert(evict =~= rest.push(evict.last()));
        assert(evict.contains(a) <==> (rest.contains(a) || evict.last() == a)) by {
            if evict.contains(a) {
                let i = choose|i: int| 0 <= i < evict.len() && evict[i] == a;
                if i < rest.len() {
                    assert(rest[i] == a);
                }
            }
            if rest.contains(a) {
                let i = choose|i: int| 0 <= i < rest.len() && rest[i] == a;
                assert(evict[i] == a);
            }
        }
        let u = unpinned(rest, active);
        if !active.contains(evict.last()) {
            assert(u.push(evict.last()).contains(a) <==> (u.contains(a) || evict.last() == a)) by {
                if u.push(evict.last()).contains(a) {
                    let i = choose|i: int| 0 <= i < u.len() + 1 && u.push(evict.last())[i] == a;
                    if i < u.len() {
                        assert(u[i] == a);
                    }
                }
                if u.contains(a) {
                    let i = choose|i: int| 0 <= i < u.len() && u[i] == a;
                    assert(u.push(evict.last())[i] == a);
                }
                if evict.last() == a {
                    assert(u.push(evict.last())[u.len() as int] == a);
                }
            }
        }
    }
}

/// Whether `xs` holds `x`.
fn holds(xs: &[u64], x: u64) -> (r: bool)
    ensures
        r == xs@.contains(x),
{
    let mut i: usize = 0;
    while i < xs.len()
        invariant
            i <= xs@.len(),
            forall|k: int| 0 <= k < i ==> xs@[k] != x,
        decreases xs@.len() - i,
    {
        if xs[i] == x {
            assert(xs@[i as int] == x);
            return true;
        }
        i = i + 1;
    }
    false
}

/// The blocks after one command has been applied.
pub open spec fn command_blocks(m: Map<u64, MemoryBlock>, cmd: PageCommand) -> Map<
    u64,
    MemoryBlock,
> {
    match cmd {
        PageCommand::Prefetch { virtual_addr } => {
            if m.contains_key(virtual_addr) && m[virtual_addr].domain != MemoryDomain::LocalDevice {
                m.insert(
                    virtual_addr,
                    MemoryBlock { domain: MemoryDomain::LocalDevice, ..m[virtual_addr] },
                )
            } else {
                m
            }
        },
        PageCommand::Evict { virtual_addr } => {
            if m.contains_key(virtual_addr) && m[virtual_addr].domain == MemoryDomain::LocalDevice {
                m.insert(virtual_addr, MemoryBlock { domain: MemoryDomain::Host, ..m[virtual_addr] })
            } else {
                m
            }
        },
        PageCommand::Shutdown => m,
    }
}

/// The blocks after a sequence of commands has been applied in order; the
/// worker stops at the first shutdown.
pub open spec fn commands_blocks(m: Map<u64, MemoryBlock>, cmds: Seq<PageCommand>) -> Map<
    u64,
    MemoryBlock,
>
    decreases cmds.len(),
{
    if cmds.len() == 0 {
        m
    } else if cmds[0] == PageCommand::Shutdown {
        m
    } else {
        commands_blocks(command_blocks(m, cmds[0]), cmds.drop_first())
    }
}

/// Builds the command stream for sliding the window. Active layers are
/// pinned: none of them is evicted, even when listed for eviction. Evictions
/// come first so that device headroom is freed before prefetching.
pub fn window_commands(active_layers: &[u64], prefetch_layers: &[u64], evict_layers: &[u64]) -> (r:
    Vec<PageCommand>)
    ensures
        r@ == window_commands_spec(active_layers@, prefetch_layers@, evict_layers@),
{
    let mut cmds: Vec<PageCommand> = Vec::new();
    let mut i: usize = 0;
    assert(evict_layers@.take(0) =~= seq![]);
    while i < evict_layers.len()
        invariant
            i <= evict_layers@.len(),
            cmds@ == unpinned(evict_layers@.take(i as int), active_layers@).map_values(
                |a: u64| PageCommand::Evict { virtual_addr: a },
            ),
        decreases evict_layers@.len() - i,
    {
        let ghost prev = cmds@;
        let x = evict_layers[i];
        proof {
            let t = evict_layers@.take(i + 1);
            assert(t.drop_last() =~= evict_layers@.take(i as int));
            assert(t.last() == x);
        }
        if !holds(active_layers, x) {
            cmds.push(PageCommand::Evict { virtual_addr: x });
            proof {
                assert(cmds@ =~= unpinned(evict_layers@.take(i + 1), active_layers@).map_values(
                    |a: u64| PageCommand::Evict { virtual_addr: a },
                ));
            }
        }
        i = i + 1;
    }
    assert(evict_layers@.take(i as int) =~= evict_layers@);
    let ghost evicts = cmds@;
    let mut j: usize = 0;
    while j < prefetch_layers.len()
        invariant
            j <= prefetch_layers@.len(),
            cmds@ == evicts + prefetch_layers@.subrange(0, j as int).map_values(
                |a: u64| PageCommand::Prefetch { virtual_addr: a },
            ),
        decreases prefetch_layers@.len() - j,
    {
        cmds.push(PageCommand::Prefetch { virtual_addr: prefetch_layers[j] });
        j = j + 1;
        proof {
            assert(prefetch_layers@.subrange(0, j as int) =~= prefetch_layers@.subrange(
                0,
                j - 1,
            ).push(prefetch_layers@[j - 1]));
            assert(cmds@ =~= evicts + prefetch_layers@.subrange(0, j as int).map_values(
                |a: u64| PageCommand::Prefetch { virtual_addr: a },
            ));
        }
    }
    assert(prefetch_layers@.subrange(0, j as int) =~= prefetch_layers@);
    cmds
}

/// Applies one command to the allocator, as the paging worker does. Returns
/// `false` when the command asks the worker to stop.
pub fn apply_page_command(allocator: &mut DuvasAllocator, cmd: PageCommand) -> (keep_running: bool)
    requires
        old(allocator).wf(),
    ensures
        final(allocator).wf(),
        keep_running == (cmd != PageCommand::Shutdown),
        final(allocator).blocks() == command_blocks(old(allocator).blocks(), cmd),
        final(allocator).virtual_bytes() == old(allocator).virtual_bytes(),
        final(allocator).capacity() == old(allocator).capacity(),
        final(allocator).next_address() == old(allocator).next_address(),
{
    match cmd {
        PageCommand::Prefetch { virtual_addr } => {
            let domain = allocator.get_domain(virtual_addr);
            if domain != Some(MemoryDomain::LocalDevice) {
                let _ = allocator.migrate(virtual_addr, MemoryDomain::LocalDevice);
            }
            true
        },
        PageCommand::Evict { virtual_addr } => {
            if allocator.get_domain(virtual_addr) == Some(MemoryDomain::LocalDevice) {
                let _ = allocator.migrate(virtual_addr, MemoryDomain::Host);
            }
            true
        },
        PageCommand::Shutdown => false,
    }
}

/// Where one layer ends up after a run of evictions.
pub open spec fn evicted_domain(d: MemoryDomain, evicted: bool) -> MemoryDomain {
    if evicted && d == MemoryDomain::LocalDevice {
        MemoryDomain::Host
    } else {
        d
    }
}

proof fn lemma_commands_append(m: Map<u64, MemoryBlock>, s1: Seq<PageCommand>, s2: Seq<PageCommand>)
    requires
        forall|i: int| 0 <= i < s1.len() ==> s1[i] != PageCommand::Shutdown,
    ensures
        commands_blocks(m, s1 + s2) == commands_blocks(commands_blocks(m, s1), s2),
    decreases s1.len(),
{
    if s1.len() > 0 {
        assert((s1 + s2).drop_first() =~= s1.drop_first() + s2);
        assert((s1 + s2)[0] == s1[0]);
        lemma_commands_append(command_blocks(m, s1[0]), s1.drop_first(), s2);
    } else {
        assert(s1 + s2 =~= s2);
    }
}

proof fn lemma_evictions(m: Map<u64, MemoryBlock>, s: Seq<u64>, a: u64)
    ensures
        ({
            let r = commands_blocks(m, s.map_values(|x: u64| PageCommand::Evict { virtual_addr: x }));
            &&& r.dom() == m.dom()
            &&& m.contains_key(a) ==> r[a] == MemoryBlock {
                domain: evicted_domain(m[a].domain, s.contains(a)),
                ..m[a]
            }
        }),
    decreases s.len(),
{
    let cmds = s.map_values(|x: u64| PageCommand::Evict { virtual_addr: x });
    if s.len() == 0 {
        assert(!s.contains(a));
    } else {
        let m1 = command_blocks(m, cmds[0]);
        assert(cmds.drop_first() =~= s.drop_first().map_values(
            |x: u64| PageCommand::Evict { virtual_addr: x },
        ));
        lemma_evictions(m1, s.drop_first(), a);
        assert(s.contains(a) <==> (s[0] == a || s.drop_first().contains(a))) by {
            if s.contains(a) && s[0] != a {
                let i = choose|i: int| 0 <= i < s.len() && s[i] == a;
                assert(s.drop_first()[i - 1] == a);
            }
            if s.drop_first().contains(a) {
                let i = choose|i: int| 0 <= i < s.drop_first().len() && s.drop_first()[i] == a;
                assert(s[i + 1] == a);
            }
        }
        assert(m1.dom() =~= m.dom());
    }
}

proof fn lemma_prefetches(m: Map<u64, MemoryBlock>, s: Seq<u64>, a: u64)
    ensures
        ({
            let r = commands_blocks(
                m,
                s.map_values(|x: u64| PageCommand::Prefetch { virtual_addr: x }),
            );
            &&& r.dom() == m.dom()
            &&& m.contains_key(a) ==> r[a] == MemoryBlock {
                domain: if s.contains(a) {
                    MemoryDomain::LocalDevice
                } else {
                    m[a].domain
                },
                ..m[a]
            }
        }),
    decreases s.len(),
{
    let cmds = s.map_values(|x: u64| PageCommand::Prefetch { virtual_addr: x });
    if s.len() == 0 {
        assert(!s.contains(a));
    } else {
        let m1 = command_blocks(m, cmds[0]);
        assert(cmds.drop_first() =~= s.drop_first().map_values(
            |x: u64| PageCommand::Prefetch { virtual_addr: x },
        ));
        lemma_prefetches(m1, s.drop_first(), a);
        assert(s.contains(a) <==> (s[0] == a || s.drop_first().contains(a))) by {
            if s.contains(a) && s[0] != a {
                let i = choose|i: int| 0 <= i < s.len() && s[i] == a;
                assert(s.drop_first()[i - 1] == a);
            }
            if s.drop_first().contains(a) {
                let i = choose|i: int| 0 <= i < s.drop_first().len() && s.drop_first()[i] == a;
                assert(s[i + 1] == a);
            }
        }
        assert(m1.dom() =~= m.dom());
    }
}

/// Sliding the window and letting the worker apply the resulting commands in
/// order leaves every allocated prefetched layer on the local device, sends an
/// allocated layer due for eviction that is neither active nor prefetched
/// from the device to host memory, keeps every active layer that is not
/// prefetched where it was, and leaves every other block, and the set of
/// blocks, as it was.
pub proof fn law_slide_window_effect(
    m: Map<u64, MemoryBlock>,
    active: Seq<u64>,
    prefetch: Seq<u64>,
    evict: Seq<u64>,
    a: u64,
)
    ensures
        ({
            let r = commands_blocks(m, window_commands_spec(active, prefetch, evict));
            &&& r.dom() == m.dom()
            &&& m.contains_key(a) ==> r[a] == MemoryBlock {
                domain: if prefetch.contains(a) {
                    MemoryDomain::LocalDevice
                } else {
                    evicted_domain(m[a].domain, evict.contains(a) && !active.contains(a))
                },
                ..m[a]
            }
            &&& (m.contains_key(a) && active.contains(a) && !prefetch.contains(a)) ==> r[a]
                == m[a]
        }),
{
    let kept = unpinned(evict, active);
    let ev = kept.map_values(|x: u64| PageCommand::Evict { virtual_addr: x });
    let pf = prefetch.map_values(|x: u64| PageCommand::Prefetch { virtual_addr: x });
    lemma_commands_append(m, ev, pf);
    lemma_evictions(m, kept, a);
    lemma_unpinned_contains(evict, active, a);
    lemma_prefetches(commands_blocks(m, ev), prefetch, a);
}

} // verus!
