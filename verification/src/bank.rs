//! An explicit model of the register address space.
//!
//! A [`MemoryBank`] maps addresses to 16-bit register words. Its abstract
//! view is a `Map<usize, u16>`; a location that was never stored to reads
//! back as zero, the hardware reset state. The bank stands in for the
//! device's address space, so accesses through it can be specified and
//! tested without touching real hardware.

use vstd::prelude::*;

verus! {

/// One register location: an address and the word it currently holds.
#[derive(Clone, Copy)]
struct MemCell {
    addr: usize,
    bits: u16,
}

/// The map a sequence of cells denotes; a later cell overrides an earlier
/// one with the same address.
spec fn map_of(s: Seq<MemCell>) -> Map<usize, u16>
    decreases s.len(),
{
    if s.len() == 0 {
        Map::empty()
    } else {
        map_of(s.drop_last()).insert(s.last().addr, s.last().bits)
    }
}

/// No two cells share an address.
spec fn unique_addrs(s: Seq<MemCell>) -> bool {
    forall|i: int, j: int| 0 <= i < j < s.len() ==> s[i].addr != s[j].addr
}

/// What a load at `addr` observes in the bank state `m`: the stored word,
/// or zero where nothing was ever stored.
pub open spec fn spec_load(m: Map<usize, u16>, addr: usize) -> u16 {
    if m.dom().contains(addr) {
        m[addr]
    } else {
        0
    }
}

proof fn lemma_map_of_contains(s: Seq<MemCell>, a: usize)
    ensures
        map_of(s).dom().contains(a) <==> exists|i: int| 0 <= i < s.len() && s[i].addr == a,
    decreases s.len(),
{
    if s.len() > 0 {
        lemma_map_of_contains(s.drop_last(), a);
        if s.last().addr == a {
            assert(s[s.len() - 1].addr == a);
        } else if map_of(s.drop_last()).dom().contains(a) {
            let i = choose|i: int| 0 <= i < s.drop_last().len() && s.drop_last()[i].addr == a;
            assert(s[i].addr == a);
        } else if exists|i: int| 0 <= i < s.len() && s[i].addr == a {
            let i = choose|i: int| 0 <= i < s.len() && s[i].addr == a;
            assert(s.drop_last()[i].addr == a);
        }
    }
}

proof fn lemma_map_of_value(s: Seq<MemCell>, i: int)
    requires
        unique_addrs(s),
        0 <= i < s.len(),
    ensures
        map_of(s).dom().contains(s[i].addr),
        map_of(s)[s[i].addr] == s[i].bits,
    decreases s.len(),
{
    if i < s.len() - 1 {
        assert(s[i].addr != s[s.len() - 1].addr);
        lemma_map_of_value(s.drop_last(), i);
    }
}

proof fn lemma_map_of_update(s: Seq<MemCell>, i: int, c: MemCell)
    requires
        unique_addrs(s),
        0 <= i < s.len(),
        c.addr == s[i].addr,
    ensures
        map_of(s.update(i, c)) == map_of(s).insert(c.addr, c.bits),
    decreases s.len(),
{
    let t = s.update(i, c);
    if i == s.len() - 1 {
        assert(t.drop_last() =~= s.drop_last());
        assert(t.last() == c);
        assert(map_of(s.drop_last()).insert(s.last().addr, s.last().bits).insert(c.addr, c.bits)
            =~= map_of(s.drop_last()).insert(c.addr, c.bits));
    } else {
        assert(t.drop_last() =~= s.drop_last().update(i, c));
        assert(t.last() == s.last());
        lemma_map_of_update(s.drop_last(), i, c);
        assert(s[i].addr != s[s.len() - 1].addr);
        assert(map_of(s.drop_last()).insert(c.addr, c.bits).insert(s.last().addr, s.last().bits)
            =~= map_of(s.drop_last()).insert(s.last().addr, s.last().bits).insert(c.addr, c.bits));
    }
}

/// A simulated register address space: each address holds one 16-bit word,
/// zero until first stored to.
pub struct MemoryBank {
    cells: Vec<MemCell>,
}

impl View for MemoryBank {
    type V = Map<usize, u16>;

    closed spec fn view(&self) -> Map<usize, u16> {
        map_of(self.cells@)
    }
}

impl MemoryBank {
    #[verifier::type_invariant]
    spec fn wf(self) -> bool {
        unique_addrs(self.cells@)
    }

    /// A bank in the reset state: every location reads back as zero.
    pub fn new() -> (r: Self)
        ensures
            r@ == Map::<usize, u16>::empty(),
    {
        MemoryBank { cells: Vec::new() }
    }

    /// The word held at `addr`.
    pub fn load(&self, addr: usize) -> (r: u16)
        ensures
            r == spec_load(self@, addr),
    {
        proof {
            use_type_invariant(self);
        }
        let n = self.cells.len();
        let mut i: usize = 0;
        while i < n
            invariant
                n == self.cells.len(),
                i <= n,
                unique_addrs(self.cells@),
                forall|j: int| 0 <= j < i ==> self.cells@[j].addr != addr,
            decreases n - i,
        {
            if self.cells[i].addr == addr {
                proof {
                    lemma_map_of_value(self.cells@, i as int);
                }
                return self.cells[i].bits;
            }
            i += 1;
        }
        proof {
            lemma_map_of_contains(self.cells@, addr);
        }
        0
    }

    /// Stores `bits` at `addr`; every other location keeps its word.
    pub fn store(&mut self, addr: usize, bits: u16)
        ensures
            final(self)@ == old(self)@.insert(addr, bits),
    {
        proof {
            use_type_invariant(&*self);
        }
        let mut cells: Vec<MemCell> = Vec::new();
        core::mem::swap(&mut cells, &mut self.cells);
        let c = MemCell { addr, bits };
        let n = cells.len();
        let mut i: usize = 0;
        while i < n
            invariant
                n == cells.len(),
                i <= n,
                unique_addrs(cells@),
                cells@ == old(self).cells@,
                forall|j: int| 0 <= j < i ==> cells@[j].addr != addr,
                c == (MemCell { addr, bits }),
            decreases n - i,
        {
            if cells[i].addr == addr {
                let ghost s_old = cells@;
                cells.set(i, c);
                proof {
                    assert(unique_addrs(cells@));
                    lemma_map_of_update(s_old, i as int, c);
                }
                self.cells = cells;
                return;
            }
            i += 1;
        }
        let ghost s_old = cells@;
        cells.push(c);
        proof {
            assert(unique_addrs(cells@));
            assert(cells@.drop_last() =~= s_old);
            assert(cells@.last() == c);
        }
        self.cells = cells;
    }
}

/// Distinct locations are independent: a store to one address leaves what a
/// load at any other address observes unchanged.
pub proof fn lemma_distinct_locations_independent(
    m: Map<usize, u16>,
    stored: usize,
    other: usize,
    bits: u16,
)
    requires
        stored != other,
    ensures
        spec_load(m.insert(stored, bits), other) == spec_load(m, other),
{
}

} // verus!
