//! The table of breakpoints: a mapping from target virtual address to the
//! original byte that the trap instruction replaced there.
//!
//! A key mapped to `None` is a breakpoint address the user has asked for
//! while no trap is installed for it yet; `Some(byte)` means the trap byte
//! is live in the child's memory right now and `byte` is the value to write
//! back when the site must be restored.  Recording an address that is
//! already known must not disturb a saved byte: once a site is installed,
//! re-recording it would otherwise capture the trap byte itself and poison
//! the table.

use vstd::prelude::*;

verus! {

/// First-match lookup in the underlying entry sequence: `None` when the
/// address is not in the table at all, `Some(state)` otherwise, where
/// `state` is the saved-byte state of the address.
pub closed spec fn seq_lookup(s: Seq<(usize, Option<u8>)>, addr: usize) -> Option<Option<u8>>
    decreases s.len(),
{
    if s.len() == 0 {
        None
    } else if s[0].0 == addr {
        Some(s[0].1)
    } else {
        seq_lookup(s.drop_first(), addr)
    }
}

/// The saved original byte of an installed breakpoint at `addr`, or `None`
/// when `addr` is unknown or recorded but not installed.
pub open spec fn installed_byte(m: Map<usize, Option<u8>>, addr: usize) -> Option<u8> {
    if m.dom().contains(addr) {
        m[addr]
    } else {
        None
    }
}

/// The mapping from breakpoint address to the state of its saved original
/// byte.
pub struct BreakpointTable {
    entries: Vec<(usize, Option<u8>)>,
}

impl View for BreakpointTable {
    type V = Map<usize, Option<u8>>;

    closed spec fn view(&self) -> Map<usize, Option<u8>> {
        Map::new(
            |addr: usize| seq_lookup(self.entries@, addr) is Some,
            |addr: usize| seq_lookup(self.entries@, addr).unwrap(),
        )
    }
}

/// Updating the entry at the first index whose key is `addr` changes the
/// lookup of `addr` to the new state and leaves every other lookup alone.
proof fn lemma_lookup_update(
    s: Seq<(usize, Option<u8>)>,
    i: int,
    addr: usize,
    v: Option<u8>,
    a: usize,
)
    requires
        0 <= i < s.len(),
        s[i].0 == addr,
        forall|j: int| 0 <= j < i ==> (#[trigger] s[j]).0 != addr,
    ensures
        seq_lookup(s.update(i, (addr, v)), a) == if a == addr {
            Some(v)
        } else {
            seq_lookup(s, a)
        },
    decreases s.len(),
{
    let s2 = s.update(i, (addr, v));
    if i == 0 {
        if a != addr {
            assert(s2.drop_first() =~= s.drop_first());
        }
    } else {
        assert(s2.drop_first() =~= s.drop_first().update(i - 1, (addr, v)));
        lemma_lookup_update(s.drop_first(), i - 1, addr, v, a);
    }
}

/// Appending an entry with a fresh key adds exactly that key to the lookup
/// and leaves every other lookup alone.
proof fn lemma_lookup_push(s: Seq<(usize, Option<u8>)>, addr: usize, v: Option<u8>, a: usize)
    requires
        seq_lookup(s, addr) is None,
    ensures
        seq_lookup(s.push((addr, v)), a) == if a == addr {
            Some(v)
        } else {
            seq_lookup(s, a)
        },
    decreases s.len(),
{
    let s2 = s.push((addr, v));
    assert(s2.len() == s.len() + 1);
    assert(s2[s.len() as int] == (addr, v));
    if s.len() == 0 {
        assert(s2[0] == (addr, v));
        assert(s2.drop_first() =~= Seq::<(usize, Option<u8>)>::empty());
        if a == addr {
            assert(seq_lookup(s2, a) == Some(v));
        } else {
            assert(seq_lookup(s2, a) == seq_lookup(s2.drop_first(), a));
            assert(seq_lookup(s2.drop_first(), a) is None);
            assert(seq_lookup(s, a) is None);
        }
    } else {
        assert(s2.drop_first() =~= s.drop_first().push((addr, v)));
        lemma_lookup_push(s.drop_first(), addr, v, a);
    }
}

impl BreakpointTable {
    /// An empty table: no breakpoint addresses are known.
    pub fn new() -> (r: BreakpointTable)
        ensures
            r@ == Map::<usize, Option<u8>>::empty(),
    {
        let r = BreakpointTable { entries: Vec::new() };
        proof {
            assert(r@ =~= Map::<usize, Option<u8>>::empty());
        }
        r
    }

    /// Whether `addr` is a known breakpoint address, installed or not.
    pub fn contains(&self, addr: usize) -> (r: bool)
        ensures
            r == self@.dom().contains(addr),
    {
        let n = self.entries.len();
        let mut i: usize = 0;
        proof {
            assert(self.entries@.skip(0) =~= self.entries@);
        }
        while i < n
            invariant
                n == self.entries.len(),
                i <= n,
                seq_lookup(self.entries@, addr) == seq_lookup(self.entries@.skip(i as int), addr),
            decreases n - i,
        {
            if self.entries[i].0 == addr {
                proof {
                    assert(self.entries@.skip(i as int)[0] == self.entries@[i as int]);
                }
                return true;
            }
            proof {
                assert(self.entries@.skip(i as int).drop_first() =~= self.entries@.skip(
                    i + 1,
                ));
            }
            i = i + 1;
        }
        proof {
            assert(self.entries@.skip(n as int) =~= Seq::<(usize, Option<u8>)>::empty());
        }
        false
    }

    /// The saved original byte of an installed breakpoint at `addr`:
    /// `Some(byte)` exactly when a trap is installed there, `None` when the
    /// address is unknown or not yet installed.
    pub fn lookup(&self, addr: usize) -> (r: Option<u8>)
        ensures
            r == installed_byte(self@, addr),
    {
        let n = self.entries.len();
        let mut i: usize = 0;
        proof {
            assert(self.entries@.skip(0) =~= self.entries@);
        }
        while i < n
            invariant
                n == self.entries.len(),
                i <= n,
                seq_lookup(self.entries@, addr) == seq_lookup(self.entries@.skip(i as int), addr),
            decreases n - i,
        {
            if self.entries[i].0 == addr {
                proof {
                    assert(self.entries@.skip(i as int)[0] == self.entries@[i as int]);
                }
                return self.entries[i].1;
            }
            proof {
                assert(self.entries@.skip(i as int).drop_first() =~= self.entries@.skip(
                    i + 1,
                ));
            }
            i = i + 1;
        }
        proof {
            assert(self.entries@.skip(n as int) =~= Seq::<(usize, Option<u8>)>::empty());
        }
        None
    }

    /// Records `addr` as a breakpoint address.  A fresh address enters the
    /// table with no saved byte; an address already present is left exactly
    /// as it is, so a saved original byte is never overwritten by
    /// re-recording the same breakpoint.
    pub fn record(&mut self, addr: usize)
        ensures
            final(self)@ == if old(self)@.dom().contains(addr) {
                old(self)@
            } else {
                old(self)@.insert(addr, None::<u8>)
            },
    {
        if !self.contains(addr) {
            let ghost s = self.entries@;
            self.entries.push((addr, None));
            proof {
                assert forall|a: usize| true implies seq_lookup(s.push((addr, None)), a) == (
                if a == addr {
                    Some(None::<u8>)
                } else {
                    seq_lookup(s, a)
                }) by {
                    lemma_lookup_push(s, addr, None, a);
                }
                assert(self@ =~= old(self)@.insert(addr, None::<u8>));
            }
        }
    }

    /// Marks the breakpoint at `addr` as installed, with `byte` as the
    /// original byte that the trap replaced; the address enters the table if
    /// it was not recorded before.
    pub fn mark_installed(&mut self, addr: usize, byte: u8)
        ensures
            final(self)@ == old(self)@.insert(addr, Some(byte)),
    {
        let n = self.entries.len();
        let mut i: usize = 0;
        while i < n
            invariant
                n == self.entries.len(),
                self.entries@ == old(self).entries@,
                i <= n,
                forall|j: int| 0 <= j < i ==> (#[trigger] self.entries@[j]).0 != addr,
            decreases n - i,
        {
            if self.entries[i].0 == addr {
                let ghost s = self.entries@;
                self.entries[i] = (addr, Some(byte));
                proof {
                    assert forall|a: usize| true implies seq_lookup(
                        s.update(i as int, (addr, Some(byte))),
                        a,
                    ) == (if a == addr {
                        Some(Some(byte))
                    } else {
                        seq_lookup(s, a)
                    }) by {
                        lemma_lookup_update(s, i as int, addr, Some(byte), a);
                    }
                    assert(self@ =~= old(self)@.insert(addr, Some(byte)));
                }
                return ;
            }
            i = i + 1;
        }
        let ghost s = self.entries@;
        proof {
            lemma_no_key_means_absent(s, addr);
        }
        self.entries.push((addr, Some(byte)));
        proof {
            assert forall|a: usize| true implies seq_lookup(s.push((addr, Some(byte))), a) == (
            if a == addr {
                Some(Some(byte))
            } else {
                seq_lookup(s, a)
            }) by {
                lemma_lookup_push(s, addr, Some(byte), a);
            }
            assert(self@ =~= old(self)@.insert(addr, Some(byte)));
        }
    }
}

/// Read-your-writes on the table: recording a fresh breakpoint address
/// leaves it without a saved byte, so a lookup finds no installed byte
/// before the site is marked installed; once it is marked installed with
/// `byte`, the lookup returns exactly `byte`.
pub proof fn lemma_table_read_your_writes(m: Map<usize, Option<u8>>, addr: usize, byte: u8)
    requires
        !m.dom().contains(addr),
    ensures
        installed_byte(m.insert(addr, None), addr) is None,
        installed_byte(m.insert(addr, None).insert(addr, Some(byte)), addr) == Some(byte),
{
}

/// A sequence none of whose entries carries the key `addr` looks `addr` up
/// to nothing.
proof fn lemma_no_key_means_absent(s: Seq<(usize, Option<u8>)>, addr: usize)
    requires
        forall|j: int| 0 <= j < s.len() ==> (#[trigger] s[j]).0 != addr,
    ensures
        seq_lookup(s, addr) is None,
    decreases s.len(),
{
    if s.len() > 0 {
        lemma_no_key_means_absent(s.drop_first(), addr);
    }
}

} // verus!
