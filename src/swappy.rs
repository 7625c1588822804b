//! The mapping registry: the anonymous mappings this session created, and
//! the decisions around creating, touching and removing them.
//!
//! The registry makes no system call itself. Creating a mapping takes the
//! kernel's answer to the mapping call. Touching and removing come in two
//! halves: `prepare_*` says which pages the caller is to work on and whether
//! to run the monitor meanwhile; the operation itself then updates the
//! registry (for a removal, from the kernel's answer to the unmapping call).
//! The registry changes only after the kernel's call has succeeded.

use vstd::prelude::*;

use crate::text::{
    decimal, gib_string, gib_text, hex, pad_left, pad_right, push_digits, push_left_padded,
    push_right_padded,
};
use crate::PAGE_SIZE;

verus! {

broadcast use vstd::seq_lib::group_filter_ensures;

/// One anonymous memory region created by this session.
#[derive(Debug, Clone, Copy, PartialEq, Eq, Structural)]
pub struct Mapping {
    /// Base address of the region, which also names the mapping.
    pub addr: usize,
    /// Length of the region in bytes.
    pub size: usize,
    /// Whether the region counts against the swap reservation (false: it
    /// was created with no reservation).
    pub reserved: bool,
    /// Whether all its pages have been touched.
    pub allocated: bool,
}

/// A range of addresses: `len` bytes from `start`.
#[derive(Debug, Clone, Copy, PartialEq, Eq, Structural)]
pub struct Region {
    pub start: usize,
    pub len: usize,
}

/// Work on the pages of a mapping that the caller is to carry out.
#[derive(Debug, Clone, Copy, PartialEq, Eq, Structural)]
pub struct PageWork {
    /// The mapping's region.
    pub region: Region,
    /// Whether to enable the monitor before the work and disable it after.
    pub monitor: bool,
}

/// Why a registry operation failed.
#[derive(Debug, Clone, Copy, PartialEq, Eq, Structural)]
pub enum SwappyError {
    /// The kernel refused the mapping, with this OS error code.
    MappingFailed(i32),
    /// No mapping of this session has this address.
    UnknownMapping(usize),
    /// The kernel refused the unmapping, with this OS error code.
    UnmapFailed(i32),
}

impl Mapping {
    /// Length of the region in bytes.
    pub fn size(&self) -> (r: u64)
        ensures
            r == self.size,
    {
        self.size as u64
    }
}

impl Region {
    /// The address of page `k` of the region: `k` pages past the start,
    /// when that is still inside the region and the address space.
    pub open spec fn spec_page_address(self, k: int) -> Option<usize> {
        let offset = k * (PAGE_SIZE as int);
        if 0 <= k && offset < self.len && self.start + offset <= usize::MAX {
            Some((self.start + offset) as usize)
        } else {
            None
        }
    }

    /// The address of page `k` of the region, or `None` past its end. A
    /// caller that touches every page writes to each address this gives,
    /// from `k == 0` up to the first `None`.
    pub fn page_address(&self, k: usize) -> (r: Option<usize>)
        ensures
            r == self.spec_page_address(k as int),
    {
        match k.checked_mul(PAGE_SIZE) {
            None => None,
            Some(offset) => {
                if offset >= self.len {
                    None
                } else {
                    self.start.checked_add(offset)
                }
            },
        }
    }
}

/// Mapping `i` is the first one in `s` whose address is `addr`.
pub open spec fn is_first_at(s: Seq<Mapping>, addr: usize, i: int) -> bool {
    &&& 0 <= i < s.len()
    &&& s[i].addr == addr
    &&& forall|j: int| 0 <= j < i ==> s[j].addr != addr
}

/// The position of the first mapping with address `addr`, or -1 if there
/// is none.
pub open spec fn index_of(s: Seq<Mapping>, addr: usize) -> int {
    if exists|i: int| is_first_at(s, addr, i) {
        choose|i: int| is_first_at(s, addr, i)
    } else {
        -1
    }
}

/// Where mapping `addr` stands in `s`: [`index_of`] is the one position
/// that is first with that address, and it is -1 exactly when no mapping
/// has it.
pub proof fn lemma_index_of(s: Seq<Mapping>, addr: usize)
    ensures
        index_of(s, addr) >= 0 ==> is_first_at(s, addr, index_of(s, addr)),
        forall|i: int| is_first_at(s, addr, i) ==> index_of(s, addr) == i,
        index_of(s, addr) < 0 <==> forall|i: int| 0 <= i < s.len() ==> s[i].addr != addr,
{
    if exists|i: int| is_first_at(s, addr, i) {
        let k = choose|i: int| is_first_at(s, addr, i);
        assert forall|i: int| is_first_at(s, addr, i) implies index_of(s, addr) == i by {
            if i < k {
                assert(s[i].addr != addr);
            } else if k < i {
                assert(s[k].addr != addr);
            }
        }
    } else {
        assert forall|i: int| 0 <= i < s.len() implies s[i].addr != addr by {
            if s[i].addr == addr {
                let first = first_with(s, addr, i);
                assert(is_first_at(s, addr, first));
            }
        }
    }
}

/// Some position at or before `i` is the first with the address of `s[i]`.
proof fn first_with(s: Seq<Mapping>, addr: usize, i: int) -> (k: int)
    requires
        0 <= i < s.len(),
        s[i].addr == addr,
    ensures
        is_first_at(s, addr, k),
    decreases i,
{
    if exists|j: int| 0 <= j < i && s[j].addr == addr {
        let j = choose|j: int| 0 <= j < i && s[j].addr == addr;
        first_with(s, addr, j)
    } else {
        i
    }
}

/// Whether mapping `m` is not the one with address `addr`.
pub open spec fn other_than(addr: usize) -> spec_fn(Mapping) -> bool {
    |m: Mapping| m.addr != addr
}

/// What touching `addr` returns: whether its pages were untouched before.
pub open spec fn touch_result(s: Seq<Mapping>, addr: usize) -> Result<bool, SwappyError> {
    let i = index_of(s, addr);
    if i < 0 {
        Err(SwappyError::UnknownMapping(addr))
    } else {
        Ok(!s[i].allocated)
    }
}

/// The registry after touching `addr`: its mapping is marked allocated.
pub open spec fn touched(s: Seq<Mapping>, addr: usize) -> Seq<Mapping> {
    let i = index_of(s, addr);
    if i < 0 {
        s
    } else {
        s.update(i, Mapping { allocated: true, ..s[i] })
    }
}

/// What removing `addr` returns, given the kernel's answer to the
/// unmapping call.
pub open spec fn remove_result(s: Seq<Mapping>, addr: usize, unmapped: Result<(), i32>) -> Result<
    (),
    SwappyError,
> {
    if index_of(s, addr) < 0 {
        Err(SwappyError::UnknownMapping(addr))
    } else {
        match unmapped {
            Ok(()) => Ok(()),
            Err(code) => Err(SwappyError::UnmapFailed(code)),
        }
    }
}

/// The registry after removing `addr`: unchanged unless the removal
/// succeeded, and then without any entry for that address.
pub open spec fn removed(s: Seq<Mapping>, addr: usize, unmapped: Result<(), i32>) -> Seq<Mapping> {
    if remove_result(s, addr, unmapped) is Ok {
        s.filter(other_than(addr))
    } else {
        s
    }
}

/// The work a touch asks for: every page of the mapping, with the monitor.
pub open spec fn touch_work(s: Seq<Mapping>, addr: usize) -> Result<PageWork, SwappyError> {
    let i = index_of(s, addr);
    if i < 0 {
        Err(SwappyError::UnknownMapping(addr))
    } else {
        Ok(PageWork { region: Region { start: addr, len: s[i].size }, monitor: true })
    }
}

/// The work a removal asks for: unmapping the region, with the monitor if
/// its pages were touched.
pub open spec fn remove_work(s: Seq<Mapping>, addr: usize) -> Result<PageWork, SwappyError> {
    let i = index_of(s, addr);
    if i < 0 {
        Err(SwappyError::UnknownMapping(addr))
    } else {
        Ok(PageWork { region: Region { start: addr, len: s[i].size }, monitor: s[i].allocated })
    }
}


/// One line of the mappings table: the address as a pointer in a column of
/// sixteen, the size in bytes in a column of eleven, the size in gibibytes
/// in a column of nine, then `NORESERVE` for a mapping without reservation
/// and `ALLOCATED` for a touched one.
pub open spec fn mapping_row(m: Mapping) -> Seq<char> {
    pad_left("0x"@ + hex(m.addr as nat), 16) + "  "@ + pad_left(decimal(m.size as nat), 11)
        + "  "@ + pad_left(gib_text(m.size as nat), 9) + " "@ + pad_right(
        if m.reserved {
            ""@
        } else {
            "NORESERVE"@
        },
        9,
    ) + " "@ + (if m.allocated {
        "ALLOCATED"@
    } else {
        ""@
    }) + "\n"@
}

/// The lines of the mappings table for `s`, in order.
pub open spec fn mapping_rows(s: Seq<Mapping>) -> Seq<char>
    decreases s.len(),
{
    if s.len() == 0 {
        Seq::empty()
    } else {
        mapping_rows(s.drop_last()) + mapping_row(s.last())
    }
}

/// The table of the session's mappings: a title, a header and one line per
/// mapping.
pub open spec fn mappings_table_text(s: Seq<Mapping>) -> Seq<char> {
    "SWAPPY-CREATED MAPPINGS\n"@ + pad_right("ADDR"@, 18) + "  "@ + pad_right("SIZE (B)"@, 11)
        + "  "@ + pad_right("SIZE (GB)"@, 9) + "\n"@ + mapping_rows(s)
}

/// Appends the table line of `m`.
fn push_mapping_row(out: &mut String, m: Mapping)
    ensures
        final(out)@ == old(out)@ + mapping_row(m),
{
    let mut addr = String::from_str("0x");
    push_digits(&mut addr, m.addr as u128, 16);
    let mut size = String::new();
    push_digits(&mut size, m.size as u128, 10);
    let gib = gib_string(m.size as u128);
    let reservation = if m.reserved { "" } else { "NORESERVE" };
    let allocation = if m.allocated { "ALLOCATED" } else { "" };
    let ghost columns = pad_left(addr@, 16) + "  "@ + pad_left(size@, 11) + "  "@ + pad_left(gib@, 9);
    push_left_padded(out, addr.as_str(), 16);
    out.append("  ");
    push_left_padded(out, size.as_str(), 11);
    out.append("  ");
    push_left_padded(out, gib.as_str(), 9);
    assert(out@ =~= old(out)@ + columns);
    let ghost mid = out@;
    out.append(" ");
    push_right_padded(out, reservation, 9);
    out.append(" ");
    out.append(allocation);
    out.append("\n");
    assert(out@ =~= mid + " "@ + pad_right(reservation@, 9) + " "@ + allocation@ + "\n"@);
    assert(mapping_row(m) =~= columns + " "@ + pad_right(reservation@, 9) + " "@ + allocation@
        + "\n"@);
    assert(out@ =~= old(out)@ + mapping_row(m));
}

/// Touching a mapping marks it allocated and leaves every entry's position
/// in place; touching it again returns `false`.
pub proof fn lemma_touch_again(s: Seq<Mapping>, addr: usize)
    requires
        index_of(s, addr) >= 0,
    ensures
        index_of(touched(s, addr), addr) == index_of(s, addr),
        touched(s, addr)[index_of(s, addr)].allocated,
        touch_result(touched(s, addr), addr) == Ok::<bool, SwappyError>(false),
        touched(touched(s, addr), addr) == touched(s, addr),
{
    let i = index_of(s, addr);
    let t = touched(s, addr);
    lemma_index_of(s, addr);
    assert(is_first_at(t, addr, i));
    lemma_index_of(t, addr);
    assert(t.update(i, Mapping { allocated: true, ..t[i] }) =~= t);
}

/// Touching a mapping whose pages were never touched returns `true` the
/// first time and `false` the second, and it is allocated after each.
pub proof fn lemma_touch_twice(s: Seq<Mapping>, addr: usize)
    requires
        index_of(s, addr) >= 0,
        !s[index_of(s, addr)].allocated,
    ensures
        touch_result(s, addr) == Ok::<bool, SwappyError>(true),
        touched(s, addr)[index_of(s, addr)].allocated,
        touch_result(touched(s, addr), addr) == Ok::<bool, SwappyError>(false),
        touched(touched(s, addr), addr)[index_of(s, addr)].allocated,
{
    lemma_touch_again(s, addr);
}

/// Once a mapping is removed, no entry has its address: touching it,
/// removing it again, and preparing either fail with
/// [`SwappyError::UnknownMapping`].
pub proof fn lemma_removed_is_unknown(s: Seq<Mapping>, addr: usize, unmapped: Result<(), i32>)
    requires
        remove_result(s, addr, unmapped) is Ok,
    ensures
        ({
            let after = removed(s, addr, unmapped);
            &&& index_of(after, addr) < 0
            &&& touch_result(after, addr) == Err::<bool, SwappyError>(
                SwappyError::UnknownMapping(addr),
            )
            &&& touched(after, addr) == after
            &&& touch_work(after, addr) == Err::<PageWork, SwappyError>(
                SwappyError::UnknownMapping(addr),
            )
            &&& remove_work(after, addr) == Err::<PageWork, SwappyError>(
                SwappyError::UnknownMapping(addr),
            )
            &&& forall|u: Result<(), i32>|
                #![trigger remove_result(after, addr, u)]
                remove_result(after, addr, u) == Err::<(), SwappyError>(
                    SwappyError::UnknownMapping(addr),
                ) && removed(after, addr, u) == after
        }),
{
    let after = s.filter(other_than(addr));
    assert forall|i: int| 0 <= i < after.len() implies after[i].addr != addr by {
        assert(other_than(addr)(after[i]));
    }
    lemma_index_of(after, addr);
}

/// The session's registry of mappings, in the order they were created.
pub struct Swappy {
    mappings: Vec<Mapping>,
}

impl View for Swappy {
    type V = Seq<Mapping>;

    closed spec fn view(&self) -> Seq<Mapping> {
        self.mappings@
    }
}

impl Swappy {
    /// An empty registry.
    pub fn new() -> (r: Swappy)
        ensures
            r@ == Seq::<Mapping>::empty(),
    {
        Swappy { mappings: Vec::new() }
    }

    /// The mappings, in the order they were created.
    pub fn mappings(&self) -> (r: &[Mapping])
        ensures
            r@ == self@,
    {
        self.mappings.as_slice()
    }

    /// The position of the first mapping with address `addr`.
    fn find(&self, addr: usize) -> (r: Option<usize>)
        ensures
            match r {
                Some(i) => i == index_of(self@, addr),
                None => index_of(self@, addr) < 0,
            },
    {
        proof {
            lemma_index_of(self@, addr);
        }
        let mut i: usize = 0;
        while i < self.mappings.len()
            invariant
                i <= self@.len(),
                self@ == self.mappings@,
                forall|j: int| 0 <= j < i ==> self@[j].addr != addr,
                index_of(self@, addr) >= 0 ==> is_first_at(self@, addr, index_of(self@, addr)),
                forall|k: int| is_first_at(self@, addr, k) ==> index_of(self@, addr) == k,
                index_of(self@, addr) < 0 <==> forall|k: int|
                    0 <= k < self@.len() ==> self@[k].addr != addr,
            decreases self@.len() - i,
        {
            if self.mappings[i].addr == addr {
                assert(is_first_at(self@, addr, i as int));
                return Some(i);
            }
            i = i + 1;
        }
        None
    }

    /// Records the mapping the kernel made for a request of `size` bytes,
    /// or fails with its error; the registry changes only on success.
    fn do_swap_map(&mut self, size: usize, reserved: bool, mapped: Result<usize, i32>) -> (r:
        Result<usize, SwappyError>)
        ensures
            match mapped {
                Ok(addr) => {
                    &&& r == Ok::<usize, SwappyError>(addr)
                    &&& final(self)@ == old(self)@.push(
                        Mapping { addr, size, reserved, allocated: false },
                    )
                },
                Err(code) => {
                    &&& r == Err::<usize, SwappyError>(SwappyError::MappingFailed(code))
                    &&& final(self)@ == old(self)@
                },
            },
    {
        match mapped {
            Ok(addr) => {
                self.mappings.push(Mapping { addr, size, reserved, allocated: false });
                Ok(addr)
            },
            Err(code) => Err(SwappyError::MappingFailed(code)),
        }
    }

    /// Records a swap-reserved mapping of `bytes` bytes, given the kernel's
    /// answer to the mapping call (the base address, or the OS error code).
    pub fn swap_reserve(&mut self, bytes: usize, mapped: Result<usize, i32>) -> (r: Result<
        usize,
        SwappyError,
    >)
        ensures
            match mapped {
                Ok(addr) => {
                    &&& r == Ok::<usize, SwappyError>(addr)
                    &&& final(self)@ == old(self)@.push(
                        Mapping { addr, size: bytes, reserved: true, allocated: false },
                    )
                },
                Err(code) => {
                    &&& r == Err::<usize, SwappyError>(SwappyError::MappingFailed(code))
                    &&& final(self)@ == old(self)@
                },
            },
    {
        self.do_swap_map(bytes, true, mapped)
    }

    /// Records a mapping of `bytes` bytes made without swap reservation,
    /// given the kernel's answer to the mapping call.
    pub fn swap_noreserve(&mut self, bytes: usize, mapped: Result<usize, i32>) -> (r: Result<
        usize,
        SwappyError,
    >)
        ensures
            match mapped {
                Ok(addr) => {
                    &&& r == Ok::<usize, SwappyError>(addr)
                    &&& final(self)@ == old(self)@.push(
                        Mapping { addr, size: bytes, reserved: false, allocated: false },
                    )
                },
                Err(code) => {
                    &&& r == Err::<usize, SwappyError>(SwappyError::MappingFailed(code))
                    &&& final(self)@ == old(self)@
                },
            },
    {
        self.do_swap_map(bytes, false, mapped)
    }

    /// The pages to write to touch mapping `addr`, always with the monitor.
    pub fn prepare_touch(&self, addr: usize) -> (r: Result<PageWork, SwappyError>)
        ensures
            r == touch_work(self@, addr),
    {
        match self.find(addr) {
            None => Err(SwappyError::UnknownMapping(addr)),
            Some(i) => Ok(
                PageWork {
                    region: Region { start: addr, len: self.mappings[i].size },
                    monitor: true,
                },
            ),
        }
    }

    /// Marks mapping `addr` allocated, its pages being touched, and returns
    /// whether this is the first touch.
    pub fn swap_touch(&mut self, addr: usize) -> (r: Result<bool, SwappyError>)
        ensures
            r == touch_result(old(self)@, addr),
            final(self)@ == touched(old(self)@, addr),
    {
        match self.find(addr) {
            None => Err(SwappyError::UnknownMapping(addr)),
            Some(i) => {
                let m = self.mappings[i];
                self.mappings.set(i, Mapping { allocated: true, ..m });
                Ok(!m.allocated)
            },
        }
    }

    /// The region to unmap to remove mapping `addr`, with the monitor if
    /// its pages were touched.
    pub fn prepare_rm(&self, addr: usize) -> (r: Result<PageWork, SwappyError>)
        ensures
            r == remove_work(self@, addr),
    {
        match self.find(addr) {
            None => Err(SwappyError::UnknownMapping(addr)),
            Some(i) => Ok(
                PageWork {
                    region: Region { start: addr, len: self.mappings[i].size },
                    monitor: self.mappings[i].allocated,
                },
            ),
        }
    }

    /// Removes mapping `addr`, given the kernel's answer to the unmapping
    /// call; on any failure the registry stays as it was.
    pub fn swap_rm(&mut self, addr: usize, unmapped: Result<(), i32>) -> (r: Result<(), SwappyError>)
        ensures
            r == remove_result(old(self)@, addr, unmapped),
            final(self)@ == removed(old(self)@, addr, unmapped),
    {
        if self.find(addr).is_none() {
            return Err(SwappyError::UnknownMapping(addr));
        }
        match unmapped {
            Err(code) => Err(SwappyError::UnmapFailed(code)),
            Ok(()) => {
                self.retain_others(addr);
                Ok(())
            },
        }
    }

    /// The mappings as a table, one line per mapping.
    pub fn mappings_table(&self) -> (r: String)
        ensures
            r@ == mappings_table_text(self@),
    {
        let mut s = String::from_str("SWAPPY-CREATED MAPPINGS\n");
        push_right_padded(&mut s, "ADDR", 18);
        s.append("  ");
        push_right_padded(&mut s, "SIZE (B)", 11);
        s.append("  ");
        push_right_padded(&mut s, "SIZE (GB)", 9);
        s.append("\n");
        let ghost head = s@;
        assert(self@.subrange(0, 0) =~= Seq::<Mapping>::empty());
        let mut i: usize = 0;
        while i < self.mappings.len()
            invariant
                i <= self@.len(),
                self@ == self.mappings@,
                s@ == head + mapping_rows(self@.subrange(0, i as int)),
            decreases self@.len() - i,
        {
            push_mapping_row(&mut s, self.mappings[i]);
            assert(self@.subrange(0, i + 1).drop_last() =~= self@.subrange(0, i as int));
            i = i + 1;
            assert(s@ =~= head + mapping_rows(self@.subrange(0, i as int)));
        }
        assert(self@.subrange(0, self@.len() as int) =~= self@);
        assert(s@ =~= mappings_table_text(self@));
        s
    }

    /// Drops every entry with address `addr`, keeping the order of the rest.
    fn retain_others(&mut self, addr: usize)
        ensures
            final(self)@ == old(self)@.filter(other_than(addr)),
    {
        let ghost start = self.mappings@;
        let mut kept: Vec<Mapping> = Vec::new();
        let mut i: usize = 0;
        assert(start.subrange(0, 0) =~= Seq::<Mapping>::empty());
        proof {
            reveal(Seq::filter);
        }
        while i < self.mappings.len()
            invariant
                i <= start.len(),
                self.mappings@ == start,
                kept@ == start.subrange(0, i as int).filter(other_than(addr)),
            decreases start.len() - i,
        {
            let m = self.mappings[i];
            proof {
                reveal(Seq::filter);
                assert(start.subrange(0, i + 1).drop_last() =~= start.subrange(0, i as int));
                assert(start.subrange(0, i + 1).last() == m);
            }
            if m.addr != addr {
                kept.push(m);
            }
            i = i + 1;
        }
        assert(start.subrange(0, start.len() as int) =~= start);
        self.mappings = kept;
    }
}

} // verus!
