//! Swap accounting: the kernel's three page counters and the four byte
//! quantities that follow from them.

use vstd::prelude::*;

use crate::bytesize_display::{ByteSizeDisplayGiB, ByteSizeDisplayKiB};
use crate::text::{gib_text, kib_text, pad_left};
use crate::PAGE_SIZE;

verus! {

/// Why swap accounting could not be had.
#[derive(Debug, Clone, Copy, PartialEq, Eq, Structural)]
pub enum SwapError {
    /// The kernel's query failed with this OS error code.
    QueryFailed(i32),
    /// The counters contradict one another: free or reserved pages above
    /// the maximum, fewer reserved pages than allocated ones, or more swap
    /// than 64 bits of bytes can count.
    InconsistentAccounting,
}

/// Counters that the four quantities can be computed from: in pages, the
/// free and the reserved ones at most the maximum, at least as many
/// reserved as allocated, and the total in bytes within `u64`.
pub open spec fn counters_consistent(max: nat, free: nat, resv: nat) -> bool {
    &&& free <= max
    &&& resv <= max
    &&& max - free <= resv
    &&& max * (PAGE_SIZE as nat) <= u64::MAX
}

/// Bytes of swap for which physical pages have been allocated.
pub open spec fn allocated_bytes(max: nat, free: nat) -> int {
    (max - free) * (PAGE_SIZE as int)
}

/// Bytes of swap reserved but not allocated.
pub open spec fn reserved_bytes(max: nat, free: nat, resv: nat) -> int {
    resv * (PAGE_SIZE as int) - allocated_bytes(max, free)
}

/// Bytes of swap available for new reservations.
pub open spec fn available_bytes(max: nat, resv: nat) -> int {
    (max - resv) * (PAGE_SIZE as int)
}

/// Bytes of swap in all.
pub open spec fn total_bytes(max: nat) -> int {
    max * (PAGE_SIZE as int)
}

/// For counters with free and reserved pages at most the maximum, the
/// allocated, the reserved but unallocated and the available bytes add up
/// to the total.
pub proof fn lemma_accounting_identity(max: nat, free: nat, resv: nat)
    requires
        free <= max,
        resv <= max,
    ensures
        allocated_bytes(max, free) + reserved_bytes(max, free, resv) + available_bytes(max, resv)
            == total_bytes(max),
{
    assert(allocated_bytes(max, free) + reserved_bytes(max, free, resv) + available_bytes(
        max,
        resv,
    ) == max * (PAGE_SIZE as int)) by (nonlinear_arith);
}

/// The quantities and the tables are a function of the counters: two
/// snapshots of the same counters give the same results.
pub proof fn lemma_snapshot_repeats(first: AnonInfo, second: AnonInfo)
    requires
        first.max_pages() == second.max_pages(),
        first.free_pages() == second.free_pages(),
        first.resv_pages() == second.resv_pages(),
    ensures
        first.spec_allocated() == second.spec_allocated(),
        first.spec_reserved() == second.spec_reserved(),
        first.spec_available() == second.spec_available(),
        first.spec_total() == second.spec_total(),
        first.spec_format() == second.spec_format(),
        first.spec_display() == second.spec_display(),
{
}

/// One line of the accounting tables: a label, the quantity in whole
/// kibibytes in a column of nine, and in gibibytes in a column of five.
pub open spec fn table_row(label: Seq<char>, bytes: nat) -> Seq<char> {
    label + pad_left(kib_text(bytes), 9) + " KiB  "@ + pad_left(gib_text(bytes), 5) + " GiB"@
}

/// A snapshot of the kernel's swap accounting counters, in pages.
#[derive(Debug, Clone, Copy)]
pub struct AnonInfo {
    ani_max: usize,
    ani_free: usize,
    ani_resv: usize,
}

impl AnonInfo {
    #[verifier::type_invariant]
    spec fn consistent(self) -> bool {
        counters_consistent(self.ani_max as nat, self.ani_free as nat, self.ani_resv as nat)
    }

    /// Pages of swap in all.
    pub closed spec fn max_pages(self) -> nat {
        self.ani_max as nat
    }

    /// Pages of swap not allocated.
    pub closed spec fn free_pages(self) -> nat {
        self.ani_free as nat
    }

    /// Pages of swap reserved, allocated or not.
    pub closed spec fn resv_pages(self) -> nat {
        self.ani_resv as nat
    }

    /// Bytes of swap allocated.
    pub open spec fn spec_allocated(self) -> int {
        allocated_bytes(self.max_pages(), self.free_pages())
    }

    /// Bytes of swap reserved but not allocated.
    pub open spec fn spec_reserved(self) -> int {
        reserved_bytes(self.max_pages(), self.free_pages(), self.resv_pages())
    }

    /// Bytes of swap available for new reservations.
    pub open spec fn spec_available(self) -> int {
        available_bytes(self.max_pages(), self.resv_pages())
    }

    /// Bytes of swap in all.
    pub open spec fn spec_total(self) -> int {
        total_bytes(self.max_pages())
    }

    /// The expanded table of the four quantities, without a final newline.
    pub open spec fn spec_format(self) -> Seq<char> {
        "SWAP ACCOUNTING\n"@
            + table_row("allocated:                  "@, self.spec_allocated() as nat) + "\n"@
            + table_row("reserved (not allocated):   "@, self.spec_reserved() as nat) + "\n"@
            + table_row("used:                       "@, (self.spec_allocated() + self.spec_reserved()) as nat) + "\n"@
            + table_row("available:                  "@, self.spec_available() as nat) + "\n"@
            + table_row("total:                      "@, self.spec_total() as nat)
    }

    /// The detailed table, from the total down, each line ending in a
    /// newline.
    pub open spec fn spec_display(self) -> Seq<char> {
        "SWAP ACCOUNTING\n"@
            + table_row("total (available + used):        "@, self.spec_total() as nat) + "\n"@
            + table_row("    available:                   "@, self.spec_available() as nat) + "\n"@
            + table_row("    used (reserved + allocated): "@, (self.spec_allocated() + self.spec_reserved()) as nat) + "\n"@
            + table_row("        reserved, unallocated:   "@, self.spec_reserved() as nat) + "\n"@
            + table_row("        allocated:               "@, self.spec_allocated() as nat) + "\n"@
    }

    /// Takes the kernel's counters, in pages, when they are consistent.
    pub fn new(max: usize, free: usize, resv: usize) -> (r: Result<AnonInfo, SwapError>)
        ensures
            match r {
                Ok(a) => {
                    &&& counters_consistent(max as nat, free as nat, resv as nat)
                    &&& a.max_pages() == max
                    &&& a.free_pages() == free
                    &&& a.resv_pages() == resv
                },
                Err(e) => {
                    &&& !counters_consistent(max as nat, free as nat, resv as nat)
                    &&& e == SwapError::InconsistentAccounting
                },
            },
    {
        if free <= max && resv <= max && max - free <= resv && max as u64 <= u64::MAX
            / (PAGE_SIZE as u64) {
            Ok(AnonInfo { ani_max: max, ani_free: free, ani_resv: resv })
        } else {
            Err(SwapError::InconsistentAccounting)
        }
    }

    /// Amount of swap space for which physical pages have been allocated,
    /// in bytes.
    pub fn allocated(&self) -> (r: u64)
        ensures
            r == self.spec_allocated(),
            r <= self.spec_total(),
    {
        proof {
            use_type_invariant(self);
        }
        let pages = (self.ani_max - self.ani_free) as u64;
        assert(pages * 4096 <= self.ani_max * 4096) by (nonlinear_arith)
            requires
                pages <= self.ani_max,
        ;
        pages * (PAGE_SIZE as u64)
    }

    /// Amount of swap space that has been reserved but not allocated, in
    /// bytes.
    pub fn reserved(&self) -> (r: u64)
        ensures
            r == self.spec_reserved(),
            self.spec_allocated() + r <= self.spec_total(),
    {
        proof {
            use_type_invariant(self);
        }
        (self.ani_resv as u64) * (PAGE_SIZE as u64) - self.allocated()
    }

    /// Amount of swap space that is available for new reservations, in
    /// bytes.
    pub fn available(&self) -> (r: u64)
        ensures
            r == self.spec_available(),
    {
        proof {
            use_type_invariant(self);
        }
        let pages = (self.ani_max - self.ani_resv) as u64;
        assert(pages * 4096 <= self.ani_max * 4096) by (nonlinear_arith)
            requires
                pages <= self.ani_max,
        ;
        pages * (PAGE_SIZE as u64)
    }

    /// Total swap space, in bytes.
    pub fn total(&self) -> (r: u64)
        ensures
            r == self.spec_total(),
    {
        proof {
            use_type_invariant(self);
        }
        (self.ani_max as u64) * (PAGE_SIZE as u64)
    }

    /// The four quantities as a table, allocated first and total last.
    pub fn format(&self) -> (r: String)
        ensures
            r@ == self.spec_format(),
    {
        let allocated = self.allocated();
        let reserved = self.reserved();
        let available = self.available();
        let total = self.total();
        let mut s = String::from_str("SWAP ACCOUNTING\n");
        push_row(&mut s, "allocated:                  ", allocated);
        s.append("\n");
        push_row(&mut s, "reserved (not allocated):   ", reserved);
        s.append("\n");
        push_row(&mut s, "used:                       ", allocated + reserved);
        s.append("\n");
        push_row(&mut s, "available:                  ", available);
        s.append("\n");
        push_row(&mut s, "total:                      ", total);
        assert(s@ =~= self.spec_format());
        s
    }

    /// The swap accounting stats as an expanded, detailed table.
    pub fn display<'a>(&'a self) -> (r: AnonInfoDisplay<'a>)
        ensures
            r.0 == self,
    {
        AnonInfoDisplay(self)
    }
}

/// Appends one line of an accounting table, without its newline.
fn push_row(out: &mut String, label: &str, bytes: u64)
    ensures
        final(out)@ == old(out)@ + table_row(label@, bytes as nat),
{
    out.append(label);
    let kib = ByteSizeDisplayKiB(bytes).to_string_width(9);
    out.append(kib.as_str());
    out.append(" KiB  ");
    let gib = ByteSizeDisplayGiB(bytes).to_string_width(5);
    out.append(gib.as_str());
    out.append(" GiB");
    assert(out@ =~= old(out)@ + table_row(label@, bytes as nat));
}

/// The detailed rendering of an [`AnonInfo`].
pub struct AnonInfoDisplay<'a>(pub &'a AnonInfo);

impl<'a> AnonInfoDisplay<'a> {
    /// The table, from the total down to the allocated swap.
    pub fn to_string(&self) -> (r: String)
        ensures
            r@ == self.0.spec_display(),
    {
        let info = self.0;
        let allocated = info.allocated();
        let reserved = info.reserved();
        let available = info.available();
        let total = info.total();
        let mut s = String::from_str("SWAP ACCOUNTING\n");
        push_row(&mut s, "total (available + used):        ", total);
        s.append("\n");
        push_row(&mut s, "    available:                   ", available);
        s.append("\n");
        push_row(&mut s, "    used (reserved + allocated): ", allocated + reserved);
        s.append("\n");
        push_row(&mut s, "        reserved, unallocated:   ", reserved);
        s.append("\n");
        push_row(&mut s, "        allocated:               ", allocated);
        s.append("\n");
        assert(s@ =~= info.spec_display());
        s
    }
}

} // verus!
