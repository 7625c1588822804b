//! Decoding the kernel's `unix:0:system_pages` statistics record into
//! [`PhysicalMemoryStats`].
//!
//! Reading the record is the caller's part: it hands over the records that
//! matched the filter, already read, as plain values of this module.

use vstd::prelude::*;

verus! {

/// The value of one named statistic, by the kernel's data type.
#[derive(Debug, Clone, PartialEq, Eq)]
pub enum StatValue {
    Char(Vec<u8>),
    Int32(i32),
    UInt32(u32),
    Int64(i64),
    UInt64(u64),
    Text(String),
}

/// One name/value pair of a named statistics record.
#[derive(Debug, Clone, PartialEq, Eq)]
pub struct NamedStat {
    pub name: String,
    pub value: StatValue,
}

/// The data of one statistics record.
#[derive(Debug, Clone, PartialEq, Eq)]
pub enum KstatData {
    /// A record of name/value pairs, in the kernel's order.
    Named(Vec<NamedStat>),
    /// Any other kind of record (raw, interrupt, I/O, timer or empty).
    Other,
}

/// The six statistics that make up [`PhysicalMemoryStats`].
#[derive(Debug, Clone, Copy, PartialEq, Eq, Structural)]
pub enum StatField {
    Physmem,
    Freemem,
    Availrmem,
    Lotsfree,
    Desfree,
    Minfree,
}

/// Why a physical memory reading failed.
#[derive(Debug, Clone, Copy, PartialEq, Eq, Structural)]
pub enum KstatError {
    /// No record matched the filter.
    NotFound,
    /// More than one record matched the filter.
    Ambiguous,
    /// The record is not a named record.
    WrongShape,
    /// The record lacks this statistic.
    MissingField(StatField),
    /// The record holds this statistic twice.
    DuplicateField(StatField),
    /// The record holds this statistic with another type than `u64`.
    TypeMismatch(StatField),
}

/// Physical memory counters, in pages.
#[derive(Debug, Clone, Copy, PartialEq, Eq, Structural)]
pub struct PhysicalMemoryStats {
    pub physmem: u64,
    pub freemem: u64,
    pub availrmem: u64,
    pub lotsfree: u64,
    pub desfree: u64,
    pub minfree: u64,
}

impl StatField {
    /// The statistic's name in the record.
    pub open spec fn spec_name(self) -> Seq<char> {
        match self {
            StatField::Physmem => "physmem"@,
            StatField::Freemem => "freemem"@,
            StatField::Availrmem => "availrmem"@,
            StatField::Lotsfree => "lotsfree"@,
            StatField::Desfree => "desfree"@,
            StatField::Minfree => "minfree"@,
        }
    }

    /// The position of the statistic among the six.
    pub open spec fn index(self) -> int {
        match self {
            StatField::Physmem => 0,
            StatField::Freemem => 1,
            StatField::Availrmem => 2,
            StatField::Lotsfree => 3,
            StatField::Desfree => 4,
            StatField::Minfree => 5,
        }
    }

    /// The statistic's name in the record.
    pub fn name(&self) -> (r: &'static str)
        ensures
            r@ == self.spec_name(),
    {
        match self {
            StatField::Physmem => "physmem",
            StatField::Freemem => "freemem",
            StatField::Availrmem => "availrmem",
            StatField::Lotsfree => "lotsfree",
            StatField::Desfree => "desfree",
            StatField::Minfree => "minfree",
        }
    }
}

/// The statistic called `name`, if it is one of the six.
pub open spec fn field_named(name: Seq<char>) -> Option<StatField> {
    if name == StatField::Physmem.spec_name() {
        Some(StatField::Physmem)
    } else if name == StatField::Freemem.spec_name() {
        Some(StatField::Freemem)
    } else if name == StatField::Availrmem.spec_name() {
        Some(StatField::Availrmem)
    } else if name == StatField::Lotsfree.spec_name() {
        Some(StatField::Lotsfree)
    } else if name == StatField::Desfree.spec_name() {
        Some(StatField::Desfree)
    } else if name == StatField::Minfree.spec_name() {
        Some(StatField::Minfree)
    } else {
        None
    }
}

/// No values found yet: one empty slot for each of the six statistics.
pub open spec fn no_values() -> Seq<Option<u64>> {
    seq![None, None, None, None, None, None]
}

/// The values found in `stats`, one slot per statistic in the order of
/// [`StatField::index`], or the first fault met, scanning in order. Names
/// other than the six are skipped whatever their type.
pub open spec fn scan(stats: Seq<NamedStat>) -> Result<Seq<Option<u64>>, KstatError>
    decreases stats.len(),
{
    if stats.len() == 0 {
        Ok(no_values())
    } else {
        match scan(stats.drop_last()) {
            Err(e) => Err(e),
            Ok(found) => {
                let last = stats.last();
                match field_named(last.name@) {
                    None => Ok(found),
                    Some(f) => if found[f.index()] is Some {
                        Err(KstatError::DuplicateField(f))
                    } else {
                        match last.value {
                            StatValue::UInt64(v) => Ok(found.update(f.index(), Some(v))),
                            _ => Err(KstatError::TypeMismatch(f)),
                        }
                    },
                }
            },
        }
    }
}

/// The counters out of the six slots, or the first statistic missing.
pub open spec fn stats_of(found: Seq<Option<u64>>) -> Result<PhysicalMemoryStats, KstatError> {
    if found[0] is None {
        Err(KstatError::MissingField(StatField::Physmem))
    } else if found[1] is None {
        Err(KstatError::MissingField(StatField::Freemem))
    } else if found[2] is None {
        Err(KstatError::MissingField(StatField::Availrmem))
    } else if found[3] is None {
        Err(KstatError::MissingField(StatField::Lotsfree))
    } else if found[4] is None {
        Err(KstatError::MissingField(StatField::Desfree))
    } else if found[5] is None {
        Err(KstatError::MissingField(StatField::Minfree))
    } else {
        Ok(
            PhysicalMemoryStats {
                physmem: found[0]->0,
                freemem: found[1]->0,
                availrmem: found[2]->0,
                lotsfree: found[3]->0,
                desfree: found[4]->0,
                minfree: found[5]->0,
            },
        )
    }
}

/// What a record decodes to.
pub open spec fn decode(data: KstatData) -> Result<PhysicalMemoryStats, KstatError> {
    match data {
        KstatData::Named(stats) => match scan(stats@) {
            Err(e) => Err(e),
            Ok(found) => stats_of(found),
        },
        KstatData::Other => Err(KstatError::WrongShape),
    }
}

/// What the records that matched the filter give: exactly one must have
/// matched.
pub open spec fn read_result(found: Seq<KstatData>) -> Result<PhysicalMemoryStats, KstatError> {
    if found.len() == 0 {
        Err(KstatError::NotFound)
    } else if found.len() > 1 {
        Err(KstatError::Ambiguous)
    } else {
        decode(found[0])
    }
}

/// Reading is a function of what the kernel holds: two readings of the
/// same records give the same result.
pub proof fn lemma_reading_repeats(first: Seq<KstatData>, second: Seq<KstatData>)
    requires
        first == second,
    ensures
        read_result(first) == read_result(second),
{
}

/// Once the scan of a prefix has failed, the scan of every longer prefix
/// fails the same way.
proof fn lemma_scan_fault_persists(stats: Seq<NamedStat>, j: int, k: int)
    requires
        0 <= j <= k <= stats.len(),
        scan(stats.subrange(0, j)) is Err,
    ensures
        scan(stats.subrange(0, k)) == scan(stats.subrange(0, j)),
    decreases k - j,
{
    if k > j {
        lemma_scan_fault_persists(stats, j, k - 1);
        assert(stats.subrange(0, k).drop_last() =~= stats.subrange(0, k - 1));
    }
}

/// The statistic called `name`, if it is one of the six.
fn field_for_name(name: &String) -> (r: Option<StatField>)
    ensures
        r == field_named(name@),
{
    if *name == String::from_str(StatField::Physmem.name()) {
        Some(StatField::Physmem)
    } else if *name == String::from_str(StatField::Freemem.name()) {
        Some(StatField::Freemem)
    } else if *name == String::from_str(StatField::Availrmem.name()) {
        Some(StatField::Availrmem)
    } else if *name == String::from_str(StatField::Lotsfree.name()) {
        Some(StatField::Lotsfree)
    } else if *name == String::from_str(StatField::Desfree.name()) {
        Some(StatField::Desfree)
    } else if *name == String::from_str(StatField::Minfree.name()) {
        Some(StatField::Minfree)
    } else {
        None
    }
}

/// The slot of `f` among the six.
fn slot(f: StatField) -> (r: usize)
    ensures
        r == f.index(),
{
    match f {
        StatField::Physmem => 0,
        StatField::Freemem => 1,
        StatField::Availrmem => 2,
        StatField::Lotsfree => 3,
        StatField::Desfree => 4,
        StatField::Minfree => 5,
    }
}

/// The `u64` held by a statistic, or the mismatch of its type.
pub fn kstat_value_u64(field: StatField, datum: &NamedStat) -> (r: Result<u64, KstatError>)
    ensures
        r == (match datum.value {
            StatValue::UInt64(v) => Ok(v),
            _ => Err(KstatError::TypeMismatch(field)),
        }),
{
    match &datum.value {
        StatValue::UInt64(v) => Ok(*v),
        _ => Err(KstatError::TypeMismatch(field)),
    }
}

impl PhysicalMemoryStats {
    /// Decodes a `system_pages` record: each of the six statistics must be
    /// there exactly once, as a `u64`.
    pub fn from_kstat(kst: &KstatData) -> (r: Result<PhysicalMemoryStats, KstatError>)
        ensures
            r == decode(*kst),
    {
        let named = match kst {
            KstatData::Named(named_stats) => named_stats,
            KstatData::Other => {
                return Err(KstatError::WrongShape);
            },
        };
        let mut found: Vec<Option<u64>> = vec![None, None, None, None, None, None];
        assert(found@ =~= no_values());
        assert(named@.subrange(0, 0) =~= Seq::<NamedStat>::empty());
        let mut i: usize = 0;
        while i < named.len()
            invariant
                i <= named@.len(),
                scan(named@.subrange(0, i as int)) == Ok::<Seq<Option<u64>>, KstatError>(found@),
                found@.len() == 6,
                decode(*kst) == (match scan(named@) {
                    Err(e) => Err(e),
                    Ok(slots) => stats_of(slots),
                }),
            decreases named@.len() - i,
        {
            let nst = &named[i];
            let ghost before = named@.subrange(0, i as int);
            assert(named@.subrange(0, i + 1).drop_last() =~= before);
            assert(named@.subrange(0, i + 1).last() == *nst);
            match field_for_name(&nst.name) {
                None => {},
                Some(f) => {
                    let k = slot(f);
                    if found[k].is_some() {
                        proof {
                            assert(scan(named@.subrange(0, i + 1)) == Err::<
                                Seq<Option<u64>>,
                                KstatError,
                            >(KstatError::DuplicateField(f)));
                            lemma_scan_fault_persists(named@, i + 1, named@.len() as int);
                            assert(named@.subrange(0, named@.len() as int) =~= named@);
                        }
                        return Err(KstatError::DuplicateField(f));
                    }
                    let value = match kstat_value_u64(f, nst) {
                        Ok(v) => v,
                        Err(e) => {
                            proof {
                                assert(scan(named@.subrange(0, i + 1)) == Err::<
                                    Seq<Option<u64>>,
                                    KstatError,
                                >(e));
                                lemma_scan_fault_persists(named@, i + 1, named@.len() as int);
                                assert(named@.subrange(0, named@.len() as int) =~= named@);
                            }
                            return Err(e);
                        },
                    };
                    found.set(k, Some(value));
                },
            }
            i = i + 1;
        }
        assert(named@.subrange(0, named@.len() as int) =~= named@);
        let physmem = match found[0] {
            Some(v) => v,
            None => {
                return Err(KstatError::MissingField(StatField::Physmem));
            },
        };
        let freemem = match found[1] {
            Some(v) => v,
            None => {
                return Err(KstatError::MissingField(StatField::Freemem));
            },
        };
        let availrmem = match found[2] {
            Some(v) => v,
            None => {
                return Err(KstatError::MissingField(StatField::Availrmem));
            },
        };
        let lotsfree = match found[3] {
            Some(v) => v,
            None => {
                return Err(KstatError::MissingField(StatField::Lotsfree));
            },
        };
        let desfree = match found[4] {
            Some(v) => v,
            None => {
                return Err(KstatError::MissingField(StatField::Desfree));
            },
        };
        let minfree = match found[5] {
            Some(v) => v,
            None => {
                return Err(KstatError::MissingField(StatField::Minfree));
            },
        };
        Ok(PhysicalMemoryStats { physmem, freemem, availrmem, lotsfree, desfree, minfree })
    }
}

/// Reads the physical memory counters out of the records that matched the
/// `unix:0:system_pages` filter: none is [`KstatError::NotFound`], more
/// than one [`KstatError::Ambiguous`], and a single one is decoded.
pub fn kstat_read_physmem(found: &Vec<KstatData>) -> (r: Result<PhysicalMemoryStats, KstatError>)
    ensures
        r == read_result(found@),
{
    if found.len() == 0 {
        return Err(KstatError::NotFound);
    }
    if found.len() > 1 {
        return Err(KstatError::Ambiguous);
    }
    PhysicalMemoryStats::from_kstat(&found[0])
}

} // verus!
