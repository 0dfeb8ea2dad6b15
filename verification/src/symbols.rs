//! Debug symbol support.
//!
//! A read-only table of symbol records maps address ranges to names.  The
//! records are produced outside the running kernel by a post-link tool,
//! which serializes them into a dedicated section and then patches the
//! record count into a separate word.  Until that patch runs, the count
//! holds its safe default of zero, so every lookup misses instead of
//! reading past the records that are actually present.
//!
//! [`lookup_symbol`] scans the active records from the front and returns
//! the name of the first record whose half-open range `[start, start+size)`
//! contains the queried address.  First-match-in-table-order is the
//! deterministic tie-break policy for (ill-formed) overlapping ranges.

use vstd::prelude::*;

use crate::memory::VirtualAddress;

verus! {

/// One named code region: the half-open address range
/// `[start, start + size)` carries `name`.
pub struct SymbolRecord {
    start: usize,
    size: usize,
    name: String,
}

impl SymbolRecord {
    /// The first address of the record's range.
    pub closed spec fn spec_start(self) -> usize {
        self.start
    }

    /// The length of the record's range in bytes.
    pub closed spec fn spec_size(self) -> usize {
        self.size
    }

    /// The symbol name, for use in specifications.
    pub closed spec fn spec_name(self) -> Seq<char> {
        self.name@
    }

    /// Whether `addr` lies in the record's half-open range.
    pub open spec fn spec_contains(self, addr: usize) -> bool {
        self.spec_start() <= addr < self.spec_start() + self.spec_size()
    }

    /// Build a record covering `[start, start + size)`.
    ///
    /// The range must fit in the address space; the build tool never
    /// emits a record that wraps around.
    pub fn new(start: usize, size: usize, name: String) -> (r: SymbolRecord)
        requires
            start + size <= usize::MAX,
        ensures
            r.spec_start() == start,
            r.spec_size() == size,
            r.spec_name() == name@,
    {
        SymbolRecord { start, size, name }
    }

    /// The first address of the record's range.
    pub fn start(&self) -> (r: usize)
        ensures
            r == self.spec_start(),
    {
        self.start
    }

    /// The length of the record's range in bytes.
    pub fn size(&self) -> (r: usize)
        ensures
            r == self.spec_size(),
    {
        self.size
    }

    /// The symbol name.
    pub fn name(&self) -> (r: &str)
        ensures
            r@ == self.spec_name(),
    {
        self.name.as_str()
    }

    /// Whether `addr` lies in the record's half-open range.
    pub fn contains(&self, addr: usize) -> (r: bool)
        ensures
            r == self.spec_contains(addr),
    {
        self.start <= addr && addr - self.start < self.size
    }
}

/// The name returned by a front-to-back scan of `records`: the name of
/// the first record containing `addr`, or `None` when no record does.
pub open spec fn spec_lookup(records: Seq<SymbolRecord>, addr: usize) -> Option<Seq<char>>
    decreases records.len(),
{
    if records.len() == 0 {
        None
    } else if records[0].spec_contains(addr) {
        Some(records[0].spec_name())
    } else {
        spec_lookup(records.drop_first(), addr)
    }
}

/// The debug symbol table: the records of the symbol section together
/// with the separately patched record count.  Only the first `count`
/// records are active; with the unpatched default count of zero, every
/// lookup returns `None`.
pub struct SymbolTable {
    records: Vec<SymbolRecord>,
    count: usize,
}

impl View for SymbolTable {
    type V = Seq<SymbolRecord>;

    /// The active records: the first `count` entries of the section.
    closed spec fn view(&self) -> Seq<SymbolRecord> {
        self.records@.take(self.count as int)
    }
}

impl SymbolTable {
    /// The count word never claims more records than the section holds.
    #[verifier::type_invariant]
    spec fn inv(self) -> bool {
        self.count <= self.records@.len()
    }

    /// The whole symbol section, active or not, for use in specifications.
    pub closed spec fn spec_section(self) -> Seq<SymbolRecord> {
        self.records@
    }

    /// The patched record count, for use in specifications.
    pub closed spec fn spec_count(self) -> usize {
        self.count
    }

    /// An as-yet-unpatched table: the record count still holds its safe
    /// default of zero, so no record is active.
    pub fn new(records: Vec<SymbolRecord>) -> (r: SymbolTable)
        ensures
            r.spec_section() == records@,
            r.spec_count() == 0,
            r@ == Seq::<SymbolRecord>::empty(),
    {
        let r = SymbolTable { records, count: 0 };
        proof {
            assert(r@ =~= Seq::<SymbolRecord>::empty());
        }
        r
    }

    /// Overwrite the record count, as the post-link patch tool does.
    ///
    /// A count exceeding the number of records actually serialized is a
    /// build-tool contract violation that the runtime reader cannot
    /// detect; it is excluded here as a precondition.
    pub fn patch_count(&mut self, count: usize)
        requires
            count <= old(self).spec_section().len(),
        ensures
            final(self).spec_section() == old(self).spec_section(),
            final(self).spec_count() == count,
            final(self)@ == old(self).spec_section().take(count as int),
    {
        self.count = count;
    }

    /// The active records: the first `count` entries of the section.
    pub fn active_records(&self) -> (r: &[SymbolRecord])
        ensures
            r@ == self@,
    {
        proof {
            use_type_invariant(&*self);
        }
        vstd::slice::slice_subrange(self.records.as_slice(), 0, self.count)
    }
}

/// Retrieve the symbol name corresponding to a virtual address, if any.
///
/// Scans the active records from the front; the first record whose range
/// contains `addr` wins.  Returns `None` when the table is empty or no
/// active record's range contains `addr`.
pub fn lookup_symbol<'a>(table: &'a SymbolTable, addr: VirtualAddress) -> (r: Option<&'a str>)
    ensures
        match r {
            Some(name) => spec_lookup(table@, addr.spec_as_usize()) == Some(name@),
            None => spec_lookup(table@, addr.spec_as_usize()) is None,
        },
{
    proof {
        use_type_invariant(&*table);
    }
    let a = addr.as_usize();
    let records = table.active_records();
    let n = records.len();
    let mut i: usize = 0;
    proof {
        assert(table@.skip(0) =~= table@);
    }
    while i < n
        invariant
            records@ == table@,
            n == table@.len(),
            0 <= i <= n,
            a == addr.spec_as_usize(),
            spec_lookup(table@, a) == spec_lookup(table@.skip(i as int), a),
        decreases n - i,
    {
        let rec = &records[i];
        if rec.contains(a) {
            proof {
                assert(table@.skip(i as int)[0] == table@[i as int]);
            }
            return Some(rec.name());
        }
        proof {
            assert(table@.skip(i as int)[0] == table@[i as int]);
            assert(table@.skip(i as int).drop_first() =~= table@.skip(i + 1));
        }
        i = i + 1;
    }
    proof {
        assert(table@.skip(n as int) =~= Seq::<SymbolRecord>::empty());
    }
    None
}

/// A scan hits exactly when some record's range contains the address:
/// `lookup` returns a name precisely for the addresses inside at least
/// one record's range, and misses for every address outside all ranges.
pub proof fn lemma_lookup_hits_iff_contained(records: Seq<SymbolRecord>, addr: usize)
    ensures
        (spec_lookup(records, addr) is Some) <==> (exists|i: int|
            0 <= i < records.len() && #[trigger] records[i].spec_contains(addr)),
    decreases records.len(),
{
    if records.len() == 0 {
    } else if records[0].spec_contains(addr) {
    } else {
        lemma_lookup_hits_iff_contained(records.drop_first(), addr);
        if spec_lookup(records, addr) is Some {
            let j = choose|j: int|
                0 <= j < records.drop_first().len()
                    && #[trigger] records.drop_first()[j].spec_contains(addr);
            assert(records[j + 1].spec_contains(addr));
        }
        if exists|i: int| 0 <= i < records.len() && #[trigger] records[i].spec_contains(addr) {
            let i = choose|i: int|
                0 <= i < records.len() && #[trigger] records[i].spec_contains(addr);
            assert(records.drop_first()[i - 1].spec_contains(addr));
        }
    }
}

/// When exactly one record's range contains the address, the scan
/// returns that record's name.
pub proof fn lemma_lookup_unique_match(records: Seq<SymbolRecord>, addr: usize, i: int)
    requires
        0 <= i < records.len(),
        records[i].spec_contains(addr),
        forall|j: int|
            0 <= j < records.len() && j != i ==> !(#[trigger] records[j].spec_contains(addr)),
    ensures
        spec_lookup(records, addr) == Some(records[i].spec_name()),
    decreases i,
{
    if i == 0 {
    } else {
        assert(!records[0].spec_contains(addr));
        assert(records.drop_first()[i - 1].spec_contains(addr));
        assert forall|j: int|
            0 <= j < records.drop_first().len() && j != i - 1 implies !(#[trigger] records
            .drop_first()[j].spec_contains(addr)) by {
            assert(records.drop_first()[j] == records[j + 1]);
        }
        lemma_lookup_unique_match(records.drop_first(), addr, i - 1);
    }
}

/// Boundary law: for a record of positive size whose start address no
/// other record covers, looking up `start` yields the record's name,
/// while `start + size` misses unless some record's range covers it
/// (for instance, a record beginning exactly there).
pub proof fn lemma_lookup_boundary(records: Seq<SymbolRecord>, i: int)
    requires
        0 <= i < records.len(),
        records[i].spec_size() > 0,
        records[i].spec_start() + records[i].spec_size() <= usize::MAX,
        forall|j: int|
            0 <= j < records.len() && j != i ==> !(#[trigger] records[j].spec_contains(
                records[i].spec_start(),
            )),
    ensures
        spec_lookup(records, records[i].spec_start()) == Some(records[i].spec_name()),
        (forall|j: int|
            0 <= j < records.len() ==> !(#[trigger] records[j].spec_contains(
                (records[i].spec_start() + records[i].spec_size()) as usize,
            ))) ==> spec_lookup(
            records,
            (records[i].spec_start() + records[i].spec_size()) as usize,
        ) is None,
{
    lemma_lookup_unique_match(records, records[i].spec_start(), i);
    let end = (records[i].spec_start() + records[i].spec_size()) as usize;
    if forall|j: int| 0 <= j < records.len() ==> !(#[trigger] records[j].spec_contains(end)) {
        lemma_lookup_hits_iff_contained(records, end);
    }
}

/// With the unpatched default count of zero no record is active, so the
/// scan misses for every address, including address zero.
pub proof fn lemma_unpatched_lookup_misses(records: Seq<SymbolRecord>, addr: usize)
    requires
        records.len() == 0,
    ensures
        spec_lookup(records, addr) is None,
{
}

} // verus!
