//! The addressable memory abstraction: a bank is a fixed-length arena of
//! cells owned by value, each holding a 16-bit word, a last-modification
//! timestamp and optional debug annotations. A bank is paired with the
//! instruction codec that renders its cells as text.

use vstd::prelude::*;

verus! {

/// Milliseconds of wall-clock time since the epoch, for cell timestamps.
/// Timestamps only serve observers that highlight recently-touched cells;
/// nothing is promised of the value.
///
/// Relies on std::time::SystemTime::now; duration_since the epoch and
/// as_millis convert the measurement to a plain integer.
#[verifier::external_body]
fn now_millis() -> u64 {
    std::time::SystemTime::now()
        .duration_since(std::time::SystemTime::UNIX_EPOCH)
        .map(|d| d.as_millis() as u64)
        .unwrap_or(0)
}

/// One storage cell: a 16-bit word, the time of its last write, and
/// optional human-readable annotations (debug labels, never read by
/// execution).
#[derive(Clone)]
pub struct MemoryCell {
    /// The 16-bit word the cell stores.
    data: u16,
    /// When the word was last written, in milliseconds since the epoch.
    last_touched: u64,
    /// Optional mnemonic annotation shown beside the cell.
    mnemonic: Option<String>,
    /// Optional name annotation shown beside the cell.
    name: Option<String>,
}

impl View for MemoryCell {
    type V = u16;

    closed spec fn view(&self) -> u16 {
        self.data
    }
}

impl MemoryCell {
    /// The timestamp of the last write, as the cell records it.
    pub closed spec fn spec_last_touched(&self) -> u64 {
        self.last_touched
    }

    /// The mnemonic annotation, as the cell records it.
    pub closed spec fn spec_mnemonic(&self) -> Option<String> {
        self.mnemonic
    }

    /// The name annotation, as the cell records it.
    pub closed spec fn spec_name(&self) -> Option<String> {
        self.name
    }

    /// The mnemonic annotation shown beside the cell.
    pub fn mnemonic(&self) -> (r: &Option<String>)
        ensures
            r == self.spec_mnemonic(),
    {
        &self.mnemonic
    }

    /// The name annotation shown beside the cell.
    pub fn name(&self) -> (r: &Option<String>)
        ensures
            r == self.spec_name(),
    {
        &self.name
    }

    /// A fresh cell holds zero, the epoch timestamp and no annotations.
    pub fn new() -> (r: MemoryCell)
        ensures
            r@ == 0u16,
            r.spec_last_touched() == 0u64,
            r.spec_mnemonic() is None,
            r.spec_name() is None,
    {
        MemoryCell { data: 0, last_touched: 0, mnemonic: None, name: None }
    }

    /// Writes the word and refreshes the timestamp; annotations stay.
    /// Nothing is promised of the new timestamp: it comes from the clock.
    pub fn set(&mut self, data: u16)
        ensures
            final(self)@ == data,
            final(self).spec_mnemonic() == old(self).spec_mnemonic(),
            final(self).spec_name() == old(self).spec_name(),
    {
        self.data = data;
        self.last_touched = now_millis();
    }

    pub fn get(&self) -> (r: u16)
        ensures
            r == self@,
    {
        self.data
    }

    pub fn last_touched(&self) -> (r: u64)
        ensures
            r == self.spec_last_touched(),
    {
        self.last_touched
    }
}

/// A cell as construction leaves it: the epoch timestamp and no
/// annotations.
pub open spec fn fresh_cell(c: MemoryCell) -> bool {
    c.spec_last_touched() == 0u64 && c.spec_mnemonic() is None && c.spec_name() is None
}

/// A fixed-length bank of cells, paired with the codec that renders its
/// contents as text. Collaborators address cells through the bank, never
/// through shared references to the cells themselves.
pub struct Memory<P> {
    /// The instruction codec used to render this bank's cells as text.
    pub parser: P,
    data: Vec<MemoryCell>,
}

impl<P> View for Memory<P> {
    type V = Seq<u16>;

    closed spec fn view(&self) -> Seq<u16> {
        self.spec_cells().map_values(|c: MemoryCell| c@)
    }
}

impl<P> Memory<P> {
    /// The cells of the bank, annotations and all.
    pub closed spec fn spec_cells(&self) -> Seq<MemoryCell> {
        self.data@
    }

    /// The codec the bank was paired with.
    pub closed spec fn spec_parser(&self) -> P {
        self.parser
    }

    /// A bank of `size` fresh cells rendered by `parser`: every cell
    /// holds zero, carries the epoch timestamp and no annotations.
    pub fn new_bank(parser: P, size: usize) -> (r: Memory<P>)
        ensures
            r@.len() == size,
            forall|i: int| 0 <= i < size ==> r@[i] == 0u16,
            forall|i: int| 0 <= i < size ==> fresh_cell(#[trigger] r.spec_cells()[i]),
            r.spec_parser() == parser,
    {
        let mut data: Vec<MemoryCell> = Vec::new();
        let mut i: usize = 0;
        while i < size
            invariant
                i <= size,
                data@.len() == i,
                forall|j: int| 0 <= j < i ==> data@[j]@ == 0u16,
                forall|j: int| 0 <= j < i ==> fresh_cell(#[trigger] data@[j]),
            decreases size - i,
        {
            data.push(MemoryCell::new());
            i = i + 1;
        }
        Memory { parser, data }
    }

    /// The fixed number of cells in the bank.
    pub fn size(&self) -> (r: usize)
        ensures
            r == self@.len(),
    {
        self.data.len()
    }

    /// The word held at `addr`. Addresses are pre-masked by the caller;
    /// an address beyond the bank is a programming error.
    pub fn get(&self, addr: usize) -> (r: u16)
        requires
            addr < self@.len(),
        ensures
            r == self@[addr as int],
    {
        self.data[addr].get()
    }

    /// Writes the word at `addr`, refreshing that cell's timestamp and
    /// keeping its annotations; every other cell stays as it was.
    pub fn set(&mut self, addr: usize, v: u16)
        requires
            addr < old(self)@.len(),
        ensures
            final(self)@ =~= old(self)@.update(addr as int, v),
            final(self).spec_parser() == old(self).spec_parser(),
    {
        self.data[addr].set(v);
    }

    /// The codec the bank renders its cells with.
    pub fn codec(&self) -> (r: &P)
        ensures
            r == self.spec_parser(),
    {
        &self.parser
    }

    /// Read access to a whole cell, annotations included.
    pub fn cell(&self, addr: usize) -> (r: &MemoryCell)
        requires
            addr < self@.len(),
        ensures
            r == self.spec_cells()[addr as int],
    {
        &self.data[addr]
    }

    /// Replaces the annotations of the cell at `addr`; its word stays.
    pub fn annotate(&mut self, addr: usize, mnemonic: Option<String>, name: Option<String>)
        requires
            addr < old(self)@.len(),
        ensures
            final(self)@ =~= old(self)@,
            final(self).spec_parser() == old(self).spec_parser(),
            final(self).spec_cells()[addr as int].spec_mnemonic() == mnemonic,
            final(self).spec_cells()[addr as int].spec_name() == name,
    {
        let cell = &mut self.data[addr];
        cell.mnemonic = mnemonic;
        cell.name = name;
    }
}

} // verus!
