//! An integer held in a heap block that the cell alone owns.

use vstd::layout::align_nonzero;
use vstd::layout::align_of;
use vstd::layout::align_properties;
use vstd::layout::layout_of_primitives;
use vstd::prelude::*;
use vstd::string::StringExecFns;

verus! {

/// Size and alignment of a heap block, in bytes.
#[derive(Clone, Copy, Debug, PartialEq, Eq)]
pub struct BlockLayout {
    pub size: usize,
    pub align: usize,
}

/// What every written address has: the lead `0x` and at least one character
/// after it.
pub open spec fn is_address_text(text: Seq<char>) -> bool {
    text.len() > 2 && text[0] == '0' && text[1] == 'x'
}

/// The line that announces the release of the block whose address is
/// written as `address`.
pub open spec fn note_text(address: Seq<char>) -> Seq<char> {
    "drop raw ptr: "@ + address
}

/// Builds the line that announces the release of the block at `address`.
pub fn note_for(address: &str) -> (line: String)
    ensures
        line@ == note_text(address@),
{
    String::from_str("drop raw ptr: ").concat(address)
}

/// The single owner of one heap block that holds an `i32`.
///
/// The block is taken from the global allocator when the cell is made and
/// goes back to it when the cell goes out of scope, on every path and once
/// only: a cell can be moved but not copied, and a cell that was moved is
/// gone. A cell is never without its block, so reading it cannot fail.
pub struct B {
    data: Box<i32>,
}

impl View for B {
    type V = i32;

    /// The integer in the block.
    closed spec fn view(&self) -> i32 {
        *self.data
    }
}

impl B {
    /// The cell that [`B::new`] builds around `value`.
    pub closed spec fn spec_new(value: i32) -> B {
        B { data: Box::new(value) }
    }

    /// The cell that [`Clone::clone`] builds from this one: a new cell
    /// around the integer read from this one.
    pub open spec fn spec_clone(&self) -> B {
        Self::spec_new(self@)
    }

    /// Takes a fresh block from the allocator and stores `value` in it.
    ///
    /// An allocator that has no block left ends the process: there is no
    /// error to handle and nothing is tried again.
    #[verifier::when_used_as_spec(spec_new)]
    pub fn new(value: i32) -> (cell: Self)
        ensures
            cell == Self::spec_new(value),
            cell@ == value,
    {
        B { data: Box::new(value) }
    }

    /// Borrows the integer in the block, for as long as the cell is borrowed.
    pub fn as_ref(&self) -> (value: &i32)
        ensures
            *value == self@,
    {
        &*self.data
    }

    /// The layout that every cell's block is taken with and given back with:
    /// that of one `i32`. The alignment is the target's, and divides the
    /// size.
    pub fn layout() -> (layout: BlockLayout)
        ensures
            layout.size == 4,
            layout.align == align_of::<i32>(),
            layout.align > 0,
            layout.size % layout.align == 0,
    {
        broadcast use {layout_of_primitives, align_properties, align_nonzero};

        BlockLayout { size: core::mem::size_of::<i32>(), align: core::mem::align_of::<i32>() }
    }

    /// The address of the block as `std::fmt::Pointer` writes it for a `Box`,
    /// through `format!` with a bare `{:p}`.
    ///
    /// Believed, not proved: the text opens with `0x` and goes on with at
    /// least one more character, as pointer formatting always writes an
    /// address. Which characters follow depends on where the allocator put
    /// the block, so nothing is claimed of them.
    #[verifier::external_body]
    fn address_text(&self) -> (text: String)
        ensures
            is_address_text(text@),
    {
        format!("{:p}", self.data)
    }

    /// The line to emit when this cell is let go: the fixed lead, then the
    /// address of the block that is about to go back to the allocator, in
    /// the form `0x..`. It is built while the cell is borrowed, hence before
    /// the block is freed.
    pub fn drop_note(&self) -> (line: String)
        ensures
            exists|address: Seq<char>| is_address_text(address) && line@ == note_text(address),
    {
        let address = self.address_text();
        note_for(address.as_str())
    }
}

impl Clone for B {
    /// Reads the integer and builds a new cell around it, in a block of its
    /// own: the two cells share nothing, and each frees its own block.
    fn clone(&self) -> (copy: Self)
        ensures
            copy == self.spec_clone(),
            copy@ == self@,
    {
        B::new(*self.as_ref())
    }
}

/// Reading a new cell gives back the integer it was built around.
pub proof fn lemma_new_then_read(value: i32)
    ensures
        B::new(value)@ == value,
{
}

/// A duplicate reads as the cell it was made from, and is the cell that
/// building anew around that integer gives.
pub proof fn lemma_clone_reads_same(cell: B)
    ensures
        cell.spec_clone()@ == cell@,
        cell.spec_clone() == B::new(cell@),
{
}

} // verus!
