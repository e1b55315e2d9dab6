//! The `Counts` accumulator and its mathematical view.
//!
//! `Counts` is a single mutable accumulator of non-negative counters,
//! created empty at the start of an analysis run, threaded by exclusive
//! mutable access through every classifier call, and consumed once at the
//! end to render the report.  Its ghost counterpart [`CountsView`] records
//! each counter as an unbounded natural number, so that contracts can speak
//! of exact sums without worrying about machine arithmetic.

use vstd::prelude::*;

verus! {

/// The statistics gathered over one corpus of compiled units.
///
/// Counters come in four groups: the seven reference-operation counters
/// together with the overall instruction total; the signature-annotation
/// counters; the per-function classification counters; and the per-module
/// classification counters.
pub struct Counts {
    pub imm_borrow_loc: usize,
    pub mut_borrow_loc: usize,
    pub imm_borrow_field: usize,
    pub mut_borrow_field: usize,
    pub imm_borrow_global: usize,
    pub mut_borrow_global: usize,
    pub freeze: usize,
    pub total_instructions: usize,

    pub reference_parameters: usize,
    pub reference_return_values: usize,
    pub acquires_annotations: usize,

    pub total_functions: usize,
    pub functions_with_reference_operations: usize,
    pub functions_with_reference_signatures: usize,
    pub functions_with_acquires: usize,

    pub total_modules: usize,
    pub modules_with_acquires: usize,
}

/// The mathematical value of a `Counts` accumulator: the same seventeen
/// counters as unbounded naturals.
#[verifier::ext_equal]
pub ghost struct CountsView {
    pub imm_borrow_loc: nat,
    pub mut_borrow_loc: nat,
    pub imm_borrow_field: nat,
    pub mut_borrow_field: nat,
    pub imm_borrow_global: nat,
    pub mut_borrow_global: nat,
    pub freeze: nat,
    pub total_instructions: nat,

    pub reference_parameters: nat,
    pub reference_return_values: nat,
    pub acquires_annotations: nat,

    pub total_functions: nat,
    pub functions_with_reference_operations: nat,
    pub functions_with_reference_signatures: nat,
    pub functions_with_acquires: nat,

    pub total_modules: nat,
    pub modules_with_acquires: nat,
}

impl View for Counts {
    type V = CountsView;

    open spec fn view(&self) -> CountsView {
        CountsView {
            imm_borrow_loc: self.imm_borrow_loc as nat,
            mut_borrow_loc: self.mut_borrow_loc as nat,
            imm_borrow_field: self.imm_borrow_field as nat,
            mut_borrow_field: self.mut_borrow_field as nat,
            imm_borrow_global: self.imm_borrow_global as nat,
            mut_borrow_global: self.mut_borrow_global as nat,
            freeze: self.freeze as nat,
            total_instructions: self.total_instructions as nat,
            reference_parameters: self.reference_parameters as nat,
            reference_return_values: self.reference_return_values as nat,
            acquires_annotations: self.acquires_annotations as nat,
            total_functions: self.total_functions as nat,
            functions_with_reference_operations: self.functions_with_reference_operations as nat,
            functions_with_reference_signatures: self.functions_with_reference_signatures as nat,
            functions_with_acquires: self.functions_with_acquires as nat,
            total_modules: self.total_modules as nat,
            modules_with_acquires: self.modules_with_acquires as nat,
        }
    }
}

impl CountsView {
    /// The record with every counter zero: the value of a fresh accumulator.
    pub open spec fn zero() -> CountsView {
        CountsView {
            imm_borrow_loc: 0,
            mut_borrow_loc: 0,
            imm_borrow_field: 0,
            mut_borrow_field: 0,
            imm_borrow_global: 0,
            mut_borrow_global: 0,
            freeze: 0,
            total_instructions: 0,
            reference_parameters: 0,
            reference_return_values: 0,
            acquires_annotations: 0,
            total_functions: 0,
            functions_with_reference_operations: 0,
            functions_with_reference_signatures: 0,
            functions_with_acquires: 0,
            total_modules: 0,
            modules_with_acquires: 0,
        }
    }

    /// Field-wise sum of two count records.  Every classifier's effect on the
    /// accumulator is `add` of a delta, so merging partial results is
    /// associative and commutative.
    pub open spec fn add(self, other: CountsView) -> CountsView {
        CountsView {
            imm_borrow_loc: self.imm_borrow_loc + other.imm_borrow_loc,
            mut_borrow_loc: self.mut_borrow_loc + other.mut_borrow_loc,
            imm_borrow_field: self.imm_borrow_field + other.imm_borrow_field,
            mut_borrow_field: self.mut_borrow_field + other.mut_borrow_field,
            imm_borrow_global: self.imm_borrow_global + other.imm_borrow_global,
            mut_borrow_global: self.mut_borrow_global + other.mut_borrow_global,
            freeze: self.freeze + other.freeze,
            total_instructions: self.total_instructions + other.total_instructions,
            reference_parameters: self.reference_parameters + other.reference_parameters,
            reference_return_values: self.reference_return_values + other.reference_return_values,
            acquires_annotations: self.acquires_annotations + other.acquires_annotations,
            total_functions: self.total_functions + other.total_functions,
            functions_with_reference_operations: self.functions_with_reference_operations
                + other.functions_with_reference_operations,
            functions_with_reference_signatures: self.functions_with_reference_signatures
                + other.functions_with_reference_signatures,
            functions_with_acquires: self.functions_with_acquires + other.functions_with_acquires,
            total_modules: self.total_modules + other.total_modules,
            modules_with_acquires: self.modules_with_acquires + other.modules_with_acquires,
        }
    }

    /// Field-wise comparison: `self` is at most `other` in every counter.
    pub open spec fn le(self, other: CountsView) -> bool {
        &&& self.imm_borrow_loc <= other.imm_borrow_loc
        &&& self.mut_borrow_loc <= other.mut_borrow_loc
        &&& self.imm_borrow_field <= other.imm_borrow_field
        &&& self.mut_borrow_field <= other.mut_borrow_field
        &&& self.imm_borrow_global <= other.imm_borrow_global
        &&& self.mut_borrow_global <= other.mut_borrow_global
        &&& self.freeze <= other.freeze
        &&& self.total_instructions <= other.total_instructions
        &&& self.reference_parameters <= other.reference_parameters
        &&& self.reference_return_values <= other.reference_return_values
        &&& self.acquires_annotations <= other.acquires_annotations
        &&& self.total_functions <= other.total_functions
        &&& self.functions_with_reference_operations <= other.functions_with_reference_operations
        &&& self.functions_with_reference_signatures <= other.functions_with_reference_signatures
        &&& self.functions_with_acquires <= other.functions_with_acquires
        &&& self.total_modules <= other.total_modules
        &&& self.modules_with_acquires <= other.modules_with_acquires
    }

    /// The sum of the seven reference-operation counters (borrow of local,
    /// field and global resource, each immutable and mutable, plus freeze).
    pub open spec fn ref_ops_total(self) -> nat {
        self.imm_borrow_loc + self.mut_borrow_loc + self.imm_borrow_field + self.mut_borrow_field
            + self.imm_borrow_global + self.mut_borrow_global + self.freeze
    }

    /// Adding the delta `other` on top of `self` stays within machine bounds:
    /// every counter fits in a `usize`, and so does the sum of the seven
    /// reference-operation counters (which the walkers read as one total).
    pub open spec fn fits(self, other: CountsView) -> bool {
        &&& self.imm_borrow_loc + other.imm_borrow_loc <= usize::MAX
        &&& self.mut_borrow_loc + other.mut_borrow_loc <= usize::MAX
        &&& self.imm_borrow_field + other.imm_borrow_field <= usize::MAX
        &&& self.mut_borrow_field + other.mut_borrow_field <= usize::MAX
        &&& self.imm_borrow_global + other.imm_borrow_global <= usize::MAX
        &&& self.mut_borrow_global + other.mut_borrow_global <= usize::MAX
        &&& self.freeze + other.freeze <= usize::MAX
        &&& self.total_instructions + other.total_instructions <= usize::MAX
        &&& self.reference_parameters + other.reference_parameters <= usize::MAX
        &&& self.reference_return_values + other.reference_return_values <= usize::MAX
        &&& self.acquires_annotations + other.acquires_annotations <= usize::MAX
        &&& self.total_functions + other.total_functions <= usize::MAX
        &&& self.functions_with_reference_operations
            + other.functions_with_reference_operations <= usize::MAX
        &&& self.functions_with_reference_signatures
            + other.functions_with_reference_signatures <= usize::MAX
        &&& self.functions_with_acquires + other.functions_with_acquires <= usize::MAX
        &&& self.total_modules + other.total_modules <= usize::MAX
        &&& self.modules_with_acquires + other.modules_with_acquires <= usize::MAX
        &&& self.ref_ops_total() + other.ref_ops_total() <= usize::MAX
    }
}

/// `zero` is the identity of `add`.
pub proof fn lemma_add_zero(a: CountsView)
    ensures
        a.add(CountsView::zero()) == a,
        CountsView::zero().add(a) == a,
{
    assert(a.add(CountsView::zero()) =~= a);
    assert(CountsView::zero().add(a) =~= a);
}

/// A combined delta fits on `c` exactly when its second half fits once the
/// first half has been absorbed.
pub proof fn lemma_fits_split(c: CountsView, a: CountsView, b: CountsView)
    ensures
        c.fits(a.add(b)) <==> c.add(a).fits(b),
{
}

/// A delta below one that fits also fits.
pub proof fn lemma_fits_le(c: CountsView, d1: CountsView, d2: CountsView)
    requires
        d1.le(d2),
        c.fits(d2),
    ensures
        c.fits(d1),
{
}

impl Default for Counts {
    /// A fresh accumulator with every counter zero.
    fn default() -> (c: Counts)
        ensures
            c@ == CountsView::zero(),
    {
        Counts {
            imm_borrow_loc: 0,
            mut_borrow_loc: 0,
            imm_borrow_field: 0,
            mut_borrow_field: 0,
            imm_borrow_global: 0,
            mut_borrow_global: 0,
            freeze: 0,
            total_instructions: 0,
            reference_parameters: 0,
            reference_return_values: 0,
            acquires_annotations: 0,
            total_functions: 0,
            functions_with_reference_operations: 0,
            functions_with_reference_signatures: 0,
            functions_with_acquires: 0,
            total_modules: 0,
            modules_with_acquires: 0,
        }
    }
}

impl Counts {
    /// The running sum of the seven reference-operation counters.  The
    /// instruction-stream and module walkers read this total before and
    /// after a walk to decide whether anything reference-related was seen.
    pub fn total_reference_operations(&self) -> (r: usize)
        requires
            self@.ref_ops_total() <= usize::MAX,
        ensures
            r == self@.ref_ops_total(),
    {
        self.imm_borrow_loc + self.mut_borrow_loc + self.imm_borrow_field + self.mut_borrow_field
            + self.imm_borrow_global + self.mut_borrow_global + self.freeze
    }
}

} // verus!
