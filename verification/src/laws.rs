//! Laws of the analysis: bounds that every gathered statistic obeys, the
//! partition of the instruction total, and order-independence of the walk.
//!
//! Each law is stated over the model's deltas, so together with the walkers'
//! contracts it holds of every accumulator an analysis run produces.

use vstd::prelude::*;

use crate::counts::CountsView;
use crate::model::code_delta;
use crate::model::corpus_delta;
use crate::model::has_acquiring_def;
use crate::model::lemma_code_delta_shape;
use crate::model::lemma_defs_delta_permutation;
use crate::model::lemma_defs_delta_shape;
use crate::model::module_delta;
use crate::model::non_reference_count;
use crate::model::script_delta;
use crate::model::stream_delta;
use crate::model::unit_delta;
use crate::units::Bytecode;
use crate::units::CompiledModule;
use crate::units::CompiledScript;
use crate::units::CompiledUnit;
use crate::units::FunctionDefinition;
use crate::units::FunctionHandle;
use crate::units::Signature;

verus! {

/// The bounds every per-run statistic obeys: each "functions with X" counter
/// is at most the function total, "modules with acquires" is at most the
/// module total, and the reference operations are at most the instructions.
pub open spec fn classification_bounded(c: CountsView) -> bool {
    &&& c.functions_with_reference_operations <= c.total_functions
    &&& c.functions_with_reference_signatures <= c.total_functions
    &&& c.functions_with_acquires <= c.total_functions
    &&& c.modules_with_acquires <= c.total_modules
    &&& c.ref_ops_total() <= c.total_instructions
}

/// The bounds are preserved by merging two partial results.
pub proof fn lemma_classification_bounded_add(a: CountsView, b: CountsView)
    requires
        classification_bounded(a),
        classification_bounded(b),
    ensures
        classification_bounded(a.add(b)),
{
}

/// One function definition keeps the bounds: it contributes one function,
/// at most one to each "functions with X" counter, nothing to the module
/// counters, and no more reference operations than instructions.
proof fn lemma_def_delta_bounded(
    handles: Seq<FunctionHandle>,
    pool: Seq<Signature>,
    d: FunctionDefinition,
)
    ensures
        classification_bounded(crate::model::def_delta(handles, pool, d)),
{
    match d.code {
        Option::Some(code) => lemma_code_delta_shape(code@),
        Option::None => {},
    }
}

/// All function definitions of a module together keep the bounds.
proof fn lemma_defs_delta_bounded(
    handles: Seq<FunctionHandle>,
    pool: Seq<Signature>,
    defs: Seq<FunctionDefinition>,
)
    ensures
        classification_bounded(crate::model::defs_delta(handles, pool, defs)),
    decreases defs.len(),
{
    if defs.len() > 0 {
        lemma_defs_delta_bounded(handles, pool, defs.drop_last());
        lemma_def_delta_bounded(handles, pool, defs.last());
        lemma_classification_bounded_add(
            crate::model::defs_delta(handles, pool, defs.drop_last()),
            crate::model::def_delta(handles, pool, defs.last()),
        );
    }
}

/// One unit keeps the bounds: a module contributes one module and is counted
/// as acquiring at most once; a script contributes no module at all.
pub proof fn lemma_unit_delta_bounded(u: CompiledUnit)
    ensures
        classification_bounded(unit_delta(u)),
{
    match u {
        CompiledUnit::Module(m) => {
            lemma_defs_delta_bounded(m.function_handles@, m.signatures@, m.function_defs@);
            lemma_defs_delta_shape(m.function_handles@, m.signatures@, m.function_defs@);
        },
        CompiledUnit::Script(s) => {
            lemma_code_delta_shape(s.code@);
        },
    }
}

/// For any corpus, `functions_with_reference_operations`,
/// `functions_with_reference_signatures` and `functions_with_acquires` are
/// each at most `total_functions`; `modules_with_acquires` is at most
/// `total_modules`; and the reference-operation total is at most
/// `total_instructions`.
pub proof fn lemma_corpus_classification_bounds(units: Seq<CompiledUnit>)
    ensures
        classification_bounded(corpus_delta(units)),
    decreases units.len(),
{
    if units.len() > 0 {
        lemma_corpus_classification_bounds(units.drop_last());
        lemma_unit_delta_bounded(units.last());
        lemma_classification_bounded_add(
            corpus_delta(units.drop_last()),
            unit_delta(units.last()),
        );
    }
}

/// A script never contributes to `total_modules` or `modules_with_acquires`:
/// scripts are not modules, and by construction they declare no acquires.
pub proof fn lemma_script_counts_no_modules(s: CompiledScript)
    ensures
        script_delta(s).total_modules == 0,
        script_delta(s).modules_with_acquires == 0,
        script_delta(s).acquires_annotations == 0,
        script_delta(s).functions_with_acquires == 0,
{
    lemma_code_delta_shape(s.code@);
}

/// For any instruction stream, the instruction total is exactly the
/// reference-operation total plus the number of non-reference instructions:
/// classification selects exactly one bucket per instruction and never
/// double-counts.
pub proof fn lemma_instruction_total_partition(code: Seq<Bytecode>)
    ensures
        code_delta(code).total_instructions == code_delta(code).ref_ops_total()
            + non_reference_count(code),
        stream_delta(code).total_instructions == stream_delta(code).ref_ops_total()
            + non_reference_count(code),
{
    lemma_code_delta_shape(code);
}

/// Permuting the function definitions of a module (with its handle and
/// signature pools unchanged) does not change any counter of its delta.
pub proof fn lemma_module_order_independent(m1: CompiledModule, m2: CompiledModule)
    requires
        m1.function_handles@ == m2.function_handles@,
        m1.signatures@ == m2.signatures@,
        m1.function_defs@.to_multiset() == m2.function_defs@.to_multiset(),
    ensures
        module_delta(m1) == module_delta(m2),
{
    broadcast use vstd::seq_lib::group_to_multiset_ensures;

    lemma_defs_delta_permutation(
        m1.function_handles@,
        m1.signatures@,
        m1.function_defs@,
        m2.function_defs@,
    );
    if has_acquiring_def(m1.function_defs@) {
        let k = choose|k: int|
            0 <= k < m1.function_defs@.len()
                && m1.function_defs@[k].acquires_global_resources@.len() > 0;
        assert(m1.function_defs@.contains(m1.function_defs@[k]));
        assert(m1.function_defs@.to_multiset().count(m1.function_defs@[k]) > 0);
        assert(m2.function_defs@.to_multiset().count(m1.function_defs@[k]) > 0);
        assert(m2.function_defs@.contains(m1.function_defs@[k]));
        assert(has_acquiring_def(m2.function_defs@));
    }
    if has_acquiring_def(m2.function_defs@) {
        let k = choose|k: int|
            0 <= k < m2.function_defs@.len()
                && m2.function_defs@[k].acquires_global_resources@.len() > 0;
        assert(m2.function_defs@.contains(m2.function_defs@[k]));
        assert(m2.function_defs@.to_multiset().count(m2.function_defs@[k]) > 0);
        assert(m1.function_defs@.to_multiset().count(m2.function_defs@[k]) > 0);
        assert(m1.function_defs@.contains(m2.function_defs@[k]));
        assert(has_acquiring_def(m1.function_defs@));
    }
}

} // verus!
