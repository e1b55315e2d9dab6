//! The mathematical model of the analysis.
//!
//! Every walk over a unit changes the accumulator by a *delta*: a
//! [`CountsView`] added field-wise onto the running total.  This module
//! defines the delta of one instruction, of an instruction stream, of one
//! function signature, of one function definition, of a module, of a script,
//! and of a whole corpus, together with the structural lemmas the verified
//! walkers and the public laws rest on.

use vstd::prelude::*;

use crate::counts::CountsView;
use crate::units::Bytecode;
use crate::units::CompiledModule;
use crate::units::CompiledScript;
use crate::units::CompiledUnit;
use crate::units::FunctionDefinition;
use crate::units::FunctionHandle;
use crate::units::Signature;
use crate::units::SignatureToken;

verus! {

/// Every instruction kind except `Other` is a reference operation.
pub open spec fn is_reference_instruction(i: Bytecode) -> bool {
    i != Bytecode::Other
}

/// A type token is reference-bearing when it is a reference or a mutable
/// reference.
pub open spec fn is_reference_token(t: SignatureToken) -> bool {
    t == SignatureToken::Reference || t == SignatureToken::MutableReference
}

/// The effect of classifying one instruction: the instruction total grows by
/// one, and exactly one of the seven reference-operation counters grows by
/// one if the instruction is one of the tracked kinds (the generic borrow
/// variants count the same as their non-generic siblings).
pub open spec fn instr_delta(i: Bytecode) -> CountsView {
    CountsView {
        imm_borrow_loc: if i == Bytecode::ImmBorrowLoc {
            1 as nat
        } else {
            0
        },
        mut_borrow_loc: if i == Bytecode::MutBorrowLoc {
            1 as nat
        } else {
            0
        },
        imm_borrow_field: if i == Bytecode::ImmBorrowField || i == Bytecode::ImmBorrowFieldGeneric {
            1 as nat
        } else {
            0
        },
        mut_borrow_field: if i == Bytecode::MutBorrowField || i == Bytecode::MutBorrowFieldGeneric {
            1 as nat
        } else {
            0
        },
        imm_borrow_global: if i == Bytecode::ImmBorrowGlobal || i
            == Bytecode::ImmBorrowGlobalGeneric {
            1 as nat
        } else {
            0
        },
        mut_borrow_global: if i == Bytecode::MutBorrowGlobal || i
            == Bytecode::MutBorrowGlobalGeneric {
            1 as nat
        } else {
            0
        },
        freeze: if i == Bytecode::FreezeRef {
            1 as nat
        } else {
            0
        },
        total_instructions: 1,
        reference_parameters: 0,
        reference_return_values: 0,
        acquires_annotations: 0,
        total_functions: 0,
        functions_with_reference_operations: 0,
        functions_with_reference_signatures: 0,
        functions_with_acquires: 0,
        total_modules: 0,
        modules_with_acquires: 0,
    }
}

/// The combined effect of classifying every instruction of a stream, in
/// order, without the per-function classification bump.
pub open spec fn code_delta(code: Seq<Bytecode>) -> CountsView
    decreases code.len(),
{
    if code.len() == 0 {
        CountsView::zero()
    } else {
        code_delta(code.drop_last()).add(instr_delta(code.last()))
    }
}

/// The stream holds at least one reference operation.
pub open spec fn has_reference_instruction(code: Seq<Bytecode>) -> bool {
    exists|k: int| 0 <= k < code.len() && is_reference_instruction(code[k])
}

/// The number of instructions of the stream that are not reference
/// operations.
pub open spec fn non_reference_count(code: Seq<Bytecode>) -> nat
    decreases code.len(),
{
    if code.len() == 0 {
        0
    } else {
        non_reference_count(code.drop_last()) + if is_reference_instruction(code.last()) {
            0 as nat
        } else {
            1
        }
    }
}

/// The effect of walking one function body: every instruction is classified,
/// and the function is counted as reference-operating exactly when its body
/// holds at least one reference operation.
pub open spec fn stream_delta(code: Seq<Bytecode>) -> CountsView {
    code_delta(code).add(
        CountsView {
            functions_with_reference_operations: if has_reference_instruction(code) {
                1 as nat
            } else {
                0
            },
            ..CountsView::zero()
        },
    )
}

/// The number of reference-bearing tokens of a signature.
pub open spec fn reference_token_count(tokens: Seq<SignatureToken>) -> nat
    decreases tokens.len(),
{
    if tokens.len() == 0 {
        0
    } else {
        reference_token_count(tokens.drop_last()) + if is_reference_token(tokens.last()) {
            1 as nat
        } else {
            0
        }
    }
}

/// The signature holds at least one reference-bearing token.
pub open spec fn has_reference_token(tokens: Seq<SignatureToken>) -> bool {
    exists|k: int| 0 <= k < tokens.len() && is_reference_token(tokens[k])
}

/// The effect of classifying one function signature: the function total grows
/// by one; every reference-bearing parameter and return token is counted; the
/// function is counted once as reference-signed when any such token exists,
/// and once as acquiring when its acquire list is non-empty, whose length is
/// added to the annotation total.
pub open spec fn sig_delta(
    params: Seq<SignatureToken>,
    rets: Seq<SignatureToken>,
    acquires_len: nat,
) -> CountsView {
    CountsView {
        imm_borrow_loc: 0,
        mut_borrow_loc: 0,
        imm_borrow_field: 0,
        mut_borrow_field: 0,
        imm_borrow_global: 0,
        mut_borrow_global: 0,
        freeze: 0,
        total_instructions: 0,
        reference_parameters: reference_token_count(params),
        reference_return_values: reference_token_count(rets),
        acquires_annotations: acquires_len,
        total_functions: 1,
        functions_with_reference_operations: 0,
        functions_with_reference_signatures: if has_reference_token(params)
            || has_reference_token(rets) {
            1 as nat
        } else {
            0
        },
        functions_with_acquires: if acquires_len > 0 {
            1 as nat
        } else {
            0
        },
        total_modules: 0,
        modules_with_acquires: 0,
    }
}

/// The effect of one function definition of a module: its handle is resolved
/// to the parameter and return signatures, the signature is classified, and
/// the body, when present, is walked.
pub open spec fn def_delta(
    handles: Seq<FunctionHandle>,
    pool: Seq<Signature>,
    d: FunctionDefinition,
) -> CountsView {
    sig_delta(
        pool[handles[d.function as int].parameters as int].0@,
        pool[handles[d.function as int].return_ as int].0@,
        d.acquires_global_resources@.len(),
    ).add(
        match d.code {
            Option::Some(code) => stream_delta(code@),
            Option::None => CountsView::zero(),
        },
    )
}

/// The combined effect of all function definitions of a module, in order.
pub open spec fn defs_delta(
    handles: Seq<FunctionHandle>,
    pool: Seq<Signature>,
    defs: Seq<FunctionDefinition>,
) -> CountsView
    decreases defs.len(),
{
    if defs.len() == 0 {
        CountsView::zero()
    } else {
        defs_delta(handles, pool, defs.drop_last()).add(def_delta(handles, pool, defs.last()))
    }
}

/// Some function definition of the sequence declares at least one acquire.
pub open spec fn has_acquiring_def(defs: Seq<FunctionDefinition>) -> bool {
    exists|k: int| 0 <= k < defs.len() && defs[k].acquires_global_resources@.len() > 0
}

/// The effect of walking one module: the module total grows by one, every
/// function definition is processed, and the module is counted as acquiring
/// exactly when some of its functions declares an acquire.
pub open spec fn module_delta(m: CompiledModule) -> CountsView {
    CountsView { total_modules: 1, ..CountsView::zero() }.add(
        defs_delta(m.function_handles@, m.signatures@, m.function_defs@),
    ).add(
        CountsView {
            modules_with_acquires: if has_acquiring_def(m.function_defs@) {
                1 as nat
            } else {
                0
            },
            ..CountsView::zero()
        },
    )
}

/// The effect of walking one script: its single signature is classified with
/// no return tokens and no acquires, and its body is walked.  A script never
/// touches the module counters.
pub open spec fn script_delta(s: CompiledScript) -> CountsView {
    sig_delta(s.signatures@[s.parameters as int].0@, Seq::empty(), 0).add(stream_delta(s.code@))
}

/// The effect of one compiled unit.
pub open spec fn unit_delta(u: CompiledUnit) -> CountsView {
    match u {
        CompiledUnit::Module(m) => module_delta(m),
        CompiledUnit::Script(s) => script_delta(s),
    }
}

/// The statistics of a whole corpus: the sum of every unit's delta, starting
/// from the empty accumulator.
pub open spec fn corpus_delta(units: Seq<CompiledUnit>) -> CountsView
    decreases units.len(),
{
    if units.len() == 0 {
        CountsView::zero()
    } else {
        corpus_delta(units.drop_last()).add(unit_delta(units.last()))
    }
}

/// The delta of one instruction touches exactly one reference-operation
/// counter when the instruction is a reference operation, and none otherwise.
pub proof fn lemma_instr_delta_ref_ops(i: Bytecode)
    ensures
        instr_delta(i).ref_ops_total() == if is_reference_instruction(i) {
            1 as nat
        } else {
            0
        },
{
}

/// Extending a walked prefix by one instruction adds that instruction's
/// delta.
pub proof fn lemma_code_delta_take_unfold(code: Seq<Bytecode>, i: int)
    requires
        0 <= i < code.len(),
    ensures
        code_delta(code.take(i + 1)) == code_delta(code.take(i)).add(instr_delta(code[i])),
{
    assert(code.take(i + 1).drop_last() =~= code.take(i));
    assert(code.take(i + 1).last() == code[i]);
}

/// The delta of a prefix never exceeds the delta of the whole stream.
pub proof fn lemma_code_delta_take_le(code: Seq<Bytecode>, i: int)
    requires
        0 <= i <= code.len(),
    ensures
        code_delta(code.take(i)).le(code_delta(code)),
    decreases code.len() - i,
{
    if i == code.len() {
        assert(code.take(i) =~= code);
    } else {
        lemma_code_delta_take_unfold(code, i);
        lemma_code_delta_take_le(code, i + 1);
    }
}

/// Structure of an instruction-stream delta: it counts every instruction
/// once, its reference operations and its other instructions partition the
/// total, it is positive on the reference-operation counters exactly when
/// the stream holds a reference operation, and it never touches a signature,
/// function or module counter.
pub proof fn lemma_code_delta_shape(code: Seq<Bytecode>)
    ensures
        code_delta(code).total_instructions == code.len(),
        code_delta(code).ref_ops_total() + non_reference_count(code) == code.len(),
        code_delta(code).ref_ops_total() > 0 <==> has_reference_instruction(code),
        code_delta(code).reference_parameters == 0,
        code_delta(code).reference_return_values == 0,
        code_delta(code).acquires_annotations == 0,
        code_delta(code).total_functions == 0,
        code_delta(code).functions_with_reference_operations == 0,
        code_delta(code).functions_with_reference_signatures == 0,
        code_delta(code).functions_with_acquires == 0,
        code_delta(code).total_modules == 0,
        code_delta(code).modules_with_acquires == 0,
    decreases code.len(),
{
    if code.len() > 0 {
        let prev = code.drop_last();
        lemma_code_delta_shape(prev);
        lemma_instr_delta_ref_ops(code.last());
        if has_reference_instruction(prev) {
            let k = choose|k: int| 0 <= k < prev.len() && is_reference_instruction(prev[k]);
            assert(is_reference_instruction(code[k]));
        }
        if has_reference_instruction(code) && !is_reference_instruction(code.last()) {
            let k = choose|k: int| 0 <= k < code.len() && is_reference_instruction(code[k]);
            assert(k < prev.len() && is_reference_instruction(prev[k]));
        }
    }
}

/// Extending a classified prefix of a signature by one token adds that
/// token's contribution.
pub proof fn lemma_reference_token_count_take_unfold(tokens: Seq<SignatureToken>, i: int)
    requires
        0 <= i < tokens.len(),
    ensures
        reference_token_count(tokens.take(i + 1)) == reference_token_count(tokens.take(i))
            + if is_reference_token(tokens[i]) {
            1 as nat
        } else {
            0
        },
{
    assert(tokens.take(i + 1).drop_last() =~= tokens.take(i));
    assert(tokens.take(i + 1).last() == tokens[i]);
}

/// The reference tokens of a prefix never exceed those of the whole
/// signature.
pub proof fn lemma_reference_token_count_take_le(tokens: Seq<SignatureToken>, i: int)
    requires
        0 <= i <= tokens.len(),
    ensures
        reference_token_count(tokens.take(i)) <= reference_token_count(tokens),
    decreases tokens.len() - i,
{
    if i == tokens.len() {
        assert(tokens.take(i) =~= tokens);
    } else {
        lemma_reference_token_count_take_unfold(tokens, i);
        lemma_reference_token_count_take_le(tokens, i + 1);
    }
}

/// Structure of one function definition's delta: it counts one function, its
/// acquire annotations are exactly the definition's acquire list length, and
/// it never touches a module counter.
pub proof fn lemma_def_delta_shape(
    handles: Seq<FunctionHandle>,
    pool: Seq<Signature>,
    d: FunctionDefinition,
)
    ensures
        def_delta(handles, pool, d).total_functions == 1,
        def_delta(handles, pool, d).acquires_annotations == d.acquires_global_resources@.len(),
        def_delta(handles, pool, d).total_modules == 0,
        def_delta(handles, pool, d).modules_with_acquires == 0,
{
    match d.code {
        Option::Some(code) => lemma_code_delta_shape(code@),
        Option::None => {},
    }
}

/// Extending a walked prefix of a module's definitions by one adds that
/// definition's delta.
pub proof fn lemma_defs_delta_take_unfold(
    handles: Seq<FunctionHandle>,
    pool: Seq<Signature>,
    defs: Seq<FunctionDefinition>,
    i: int,
)
    requires
        0 <= i < defs.len(),
    ensures
        defs_delta(handles, pool, defs.take(i + 1)) == defs_delta(
            handles,
            pool,
            defs.take(i),
        ).add(def_delta(handles, pool, defs[i])),
{
    assert(defs.take(i + 1).drop_last() =~= defs.take(i));
    assert(defs.take(i + 1).last() == defs[i]);
}

/// The delta of a prefix of the definitions never exceeds the delta of all
/// of them.
pub proof fn lemma_defs_delta_take_le(
    handles: Seq<FunctionHandle>,
    pool: Seq<Signature>,
    defs: Seq<FunctionDefinition>,
    i: int,
)
    requires
        0 <= i <= defs.len(),
    ensures
        defs_delta(handles, pool, defs.take(i)).le(defs_delta(handles, pool, defs)),
    decreases defs.len() - i,
{
    if i == defs.len() {
        assert(defs.take(i) =~= defs);
    } else {
        lemma_defs_delta_take_unfold(handles, pool, defs, i);
        lemma_defs_delta_take_le(handles, pool, defs, i + 1);
    }
}

/// Structure of a module's definitions delta: it counts every definition as
/// one function, its acquire annotations are positive exactly when some
/// definition declares an acquire, and it never touches a module counter.
pub proof fn lemma_defs_delta_shape(
    handles: Seq<FunctionHandle>,
    pool: Seq<Signature>,
    defs: Seq<FunctionDefinition>,
)
    ensures
        defs_delta(handles, pool, defs).total_functions == defs.len(),
        defs_delta(handles, pool, defs).acquires_annotations > 0 <==> has_acquiring_def(defs),
        defs_delta(handles, pool, defs).total_modules == 0,
        defs_delta(handles, pool, defs).modules_with_acquires == 0,
    decreases defs.len(),
{
    if defs.len() > 0 {
        let prev = defs.drop_last();
        lemma_defs_delta_shape(handles, pool, prev);
        lemma_def_delta_shape(handles, pool, defs.last());
        if has_acquiring_def(prev) {
            let k = choose|k: int|
                0 <= k < prev.len() && prev[k].acquires_global_resources@.len() > 0;
            assert(defs[k].acquires_global_resources@.len() > 0);
        }
        if has_acquiring_def(defs) && defs.last().acquires_global_resources@.len() == 0 {
            let k = choose|k: int|
                0 <= k < defs.len() && defs[k].acquires_global_resources@.len() > 0;
            assert(k < prev.len() && prev[k].acquires_global_resources@.len() > 0);
        }
    }
}

/// Taking one definition out of a sequence takes exactly its delta out of
/// the sum, wherever it stands.
pub proof fn lemma_defs_delta_remove(
    handles: Seq<FunctionHandle>,
    pool: Seq<Signature>,
    defs: Seq<FunctionDefinition>,
    i: int,
)
    requires
        0 <= i < defs.len(),
    ensures
        defs_delta(handles, pool, defs) == defs_delta(handles, pool, defs.remove(i)).add(
            def_delta(handles, pool, defs[i]),
        ),
    decreases defs.len(),
{
    if i == defs.len() - 1 {
        assert(defs.remove(i) =~= defs.drop_last());
    } else {
        let prev = defs.drop_last();
        lemma_defs_delta_remove(handles, pool, prev, i);
        assert(defs.remove(i).drop_last() =~= prev.remove(i));
        assert(defs.remove(i).last() == defs.last());
        let x = defs_delta(handles, pool, prev.remove(i));
        let a = def_delta(handles, pool, defs[i]);
        let b = def_delta(handles, pool, defs.last());
        assert(x.add(a).add(b) =~= x.add(b).add(a));
    }
}

/// Reordering the function definitions of a module does not change their
/// combined delta.
pub proof fn lemma_defs_delta_permutation(
    handles: Seq<FunctionHandle>,
    pool: Seq<Signature>,
    defs1: Seq<FunctionDefinition>,
    defs2: Seq<FunctionDefinition>,
)
    requires
        defs1.to_multiset() == defs2.to_multiset(),
    ensures
        defs_delta(handles, pool, defs1) == defs_delta(handles, pool, defs2),
    decreases defs2.len(),
{
    broadcast use vstd::seq_lib::group_to_multiset_ensures;
    broadcast use vstd::multiset::group_multiset_axioms;

    if defs2.len() == 0 {
        assert(defs2.to_multiset().len() == 0);
        assert(defs1.to_multiset().len() == defs1.len());
        assert(defs1.len() == 0);
    } else {
        let x = defs2.last();
        let prev2 = defs2.drop_last();
        assert(defs2 =~= prev2.push(x));
        assert(defs1.to_multiset().count(x) > 0);
        assert(defs1.contains(x));
        let i = choose|i: int| 0 <= i < defs1.len() && defs1[i] == x;
        assert(defs1.remove(i).to_multiset() =~= prev2.to_multiset());
        lemma_defs_delta_permutation(handles, pool, defs1.remove(i), prev2);
        lemma_defs_delta_remove(handles, pool, defs1, i);
    }
}

/// Taking one unit out of a corpus takes exactly its delta out of the sum,
/// wherever it stands.
pub proof fn lemma_corpus_delta_remove(units: Seq<CompiledUnit>, i: int)
    requires
        0 <= i < units.len(),
    ensures
        corpus_delta(units) == corpus_delta(units.remove(i)).add(unit_delta(units[i])),
    decreases units.len(),
{
    if i == units.len() - 1 {
        assert(units.remove(i) =~= units.drop_last());
    } else {
        let prev = units.drop_last();
        lemma_corpus_delta_remove(prev, i);
        assert(units.remove(i).drop_last() =~= prev.remove(i));
        assert(units.remove(i).last() == units.last());
        let x = corpus_delta(prev.remove(i));
        let a = unit_delta(units[i]);
        let b = unit_delta(units.last());
        assert(x.add(a).add(b) =~= x.add(b).add(a));
    }
}

/// Reordering the units of a corpus does not change its delta.
pub proof fn lemma_corpus_delta_permutation(units1: Seq<CompiledUnit>, units2: Seq<CompiledUnit>)
    requires
        units1.to_multiset() == units2.to_multiset(),
    ensures
        corpus_delta(units1) == corpus_delta(units2),
    decreases units2.len(),
{
    broadcast use vstd::seq_lib::group_to_multiset_ensures;
    broadcast use vstd::multiset::group_multiset_axioms;

    if units2.len() == 0 {
        assert(units2.to_multiset().len() == 0);
        assert(units1.to_multiset().len() == units1.len());
        assert(units1.len() == 0);
    } else {
        let x = units2.last();
        let prev2 = units2.drop_last();
        assert(units2 =~= prev2.push(x));
        assert(units1.to_multiset().count(x) > 0);
        assert(units1.contains(x));
        let i = choose|i: int| 0 <= i < units1.len() && units1[i] == x;
        assert(units1.remove(i).to_multiset() =~= prev2.to_multiset());
        lemma_corpus_delta_permutation(units1.remove(i), prev2);
        lemma_corpus_delta_remove(units1, i);
    }
}

/// Extending a walked prefix of the corpus by one unit adds that unit's
/// delta.
pub proof fn lemma_corpus_delta_take_unfold(units: Seq<CompiledUnit>, i: int)
    requires
        0 <= i < units.len(),
    ensures
        corpus_delta(units.take(i + 1)) == corpus_delta(units.take(i)).add(unit_delta(units[i])),
{
    assert(units.take(i + 1).drop_last() =~= units.take(i));
    assert(units.take(i + 1).last() == units[i]);
}

/// The delta of a prefix of the corpus never exceeds the delta of the whole
/// corpus.
pub proof fn lemma_corpus_delta_take_le(units: Seq<CompiledUnit>, i: int)
    requires
        0 <= i <= units.len(),
    ensures
        corpus_delta(units.take(i)).le(corpus_delta(units)),
    decreases units.len() - i,
{
    if i == units.len() {
        assert(units.take(i) =~= units);
    } else {
        lemma_corpus_delta_take_unfold(units, i);
        lemma_corpus_delta_take_le(units, i + 1);
    }
}

} // verus!
