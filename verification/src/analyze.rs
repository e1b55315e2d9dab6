//! The verified walkers: classifiers for instructions and signatures, the
//! instruction-stream walker, the per-unit walkers, and the corpus driver.
//!
//! Each walker mutates a shared [`Counts`] accumulator and is proved to add
//! exactly the delta that the model in [`crate::model`] assigns to its input.

use vstd::prelude::*;

use crate::counts::lemma_add_zero;
use crate::counts::lemma_fits_le;
use crate::counts::lemma_fits_split;
use crate::counts::Counts;
use crate::counts::CountsView;
use crate::model::code_delta;
use crate::model::corpus_delta;
use crate::model::def_delta;
use crate::model::defs_delta;
use crate::model::has_acquiring_def;
use crate::model::has_reference_instruction;
use crate::model::has_reference_token;
use crate::model::instr_delta;
use crate::model::lemma_code_delta_shape;
use crate::model::lemma_code_delta_take_le;
use crate::model::lemma_code_delta_take_unfold;
use crate::model::lemma_corpus_delta_take_le;
use crate::model::lemma_corpus_delta_take_unfold;
use crate::model::lemma_defs_delta_shape;
use crate::model::lemma_defs_delta_take_le;
use crate::model::lemma_defs_delta_take_unfold;
use crate::model::lemma_reference_token_count_take_le;
use crate::model::lemma_reference_token_count_take_unfold;
use crate::model::module_delta;
use crate::model::reference_token_count;
use crate::model::script_delta;
use crate::model::sig_delta;
use crate::model::stream_delta;
use crate::model::unit_delta;
use crate::units::Bytecode;
use crate::units::CompiledModule;
use crate::units::CompiledScript;
use crate::units::CompiledUnit;
use crate::units::SignatureToken;

verus! {

/// Classifies one instruction: the instruction total always grows by one,
/// and exactly one of the seven reference-operation counters grows by one
/// when the instruction is one of the tracked kinds.
pub fn count_instruction(counts: &mut Counts, instr: &Bytecode)
    requires
        old(counts)@.fits(instr_delta(*instr)),
    ensures
        final(counts)@ == old(counts)@.add(instr_delta(*instr)),
{
    counts.total_instructions = counts.total_instructions + 1;
    match instr {
        Bytecode::ImmBorrowLoc => {
            counts.imm_borrow_loc = counts.imm_borrow_loc + 1;
        },
        Bytecode::MutBorrowLoc => {
            counts.mut_borrow_loc = counts.mut_borrow_loc + 1;
        },
        Bytecode::ImmBorrowField | Bytecode::ImmBorrowFieldGeneric => {
            counts.imm_borrow_field = counts.imm_borrow_field + 1;
        },
        Bytecode::MutBorrowField | Bytecode::MutBorrowFieldGeneric => {
            counts.mut_borrow_field = counts.mut_borrow_field + 1;
        },
        Bytecode::ImmBorrowGlobal | Bytecode::ImmBorrowGlobalGeneric => {
            counts.imm_borrow_global = counts.imm_borrow_global + 1;
        },
        Bytecode::MutBorrowGlobal | Bytecode::MutBorrowGlobalGeneric => {
            counts.mut_borrow_global = counts.mut_borrow_global + 1;
        },
        Bytecode::FreezeRef => {
            counts.freeze = counts.freeze + 1;
        },
        Bytecode::Other => {},
    }
    assert(counts@ =~= old(counts)@.add(instr_delta(*instr)));
}

/// Walks one function body: classifies every instruction in sequence order,
/// then counts the function as reference-operating exactly when the walk
/// raised the reference-operation total, that is, when the body holds at
/// least one reference operation.
pub fn count_instructions(counts: &mut Counts, code: &Vec<Bytecode>)
    requires
        old(counts)@.fits(stream_delta(code@)),
    ensures
        final(counts)@ == old(counts)@.add(stream_delta(code@)),
{
    let ghost c0 = counts@;
    proof {
        lemma_code_delta_shape(code@);
    }
    let before_reference_instruction = counts.total_reference_operations();
    let n = code.len();
    for i in 0..n
        invariant
            n == code@.len(),
            counts@ == c0.add(code_delta(code@.take(i as int))),
            c0.fits(stream_delta(code@)),
    {
        proof {
            lemma_code_delta_take_unfold(code@, i as int);
            lemma_code_delta_take_le(code@, i as int + 1);
            lemma_fits_le(c0, code_delta(code@.take(i as int + 1)), stream_delta(code@));
            lemma_fits_split(c0, code_delta(code@.take(i as int)), instr_delta(code@[i as int]));
        }
        count_instruction(counts, &code[i]);
    }
    proof {
        assert(code@.take(n as int) =~= code@);
    }
    let after_reference_instruction = counts.total_reference_operations();
    if after_reference_instruction > before_reference_instruction {
        counts.functions_with_reference_operations = counts.functions_with_reference_operations
            + 1;
        assert(counts@ =~= c0.add(stream_delta(code@)));
    } else {
        assert(!has_reference_instruction(code@));
        assert(counts@ =~= c0.add(stream_delta(code@)));
    }
}

/// Classifies one function signature: counts the function, every
/// reference-bearing parameter and return token, whether the signature is
/// reference-bearing at all, and the function's acquire annotations.
pub fn count_function_signature(
    counts: &mut Counts,
    parameters: &Vec<SignatureToken>,
    return_types: &Vec<SignatureToken>,
    acquires: &Vec<usize>,
)
    requires
        old(counts)@.fits(sig_delta(parameters@, return_types@, acquires@.len())),
    ensures
        final(counts)@ == old(counts)@.add(
            sig_delta(parameters@, return_types@, acquires@.len()),
        ),
{
    let ghost c0 = counts@;
    let ghost d = sig_delta(parameters@, return_types@, acquires@.len());
    counts.total_functions = counts.total_functions + 1;
    let mut has_reference = false;
    let np = parameters.len();
    for i in 0..np
        invariant
            np == parameters@.len(),
            counts@ == c0.add(
                (CountsView {
                    total_functions: 1,
                    reference_parameters: reference_token_count(parameters@.take(i as int)),
                    ..CountsView::zero()
                }),
            ),
            has_reference == has_reference_token(parameters@.take(i as int)),
            c0.fits(d),
            d == sig_delta(parameters@, return_types@, acquires@.len()),
    {
        proof {
            lemma_reference_token_count_take_unfold(parameters@, i as int);
            lemma_reference_token_count_take_le(parameters@, i as int + 1);
            assert(parameters@.take(i as int + 1) =~= parameters@.take(i as int).push(
                parameters@[i as int],
            ));
        }
        match parameters[i] {
            SignatureToken::Reference | SignatureToken::MutableReference => {
                has_reference = true;
                counts.reference_parameters = counts.reference_parameters + 1;
            },
            SignatureToken::Other => {},
        }
    }
    proof {
        assert(parameters@.take(np as int) =~= parameters@);
    }
    let nr = return_types.len();
    for j in 0..nr
        invariant
            nr == return_types@.len(),
            counts@ == c0.add(
                (CountsView {
                    total_functions: 1,
                    reference_parameters: reference_token_count(parameters@),
                    reference_return_values: reference_token_count(return_types@.take(j as int)),
                    ..CountsView::zero()
                }),
            ),
            has_reference == (has_reference_token(parameters@) || has_reference_token(
                return_types@.take(j as int),
            )),
            c0.fits(d),
            d == sig_delta(parameters@, return_types@, acquires@.len()),
    {
        proof {
            lemma_reference_token_count_take_unfold(return_types@, j as int);
            lemma_reference_token_count_take_le(return_types@, j as int + 1);
            assert(return_types@.take(j as int + 1) =~= return_types@.take(j as int).push(
                return_types@[j as int],
            ));
        }
        match return_types[j] {
            SignatureToken::Reference | SignatureToken::MutableReference => {
                has_reference = true;
                counts.reference_return_values = counts.reference_return_values + 1;
            },
            SignatureToken::Other => {},
        }
    }
    proof {
        assert(return_types@.take(nr as int) =~= return_types@);
    }
    if has_reference {
        counts.functions_with_reference_signatures = counts.functions_with_reference_signatures
            + 1;
    }
    if !acquires.is_empty() {
        counts.functions_with_acquires = counts.functions_with_acquires + 1;
    }
    counts.acquires_annotations = counts.acquires_annotations + acquires.len();
    assert(counts@ =~= c0.add(d));
}

/// Walks one module: counts the module, resolves every function definition's
/// handle to its parameter and return signatures and classifies it, walks
/// every present body, and counts the module as acquiring exactly when the
/// walk raised the acquire-annotation total, that is, when some of its
/// functions declares an acquire.
#[verifier::rlimit(100)]
pub fn count_module(counts: &mut Counts, module: &CompiledModule)
    requires
        module.wf(),
        old(counts)@.fits(module_delta(*module)),
    ensures
        final(counts)@ == old(counts)@.add(module_delta(*module)),
{
    let ghost c0 = counts@;
    let ghost h = module.function_handles@;
    let ghost p = module.signatures@;
    let ghost ds = module.function_defs@;
    let ghost m1 = (CountsView { total_modules: 1, ..CountsView::zero() });
    counts.total_modules = counts.total_modules + 1;
    assert(counts@ =~= c0.add(m1).add(defs_delta(h, p, ds.take(0))));
    let before_acquires = counts.acquires_annotations;
    let n = module.function_defs.len();
    for i in 0..n
        invariant
            module.wf(),
            n == module.function_defs@.len(),
            h == module.function_handles@,
            p == module.signatures@,
            ds == module.function_defs@,
            m1 == (CountsView { total_modules: 1, ..CountsView::zero() }),
            counts@ == c0.add(m1).add(defs_delta(h, p, ds.take(i as int))),
            before_acquires == c0.acquires_annotations,
            c0.fits(module_delta(*module)),
    {
        let fdef = &module.function_defs[i];
        let fhandle = &module.function_handles[fdef.function];
        let ghost params = p[fhandle.parameters as int].0@;
        let ghost rets = p[fhandle.return_ as int].0@;
        let ghost sd = sig_delta(params, rets, fdef.acquires_global_resources@.len());
        let ghost dd = def_delta(h, p, ds[i as int]);
        proof {
            lemma_defs_delta_take_unfold(h, p, ds, i as int);
            lemma_defs_delta_take_le(h, p, ds, i as int + 1);
            // The definition's delta decomposes into its signature part and,
            // when a body is present, its stream part.
            match ds[i as int].code {
                Option::Some(code) => {
                    assert(dd == sd.add(stream_delta(code@)));
                },
                Option::None => {
                    lemma_add_zero(sd);
                    assert(dd == sd);
                },
            }
            // Whatever has been absorbed so far plus this definition still
            // fits, because it is below the whole module's delta.
            assert(defs_delta(h, p, ds.take(i as int)).add(dd) == defs_delta(
                h,
                p,
                ds.take(i as int + 1),
            ));
            assert(m1.add(defs_delta(h, p, ds.take(i as int + 1))).le(module_delta(*module)));
            lemma_fits_le(
                c0,
                m1.add(defs_delta(h, p, ds.take(i as int + 1))),
                module_delta(*module),
            );
            lemma_fits_split(c0, m1.add(defs_delta(h, p, ds.take(i as int))), dd);
            assert(c0.add(m1.add(defs_delta(h, p, ds.take(i as int)))) =~= c0.add(m1).add(
                defs_delta(h, p, ds.take(i as int)),
            ));
            lemma_fits_split(c0.add(m1).add(defs_delta(h, p, ds.take(i as int))), sd, match ds[i
                as int].code {
                Option::Some(code) => stream_delta(code@),
                Option::None => CountsView::zero(),
            });
            lemma_fits_le(c0.add(m1).add(defs_delta(h, p, ds.take(i as int))), sd, dd);
        }
        count_function_signature(
            counts,
            &module.signatures[fhandle.parameters].0,
            &module.signatures[fhandle.return_].0,
            &fdef.acquires_global_resources,
        );
        match &fdef.code {
            Option::Some(code) => {
                count_instructions(counts, code);
            },
            Option::None => {},
        }
        assert(counts@ =~= c0.add(m1).add(defs_delta(h, p, ds.take(i as int + 1))));
    }
    proof {
        assert(ds.take(n as int) =~= ds);
        lemma_defs_delta_shape(h, p, ds);
    }
    let after_acquires = counts.acquires_annotations;
    if after_acquires > before_acquires {
        counts.modules_with_acquires = counts.modules_with_acquires + 1;
        assert(has_acquiring_def(ds));
        assert(counts@ =~= c0.add(module_delta(*module)));
    } else {
        assert(!has_acquiring_def(ds));
        assert(counts@ =~= c0.add(module_delta(*module)));
    }
}

/// Walks one script: classifies its single function signature with no return
/// tokens and no acquires (a script can declare neither), then walks its
/// body.  A script never touches the module counters.
pub fn count_script(counts: &mut Counts, script: &CompiledScript)
    requires
        script.wf(),
        old(counts)@.fits(script_delta(*script)),
    ensures
        final(counts)@ == old(counts)@.add(script_delta(*script)),
{
    let ghost c0 = counts@;
    let ghost sd = sig_delta(script.signatures@[script.parameters as int].0@, Seq::empty(), 0);
    let no_returns: Vec<SignatureToken> = Vec::new();
    let no_acquires: Vec<usize> = Vec::new();
    proof {
        assert(no_returns@ =~= Seq::<SignatureToken>::empty());
        assert(no_acquires@ =~= Seq::<usize>::empty());
        lemma_fits_le(c0, sd, script_delta(*script));
        lemma_fits_split(c0, sd, stream_delta(script.code@));
    }
    count_function_signature(
        counts,
        &script.signatures[script.parameters].0,
        &no_returns,
        &no_acquires,
    );
    count_instructions(counts, &script.code);
    assert(counts@ =~= c0.add(script_delta(*script)));
}

/// Walks a whole corpus of verified units with a fresh accumulator and
/// returns the gathered statistics: exactly the corpus delta of the model.
pub fn count_units(units: &Vec<CompiledUnit>) -> (counts: Counts)
    requires
        forall|i: int| 0 <= i < units@.len() ==> (#[trigger] units@[i]).wf(),
        CountsView::zero().fits(corpus_delta(units@)),
    ensures
        counts@ == corpus_delta(units@),
{
    let mut counts = Counts::default();
    assert(counts@ =~= corpus_delta(units@.take(0)));
    let n = units.len();
    for i in 0..n
        invariant
            n == units@.len(),
            counts@ == corpus_delta(units@.take(i as int)),
            forall|k: int| 0 <= k < units@.len() ==> (#[trigger] units@[k]).wf(),
            CountsView::zero().fits(corpus_delta(units@)),
    {
        proof {
            lemma_corpus_delta_take_unfold(units@, i as int);
            lemma_corpus_delta_take_le(units@, i as int + 1);
            assert(counts@.fits(unit_delta(units@[i as int])));
            assert(units@[i as int].wf());
        }
        let unit = &units[i];
        match unit {
            CompiledUnit::Module(module) => count_module(&mut counts, module),
            CompiledUnit::Script(script) => count_script(&mut counts, script),
        }
    }
    proof {
        assert(units@.take(n as int) =~= units@);
    }
    counts
}

} // verus!
