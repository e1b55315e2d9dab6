use bytecode_stats::analyze::count_units;
use bytecode_stats::counts::Counts;
use bytecode_stats::units::Bytecode;
use bytecode_stats::units::CompiledModule;
use bytecode_stats::units::CompiledScript;
use bytecode_stats::units::CompiledUnit;
use bytecode_stats::units::FunctionDefinition;
use bytecode_stats::units::FunctionHandle;
use bytecode_stats::units::Signature;
use bytecode_stats::units::SignatureToken;

/// A module with a single function: one handle, a parameter signature at
/// index 0, a return signature at index 1.
fn one_function_module(
    params: Vec<SignatureToken>,
    rets: Vec<SignatureToken>,
    acquires: Vec<usize>,
    code: Option<Vec<Bytecode>>,
) -> CompiledModule {
    CompiledModule {
        function_handles: vec![FunctionHandle { parameters: 0, return_: 1 }],
        signatures: vec![Signature(params), Signature(rets)],
        function_defs: vec![FunctionDefinition {
            function: 0,
            acquires_global_resources: acquires,
            code,
        }],
    }
}

fn assert_all_zero(c: &Counts) {
    assert_eq!(c.imm_borrow_loc, 0);
    assert_eq!(c.mut_borrow_loc, 0);
    assert_eq!(c.imm_borrow_field, 0);
    assert_eq!(c.mut_borrow_field, 0);
    assert_eq!(c.imm_borrow_global, 0);
    assert_eq!(c.mut_borrow_global, 0);
    assert_eq!(c.freeze, 0);
    assert_eq!(c.total_instructions, 0);
    assert_eq!(c.reference_parameters, 0);
    assert_eq!(c.reference_return_values, 0);
    assert_eq!(c.acquires_annotations, 0);
    assert_eq!(c.total_functions, 0);
    assert_eq!(c.functions_with_reference_operations, 0);
    assert_eq!(c.functions_with_reference_signatures, 0);
    assert_eq!(c.functions_with_acquires, 0);
    assert_eq!(c.total_modules, 0);
    assert_eq!(c.modules_with_acquires, 0);
}

#[test]
fn module_with_reference_function() {
    let module = one_function_module(
        vec![SignatureToken::Reference],
        vec![],
        vec![],
        Some(vec![Bytecode::ImmBorrowLoc, Bytecode::MutBorrowField, Bytecode::FreezeRef]),
    );
    let counts = count_units(&vec![CompiledUnit::Module(module)]);
    assert_eq!(counts.imm_borrow_loc, 1);
    assert_eq!(counts.mut_borrow_field, 1);
    assert_eq!(counts.freeze, 1);
    assert_eq!(counts.mut_borrow_loc, 0);
    assert_eq!(counts.imm_borrow_field, 0);
    assert_eq!(counts.imm_borrow_global, 0);
    assert_eq!(counts.mut_borrow_global, 0);
    assert_eq!(counts.total_instructions, 3);
    assert_eq!(counts.reference_parameters, 1);
    assert_eq!(counts.reference_return_values, 0);
    assert_eq!(counts.functions_with_reference_signatures, 1);
    assert_eq!(counts.functions_with_reference_operations, 1);
    assert_eq!(counts.functions_with_acquires, 0);
    assert_eq!(counts.acquires_annotations, 0);
    assert_eq!(counts.total_functions, 1);
    assert_eq!(counts.total_modules, 1);
    assert_eq!(counts.modules_with_acquires, 0);
}

#[test]
fn script_with_global_borrow() {
    let script = CompiledScript {
        parameters: 0,
        signatures: vec![Signature(vec![SignatureToken::Other])],
        code: vec![Bytecode::MutBorrowGlobal],
    };
    let counts = count_units(&vec![CompiledUnit::Script(script)]);
    assert_eq!(counts.mut_borrow_global, 1);
    assert_eq!(counts.total_instructions, 1);
    assert_eq!(counts.reference_parameters, 0);
    assert_eq!(counts.functions_with_reference_signatures, 0);
    assert_eq!(counts.functions_with_reference_operations, 1);
    assert_eq!(counts.total_functions, 1);
    assert_eq!(counts.total_modules, 0);
    assert_eq!(counts.modules_with_acquires, 0);
    assert_eq!(counts.acquires_annotations, 0);
}

#[test]
fn module_with_acquires() {
    let module = CompiledModule {
        function_handles: vec![FunctionHandle { parameters: 0, return_: 0 }],
        signatures: vec![Signature(vec![])],
        function_defs: vec![
            FunctionDefinition {
                function: 0,
                acquires_global_resources: vec![7, 9],
                code: None,
            },
            FunctionDefinition {
                function: 0,
                acquires_global_resources: vec![],
                code: None,
            },
        ],
    };
    let counts = count_units(&vec![CompiledUnit::Module(module)]);
    assert_eq!(counts.acquires_annotations, 2);
    assert_eq!(counts.functions_with_acquires, 1);
    assert_eq!(counts.modules_with_acquires, 1);
    assert_eq!(counts.total_functions, 2);
    assert_eq!(counts.total_modules, 1);
    assert_eq!(counts.total_instructions, 0);
    assert_eq!(counts.functions_with_reference_operations, 0);
}

#[test]
fn empty_corpus_counts_nothing() {
    let counts = count_units(&vec![]);
    assert_all_zero(&counts);
}

#[test]
fn generic_borrows_count_like_their_siblings() {
    let module = one_function_module(
        vec![],
        vec![],
        vec![],
        Some(vec![
            Bytecode::ImmBorrowField,
            Bytecode::ImmBorrowFieldGeneric,
            Bytecode::MutBorrowField,
            Bytecode::MutBorrowFieldGeneric,
            Bytecode::ImmBorrowGlobal,
            Bytecode::ImmBorrowGlobalGeneric,
            Bytecode::MutBorrowGlobal,
            Bytecode::MutBorrowGlobalGeneric,
            Bytecode::ImmBorrowLoc,
            Bytecode::MutBorrowLoc,
            Bytecode::FreezeRef,
            Bytecode::Other,
        ]),
    );
    let counts = count_units(&vec![CompiledUnit::Module(module)]);
    assert_eq!(counts.imm_borrow_field, 2);
    assert_eq!(counts.mut_borrow_field, 2);
    assert_eq!(counts.imm_borrow_global, 2);
    assert_eq!(counts.mut_borrow_global, 2);
    assert_eq!(counts.imm_borrow_loc, 1);
    assert_eq!(counts.mut_borrow_loc, 1);
    assert_eq!(counts.freeze, 1);
    assert_eq!(counts.total_instructions, 12);
    assert_eq!(counts.functions_with_reference_operations, 1);
}

#[test]
fn function_without_body_walks_no_instructions() {
    let module = one_function_module(vec![SignatureToken::Other], vec![], vec![], None);
    let counts = count_units(&vec![CompiledUnit::Module(module)]);
    assert_eq!(counts.total_functions, 1);
    assert_eq!(counts.total_instructions, 0);
    assert_eq!(counts.functions_with_reference_operations, 0);
    assert_eq!(counts.total_modules, 1);
}

#[test]
fn other_instructions_count_only_toward_total() {
    let module = one_function_module(
        vec![],
        vec![],
        vec![],
        Some(vec![Bytecode::Other, Bytecode::Other]),
    );
    let counts = count_units(&vec![CompiledUnit::Module(module)]);
    assert_eq!(counts.total_instructions, 2);
    assert_eq!(
        counts.imm_borrow_loc
            + counts.mut_borrow_loc
            + counts.imm_borrow_field
            + counts.mut_borrow_field
            + counts.imm_borrow_global
            + counts.mut_borrow_global
            + counts.freeze,
        0
    );
    assert_eq!(counts.functions_with_reference_operations, 0);
}

#[test]
fn reference_returns_mark_the_signature() {
    let module = one_function_module(
        vec![SignatureToken::Other],
        vec![SignatureToken::MutableReference, SignatureToken::Reference, SignatureToken::Other],
        vec![],
        None,
    );
    let counts = count_units(&vec![CompiledUnit::Module(module)]);
    assert_eq!(counts.reference_parameters, 0);
    assert_eq!(counts.reference_return_values, 2);
    assert_eq!(counts.functions_with_reference_signatures, 1);
}

#[test]
fn many_reference_tokens_mark_the_function_once() {
    let module = one_function_module(
        vec![SignatureToken::Reference, SignatureToken::MutableReference, SignatureToken::Other],
        vec![SignatureToken::Reference],
        vec![],
        None,
    );
    let counts = count_units(&vec![CompiledUnit::Module(module)]);
    assert_eq!(counts.reference_parameters, 2);
    assert_eq!(counts.reference_return_values, 1);
    assert_eq!(counts.functions_with_reference_signatures, 1);
    assert_eq!(counts.total_functions, 1);
}

#[test]
fn module_without_functions() {
    let module = CompiledModule {
        function_handles: vec![],
        signatures: vec![],
        function_defs: vec![],
    };
    let counts = count_units(&vec![CompiledUnit::Module(module)]);
    assert_eq!(counts.total_modules, 1);
    assert_eq!(counts.total_functions, 0);
    assert_eq!(counts.modules_with_acquires, 0);
}

#[test]
fn permuting_functions_changes_no_counter() {
    let defs = |flip: bool| {
        let first = FunctionDefinition {
            function: 0,
            acquires_global_resources: vec![3],
            code: Some(vec![Bytecode::ImmBorrowLoc, Bytecode::Other]),
        };
        let second = FunctionDefinition {
            function: 1,
            acquires_global_resources: vec![],
            code: Some(vec![Bytecode::FreezeRef]),
        };
        if flip { vec![second, first] } else { vec![first, second] }
    };
    let module = |flip: bool| CompiledModule {
        function_handles: vec![
            FunctionHandle { parameters: 0, return_: 1 },
            FunctionHandle { parameters: 1, return_: 0 },
        ],
        signatures: vec![
            Signature(vec![SignatureToken::Reference]),
            Signature(vec![SignatureToken::Other]),
        ],
        function_defs: defs(flip),
    };
    let a = count_units(&vec![CompiledUnit::Module(module(false))]);
    let b = count_units(&vec![CompiledUnit::Module(module(true))]);
    assert_eq!(a.report(), b.report());
}

#[test]
fn permuting_units_changes_no_counter() {
    let module = || {
        CompiledUnit::Module(one_function_module(
            vec![SignatureToken::Reference],
            vec![],
            vec![5],
            Some(vec![Bytecode::MutBorrowLoc]),
        ))
    };
    let script = || {
        CompiledUnit::Script(CompiledScript {
            parameters: 0,
            signatures: vec![Signature(vec![])],
            code: vec![Bytecode::ImmBorrowGlobal, Bytecode::Other],
        })
    };
    let a = count_units(&vec![module(), script()]);
    let b = count_units(&vec![script(), module()]);
    assert_eq!(a.report(), b.report());
}

#[test]
fn analyzing_twice_gives_identical_reports() {
    let corpus = || {
        vec![CompiledUnit::Module(one_function_module(
            vec![SignatureToken::MutableReference],
            vec![SignatureToken::Reference],
            vec![1, 2, 3],
            Some(vec![Bytecode::MutBorrowGlobalGeneric, Bytecode::Other, Bytecode::FreezeRef]),
        ))]
    };
    let first = count_units(&corpus());
    let second = count_units(&corpus());
    assert_eq!(first.report(), second.report());
}

#[test]
fn classification_stays_within_totals() {
    let corpus = vec![
        CompiledUnit::Module(one_function_module(
            vec![SignatureToken::Reference],
            vec![],
            vec![4],
            Some(vec![Bytecode::ImmBorrowLoc, Bytecode::Other]),
        )),
        CompiledUnit::Script(CompiledScript {
            parameters: 0,
            signatures: vec![Signature(vec![SignatureToken::Other])],
            code: vec![Bytecode::Other],
        }),
    ];
    let counts = count_units(&corpus);
    assert!(counts.functions_with_reference_operations <= counts.total_functions);
    assert!(counts.functions_with_reference_signatures <= counts.total_functions);
    assert!(counts.functions_with_acquires <= counts.total_functions);
    assert!(counts.modules_with_acquires <= counts.total_modules);
    let reference_ops = counts.imm_borrow_loc
        + counts.mut_borrow_loc
        + counts.imm_borrow_field
        + counts.mut_borrow_field
        + counts.imm_borrow_global
        + counts.mut_borrow_global
        + counts.freeze;
    assert!(reference_ops <= counts.total_instructions);
    assert_eq!(counts.total_instructions, 3);
    assert_eq!(reference_ops, 1);
}
