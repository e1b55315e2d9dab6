use bytecode_stats::analyze::count_units;
use bytecode_stats::units::Bytecode;
use bytecode_stats::units::CompiledModule;
use bytecode_stats::units::CompiledUnit;
use bytecode_stats::units::FunctionDefinition;
use bytecode_stats::units::FunctionHandle;
use bytecode_stats::units::Signature;
use bytecode_stats::units::SignatureToken;

fn module_with_body(params: Vec<SignatureToken>, code: Vec<Bytecode>) -> CompiledModule {
    CompiledModule {
        function_handles: vec![FunctionHandle { parameters: 0, return_: 1 }],
        signatures: vec![Signature(params), Signature(vec![])],
        function_defs: vec![FunctionDefinition {
            function: 0,
            acquires_global_resources: vec![],
            code: Some(code),
        }],
    }
}

#[test]
fn empty_corpus_report() {
    let counts = count_units(&vec![]);
    let expected = "\
Total reference operations (not including move/copy/pop): 0
  Total borrow local: 0
    Imm borrow local: 0
    Mut borrow local: 0
  Total borrow field: 0
    Imm borrow field: 0
    Mut borrow field: 0
  Total borrow global: 0
    Imm borrow global: 0
    Mut borrow global: 0
  Freeze: 0
Fraction of instructions that are reference instructions: 0/0 (0.00%)

Total reference related annotations: 0
  Total reference function type annotations: 0
    Reference parameters: 0
    Reference return values: 0
  Acquire annotations: 0

Functions with reference operations: 0/0 (0.00%)
Functions with reference signatures: 0/0 (0.00%)
Functions with acquires: 0/0 (0.00%)
Modules with acquires: 0/0 (0.00%)
";
    assert_eq!(counts.report(), expected);
}

#[test]
fn single_module_report() {
    let module = module_with_body(
        vec![SignatureToken::Reference],
        vec![Bytecode::ImmBorrowLoc, Bytecode::MutBorrowField, Bytecode::FreezeRef],
    );
    let counts = count_units(&vec![CompiledUnit::Module(module)]);
    let expected = "\
Total reference operations (not including move/copy/pop): 3
  Total borrow local: 1
    Imm borrow local: 1
    Mut borrow local: 0
  Total borrow field: 1
    Imm borrow field: 0
    Mut borrow field: 1
  Total borrow global: 0
    Imm borrow global: 0
    Mut borrow global: 0
  Freeze: 1
Fraction of instructions that are reference instructions: 3/3 (100.00%)

Total reference related annotations: 1
  Total reference function type annotations: 1
    Reference parameters: 1
    Reference return values: 0
  Acquire annotations: 0

Functions with reference operations: 1/1 (100.00%)
Functions with reference signatures: 1/1 (100.00%)
Functions with acquires: 0/1 (0.00%)
Modules with acquires: 0/1 (0.00%)
";
    assert_eq!(counts.report(), expected);
}

#[test]
fn percentages_round_to_two_places() {
    // One reference operation in three instructions: 33.33%.
    let module = module_with_body(
        vec![],
        vec![Bytecode::FreezeRef, Bytecode::Other, Bytecode::Other],
    );
    let counts = count_units(&vec![CompiledUnit::Module(module)]);
    let report = counts.report();
    assert!(report.contains(
        "Fraction of instructions that are reference instructions: 1/3 (33.33%)\n"
    ));
    // Two in three: 66.67%, rounded up from 66.666...
    let module = module_with_body(
        vec![],
        vec![Bytecode::FreezeRef, Bytecode::FreezeRef, Bytecode::Other],
    );
    let counts = count_units(&vec![CompiledUnit::Module(module)]);
    let report = counts.report();
    assert!(report.contains(
        "Fraction of instructions that are reference instructions: 2/3 (66.67%)\n"
    ));
}

#[test]
fn fraction_part_is_zero_padded() {
    // One in sixteen: 6.25%.
    let mut code = vec![Bytecode::MutBorrowLoc];
    for _ in 0..15 {
        code.push(Bytecode::Other);
    }
    let counts = count_units(&vec![CompiledUnit::Module(module_with_body(vec![], code))]);
    let report = counts.report();
    assert!(report.contains(
        "Fraction of instructions that are reference instructions: 1/16 (6.25%)\n"
    ));
    // One in two hundred: 0.50%.
    let mut code = vec![Bytecode::ImmBorrowField];
    for _ in 0..199 {
        code.push(Bytecode::Other);
    }
    let counts = count_units(&vec![CompiledUnit::Module(module_with_body(vec![], code))]);
    let report = counts.report();
    assert!(report.contains(
        "Fraction of instructions that are reference instructions: 1/200 (0.50%)\n"
    ));
}

#[test]
fn exact_half_rounds_up() {
    // One reference operation in twenty thousand instructions is exactly
    // 0.005%, which rounds up to 0.01%.
    let mut code = vec![Bytecode::ImmBorrowGlobal];
    for _ in 0..19999 {
        code.push(Bytecode::Other);
    }
    let counts = count_units(&vec![CompiledUnit::Module(module_with_body(vec![], code))]);
    let report = counts.report();
    assert!(report.contains(
        "Fraction of instructions that are reference instructions: 1/20000 (0.01%)\n"
    ));
}

#[test]
fn multi_digit_counters_render_in_full() {
    let mut code = Vec::new();
    for _ in 0..123 {
        code.push(Bytecode::ImmBorrowLoc);
    }
    let counts = count_units(&vec![CompiledUnit::Module(module_with_body(vec![], code))]);
    let report = counts.report();
    assert!(report.contains("    Imm borrow local: 123\n"));
    assert!(report.contains("Total reference operations (not including move/copy/pop): 123\n"));
}
