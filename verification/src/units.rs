//! The data model of compiled program units.
//!
//! A compiled unit is either a module (a named collection of function
//! definitions with their signatures and resource-acquire declarations) or a
//! script (a single function body with its parameter signature).  The model
//! holds exactly what the statistics core reads: instruction kinds, the
//! reference-or-not shape of type tokens, signature pools, and the handle
//! indirection from a function definition to its signatures.
//!
//! Units are produced upstream by a compiler-and-verifier service; this
//! library only consumes them.  A unit that passed verification is
//! well-formed in the sense of [`CompiledModule::wf`] / [`CompiledScript::wf`]:
//! every handle and signature index is in bounds.

use vstd::prelude::*;

verus! {

/// One type token of a parameter or return signature.  The statistics core
/// only distinguishes references and mutable references from every other
/// kind of type, so all non-reference variants are collapsed into `Other`.
#[derive(Clone, Copy, PartialEq, Eq, Structural, Debug)]
pub enum SignatureToken {
    /// An immutable reference to some type.
    Reference,
    /// A mutable reference to some type.
    MutableReference,
    /// Any non-reference type.
    Other,
}

/// One bytecode instruction.  The seven tracked reference-related kinds are
/// kept apart (the generic field/global borrows count the same as their
/// non-generic siblings but are distinct instructions); every untracked
/// instruction is collapsed into `Other`, which contributes only to the
/// instruction total.
#[derive(Clone, Copy, PartialEq, Eq, Structural, Debug)]
pub enum Bytecode {
    /// Immutable borrow of a local.
    ImmBorrowLoc,
    /// Mutable borrow of a local.
    MutBorrowLoc,
    /// Immutable borrow of a field.
    ImmBorrowField,
    /// Immutable borrow of a field of a generic struct.
    ImmBorrowFieldGeneric,
    /// Mutable borrow of a field.
    MutBorrowField,
    /// Mutable borrow of a field of a generic struct.
    MutBorrowFieldGeneric,
    /// Immutable borrow of a global resource.
    ImmBorrowGlobal,
    /// Immutable borrow of a generic global resource.
    ImmBorrowGlobalGeneric,
    /// Mutable borrow of a global resource.
    MutBorrowGlobal,
    /// Mutable borrow of a generic global resource.
    MutBorrowGlobalGeneric,
    /// Freeze of a mutable reference into an immutable one.
    FreezeRef,
    /// Any instruction that is not a reference operation.
    Other,
}

/// An ordered sequence of type tokens: one entry of a module's or script's
/// signature pool.
pub struct Signature(pub Vec<SignatureToken>);

/// A function handle: indices into the signature pool for the function's
/// parameter types and return types.
pub struct FunctionHandle {
    /// Index of the parameter signature in the owning unit's signature pool.
    pub parameters: usize,
    /// Index of the return signature in the owning unit's signature pool.
    pub return_: usize,
}

/// A function definition inside a module: a handle reference, the global
/// resources the function declares it may acquire, and an optional
/// instruction body (a native function has none).
pub struct FunctionDefinition {
    /// Index of the function's handle in the owning module's handle pool.
    pub function: usize,
    /// The struct definitions (by index) named in the function's acquire
    /// annotations; only how many there are matters to the statistics.
    pub acquires_global_resources: Vec<usize>,
    /// The instruction body, absent for functions with no code to walk.
    pub code: Option<Vec<Bytecode>>,
}

/// A compiled module: function definitions plus the handle and signature
/// pools they refer to.
pub struct CompiledModule {
    pub function_handles: Vec<FunctionHandle>,
    pub signatures: Vec<Signature>,
    pub function_defs: Vec<FunctionDefinition>,
}

/// A compiled script: one function body and its parameter signature.  A
/// script has no return signature and, by construction, no acquire
/// annotations.
pub struct CompiledScript {
    /// Index of the parameter signature in the script's signature pool.
    pub parameters: usize,
    pub signatures: Vec<Signature>,
    /// The script's single instruction body (always present).
    pub code: Vec<Bytecode>,
}

/// A compiled unit, as handed over by the upstream compiler and verifier.
pub enum CompiledUnit {
    Module(CompiledModule),
    Script(CompiledScript),
}

impl CompiledModule {
    /// Every function definition names a handle inside the handle pool, and
    /// every handle names signatures inside the signature pool.  Bytecode
    /// verification guarantees this for every unit the library is given.
    pub open spec fn wf(self) -> bool {
        &&& forall|i: int|
            0 <= i < self.function_defs@.len() ==> (
            #[trigger] self.function_defs@[i]).function < self.function_handles@.len()
        &&& forall|j: int|
            0 <= j < self.function_handles@.len() ==> {
                &&& (#[trigger] self.function_handles@[j]).parameters < self.signatures@.len()
                &&& self.function_handles@[j].return_ < self.signatures@.len()
            }
    }
}

impl CompiledScript {
    /// The parameter index names a signature inside the signature pool.
    pub open spec fn wf(self) -> bool {
        self.parameters < self.signatures@.len()
    }
}

impl CompiledUnit {
    /// Well-formedness of whichever variant the unit is.
    pub open spec fn wf(self) -> bool {
        match self {
            CompiledUnit::Module(m) => m.wf(),
            CompiledUnit::Script(s) => s.wf(),
        }
    }
}

} // verus!
