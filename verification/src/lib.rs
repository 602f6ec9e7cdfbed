//! Core of a method JIT for a dynamically typed, object-oriented scripting
//! language: tagged values, bytecode, register-allocation contexts and the
//! x86-64 code generator, with machine-checked contracts.
//!
//! The code generator emits instructions as values (see [`assembler`]); what
//! each routine emits is stated as a function of the state before it.  Beside
//! it stand the two intermediate representations of a small typed expression
//! language: [`hir`], generated from the syntax tree under the typing rules
//! of [`typing`], and [`mcir`], its lowering to virtual machine registers.
//!
//! [`semantics`] says what a run of instructions does, for the instructions
//! of the tests that generated code makes on values, and proves of the
//! emitted code what these tests decide: the truth of a value, the sum of
//! two small integers, the float in a word, and the hit of a call site's
//! cache.

pub mod assembler;
pub mod ast;
pub mod bbctx;
pub mod builtins;
pub mod cache;
pub mod codegen;
pub mod frame;
pub mod funcs;
pub mod globals;
pub mod hir;
pub mod hir_gen;
pub mod inspect;
pub mod ids;
pub mod inst;
pub mod iseq;
pub mod laws;
pub mod mcir;
pub mod mcir_gen;
pub mod runtime;
pub mod semantics;
pub mod typing;
pub mod value;
