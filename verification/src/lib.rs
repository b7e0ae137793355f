//! A declarative tile-surface engine: a compiled node graph of signed
//! distance field shapes, tiling combinators and materials, evaluated per
//! query point in exact fixed-point arithmetic.
use vstd::prelude::*;

pub mod accum;
pub mod bsdf;
pub mod compiler;
pub mod context;
pub mod expression;
pub mod fixed;
pub mod hit;
pub mod laws;
pub mod material;
pub mod node;
pub mod ray;
pub mod scanner;
pub mod sdf;
pub mod text;
pub mod value;
pub mod vecfp;

use crate::compiler::{Compiler, FTError};
use crate::context::FTContext;

verus! {

/// Entry point: compiles tile scripts into scene graphs.
pub struct ForgedTiles {}

impl Default for ForgedTiles {
    fn default() -> (r: Self) {
        ForgedTiles {  }
    }
}

impl ForgedTiles {
    pub fn new() -> (r: Self) {
        ForgedTiles {  }
    }

    /// Compile the given code. The outcome is pinned by the contract on
    /// `Compiler::compile`: success means the whole text was consumed, and
    /// an error carries the first offending source line.
    pub fn compile_code(&self, code: String) -> (r: Result<FTContext, FTError>) {
        let mut compiler = Compiler::new();
        compiler.compile(code)
    }
}

} // verus!
