//! Front end of a dynamic binary translator for a 64-bit MIPS-family CPU.
//!
//! Raw 32-bit guest instruction words are decoded, and a run of consecutive
//! instructions ("block") is lowered into a small block-structured
//! intermediate representation (IR): guest register reads and writes go
//! through a per-block lazily filled register cache, branches and jumps are
//! woven into an explicit control-flow graph honouring the one-instruction
//! delay slot, and coprocessor-0 register accesses apply their architectural
//! write masks and side-effect calls.  The finished IR function is handed to
//! an external native-code compiler.

pub mod bits;
pub mod cp0;
pub mod decoder;
pub mod eval;
pub mod ir;
pub mod layout;
pub mod regcache;
pub mod translate;
