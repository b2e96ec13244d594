//! A source-preprocessing stage that sits in front of a script-execution
//! host: before a unit of source text is handed to the host's evaluator, the
//! stage detects whether the text is written in TypeScript and, if so,
//! rewrites it into plain JavaScript that the host understands.
//!
//! The lexing, parsing, type stripping, code generation, minification and
//! identifier renaming are done by the swc compiler, treated here as a black
//! box behind a small set of trusted declarations. What this crate owns and
//! verifies is the preprocessing contract around that backend: the decision
//! of whether a unit needs transformation at all, the heuristic that frames a
//! unit as a module or a plain script, the assembly of the exact options
//! document the backend consumes, and the result and error contract returned
//! to the host.

pub mod backend;
pub mod classify;
pub mod options;
pub mod preprocessor;
pub mod target;

pub use classify::is_module;
pub use options::Configuration;
pub use preprocessor::SourceUnit;
pub use preprocessor::TransformError;
pub use preprocessor::TransformErrorKind;
pub use preprocessor::TypeScriptPreProcessor;
pub use target::TargetVersion;
