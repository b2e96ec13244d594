//! The compiler backend: the external engine that parses, strips types,
//! generates code, minifies and renames. This crate configures and invokes
//! it but does not implement it; everything the rest of the crate believes
//! about it is stated here, on a handful of trusted declarations.

use vstd::prelude::*;
use std::sync::Arc;
use swc::config::Options;
use swc_common::FileName;
use swc_common::GLOBALS;
use swc_common::Globals;
use swc_common::errors::Handler;

verus! {

#[verifier::external_type_specification]
#[verifier::external_body]
pub struct ExSourceMap(swc_common::SourceMap);

#[verifier::external_type_specification]
#[verifier::external_body]
pub struct ExCompiler(swc::Compiler);

/// A reusable handle on the compiler backend. The compiler owns the shared
/// text-origin registry (its source map), which every transformation call
/// registers its source text in; the registry is what lets the backend
/// report diagnostics with line and column information. It survives across
/// calls and grows by one entry per call, an accepted resource tradeoff.
pub struct Backend {
    compiler: swc::Compiler,
}

/// A failure reported by one backend call.
pub(crate) enum BackendFailure {
    /// The options document was rejected while being decoded.
    InvalidOptions(String),
    /// The backend failed to compile the source text.
    Rejected(String),
}

/// The view of an optional text result.
pub open spec fn opt_text(m: Option<String>) -> Option<Seq<char>> {
    match m {
        Some(s) => Some(s@),
        None => None,
    }
}

/// What one backend call returns for a given options document, unit identity
/// and source text: generated code with an optional position map, or a
/// failure. Decoding the options and compiling the text are deterministic,
/// so the verdict is a function of the three texts alone; nothing further is
/// assumed about it.
pub uninterp spec fn backend_verdict(options: Seq<char>, identity: Seq<char>, source: Seq<char>) -> Result<(Seq<char>, Option<Seq<char>>), ()>;

/// Relies on swc::Compiler::new: a fresh compiler handle over a fresh shared
/// source map (its text-origin registry).
#[verifier::external_body]
pub(crate) fn new_backend() -> Backend {
    Backend { compiler: swc::Compiler::new(Arc::default()) }
}

/// Relies on serde_json::from_str to decode the options document into the
/// backend's configuration type, and on swc::Compiler::process_js_file to
/// compile the source text registered under `identity` with those options,
/// returning its generated code and optional source map or its diagnostic.
/// The surrounding calls set up what one invocation needs: the hygiene scope
/// (swc_common::Globals), the diagnostic sink (a Handler writing to the
/// standard error stream) and the registration of the text in the shared
/// source map. Decoding and compilation depend on
/// the three texts alone, which `backend_verdict` names; the error arms only
/// carry each failure's diagnostic over into this crate's failure type.
#[verifier::external_body]
pub(crate) fn backend_compile(b: &Backend, options_json: &str, identity: &str, source: &str) -> (r:
    Result<(String, Option<String>), BackendFailure>)
    ensures
        (r is Ok) == (backend_verdict(options_json@, identity@, source@) is Ok),
        r matches Ok(out) ==> (backend_verdict(options_json@, identity@, source@) matches Ok(v)
            && v.0 == out.0@ && v.1 == opt_text(out.1)),
{
    let globals = Globals::new();
    GLOBALS.set(&globals, || {
        let cfg = serde_json::from_str(options_json)
            .map_err(|e| BackendFailure::InvalidOptions(format!("{e}")))?;
        let sink = Box::new(std::io::stderr());
        let handler = Handler::with_emitter_writer(sink, Some(b.compiler.cm.clone()));
        let name = Arc::new(FileName::Custom(identity.to_string()));
        let fm = b.compiler.cm.new_source_file(name, source.to_string());
        let opts = Options { config: cfg, ..Default::default() };
        match b.compiler.process_js_file(fm, &handler, &opts) {
            Ok(out) => Ok((out.code, out.map)),
            Err(e) => Err(BackendFailure::Rejected(format!("{e}"))),
        }
    })
}

} // verus!
