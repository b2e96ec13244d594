//! The host-facing preprocessor: given a named source unit, decide by its
//! identity suffix whether transformation applies at all, and if so classify
//! the unit, assemble the backend options, invoke the backend, and write the
//! generated code back into the unit in place. Either the payload is
//! replaced wholesale or it is left exactly as it was.

use vstd::prelude::*;
use crate::backend::Backend;
use crate::backend::BackendFailure;
use crate::backend::backend_compile;
use crate::backend::backend_verdict;
use crate::backend::new_backend;
use crate::backend::opt_text;
use crate::classify::is_module;
use crate::classify::spec_is_module;
use crate::options::Configuration;
use crate::options::assemble;
use crate::options::render_options;
use crate::options::spec_assemble;
use crate::options::spec_options_text;
use crate::target::TargetVersion;

verus! {

/// One named piece of source text submitted to the host for execution: a
/// path-like identity and a text payload. The identity never changes; only
/// the payload is rewritten, at most once per preprocessing call.
pub struct SourceUnit {
    pub identity: String,
    pub payload: String,
}

impl SourceUnit {
    pub fn new(identity: String, payload: String) -> (r: SourceUnit)
        ensures
            r.identity@ == identity@,
            r.payload@ == payload@,
    {
        SourceUnit { identity, payload }
    }

    /// The unit's path-like identity.
    pub fn get_path(&self) -> (r: &str)
        ensures
            r@ == self.identity@,
    {
        self.identity.as_str()
    }

    /// The unit's current text payload.
    pub fn get_code(&self) -> (r: &str)
        ensures
            r@ == self.payload@,
    {
        self.payload.as_str()
    }
}

/// Which of the two failure sources produced an error.
#[derive(Clone, Copy, PartialEq, Eq, Structural, Debug)]
pub enum TransformErrorKind {
    /// The assembled options document was rejected by the backend's decoder.
    /// Recoverable and reported, never an abort; it is not expected to occur
    /// for documents this crate assembles.
    InvalidConfiguration,
    /// The backend failed to compile the source text: a syntax error, an
    /// unsupported construct, or an internal backend fault.
    CompileFailed,
}

/// A structured transformation failure carrying a human-readable diagnostic.
/// No recovery and no retry: a failure is a property of the source text and
/// the configuration, and is reported upward as it is.
#[derive(Debug)]
pub struct TransformError {
    pub kind: TransformErrorKind,
    pub message: String,
}

/// The recognized identity suffix: a unit whose identity ends in `.ts` is
/// written in the superset language and is transformed; every other unit is
/// left untouched, so the preprocessor can be registered globally against
/// every unit the host loads.
pub open spec fn spec_has_ts_suffix(s: Seq<char>) -> bool {
    s.len() >= 3 && s[s.len() - 3] == '.' && s[s.len() - 2] == 't' && s[s.len() - 1] == 's'
}

/// Decides whether a unit identity carries the recognized suffix.
pub fn has_ts_suffix(name: &str) -> (r: bool)
    ensures
        r == spec_has_ts_suffix(name@),
{
    let n: usize = name.unicode_len();
    if n < 3 {
        return false;
    }
    name.get_char(n - 3) == '.' && name.get_char(n - 2) == 't' && name.get_char(n - 1) == 's'
}

/// The backend's verdict for one transformation call: the outcome of
/// compiling `source`, registered under `identity`, with the options
/// assembled from the configuration and the module decision.
pub open spec fn spec_transpile_verdict(
    c: Configuration,
    is_module: bool,
    identity: Seq<char>,
    source: Seq<char>,
) -> Result<(Seq<char>, Option<Seq<char>>), ()> {
    backend_verdict(spec_options_text(spec_assemble(c, is_module)), identity, source)
}

/// The preprocessor the host registers: an immutable configuration plus a
/// reusable compiler-backend handle, constructed once and shared across
/// every unit the host loads.
pub struct TypeScriptPreProcessor {
    pub config: Configuration,
    pub backend: Backend,
}

impl TypeScriptPreProcessor {
    pub fn new(target: TargetVersion, minify: bool, external_helpers: bool, mangle: bool) -> (r:
        Self)
        ensures
            r.config == (Configuration { target, minify, mangle, external_helpers }),
    {
        TypeScriptPreProcessor {
            config: Configuration { target, minify, mangle, external_helpers },
            backend: new_backend(),
        }
    }

    /// Executes one transformation: registers `code` under the synthetic
    /// identity `file_name`, invokes the backend with the options assembled
    /// for this configuration and the given module decision, and maps the
    /// outcome into this crate's result contract. On success the caller
    /// becomes sole owner of the generated text and the optional position
    /// map; on failure the diagnostic is carried over, and the message is
    /// never empty. No retries: a failure is a property of the inputs.
    pub fn transpile(&self, code: &str, file_name: &str, is_module: bool) -> (r: Result<
        (String, Option<String>),
        TransformError,
    >)
        ensures
            ({
                let verdict = spec_transpile_verdict(self.config, is_module, file_name@, code@);
                &&& (r is Ok) == (verdict is Ok)
                &&& (r matches Ok(out) ==> (verdict matches Ok(v) && out.0@ == v.0 && opt_text(
                    out.1,
                ) == v.1))
                &&& (r matches Err(e) ==> e.message@.len() > 0)
            }),
    {
        let opts = assemble(&self.config, is_module);
        let json = render_options(&opts);
        match backend_compile(&self.backend, json.as_str(), file_name, code) {
            Ok(out) => Ok(out),
            Err(BackendFailure::InvalidOptions(m)) => {
                proof {
                    reveal_strlit("invalid backend options: ");
                }
                Err(
                    TransformError {
                        kind: TransformErrorKind::InvalidConfiguration,
                        message: String::from_str("invalid backend options: ").concat(m.as_str()),
                    },
                )
            },
            Err(BackendFailure::Rejected(m)) => {
                proof {
                    reveal_strlit("transpile failed: ");
                }
                Err(
                    TransformError {
                        kind: TransformErrorKind::CompileFailed,
                        message: String::from_str("transpile failed: ").concat(m.as_str()),
                    },
                )
            },
        }
    }

    /// The host-facing entry point. A unit whose identity does not end in
    /// the recognized suffix is left byte-for-byte unchanged and the call
    /// succeeds trivially. A recognized unit is classified, transformed, and
    /// on success its payload is overwritten with the generated code; on
    /// failure the payload remains exactly what it was and the error carries
    /// a non-empty diagnostic. The identity never changes.
    pub fn process(&self, script: &mut SourceUnit) -> (r: Result<(), TransformError>)
        ensures
            final (script).identity@ == old(script).identity@,
            !spec_has_ts_suffix(old(script).identity@) ==> r is Ok && final (script).payload@
                == old(script).payload@,
            spec_has_ts_suffix(old(script).identity@) ==> ({
                let verdict = spec_transpile_verdict(
                    self.config,
                    spec_is_module(old(script).payload@),
                    old(script).identity@,
                    old(script).payload@,
                );
                &&& (r is Ok) == (verdict is Ok)
                &&& (r is Ok ==> (verdict matches Ok(v) && final (script).payload@ == v.0))
                &&& (r matches Err(e) ==> final (script).payload@ == old(script).payload@
                    && e.message@.len() > 0)
            }),
    {
        if has_ts_suffix(script.identity.as_str()) {
            let module_flag = is_module(script.payload.as_str());
            match self.transpile(script.payload.as_str(), script.identity.as_str(), module_flag) {
                Ok(out) => {
                    script.payload = out.0;
                    Ok(())
                },
                Err(e) => Err(e),
            }
        } else {
            Ok(())
        }
    }
}

impl Default for TypeScriptPreProcessor {
    /// A safe, broadly compatible default: mid-tier target, minification
    /// off, external helpers on, identifier renaming off.
    fn default() -> (r: Self)
        ensures
            r.config == (Configuration {
                target: TargetVersion::Es2020,
                minify: false,
                mangle: false,
                external_helpers: true,
            }),
    {
        Self::new(TargetVersion::Es2020, false, true, false)
    }
}

} // verus!
