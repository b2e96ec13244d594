//! Assembly of the options document the compiler backend consumes.
//!
//! A [`Configuration`] is an immutable value describing how every
//! transformation run of one preprocessor behaves. Per call it is combined
//! with the module-versus-script decision into a [`BackendOptions`] value,
//! and that value is rendered into the textual document handed to the
//! backend. Both steps are pure: identical inputs yield identical documents.

use vstd::prelude::*;
use crate::target::TargetVersion;
use crate::target::spec_target_text;

verus! {

/// How a transformation run behaves: target level, whether to minify,
/// whether to rename identifiers, and whether generated helper code is
/// imported from a helper library instead of being inlined.
///
/// Invalid combinations are tolerated: requesting `mangle` without `minify`
/// is legal, and the mangle flag is then simply inert.
#[derive(Clone, Copy, PartialEq, Eq, Structural, Debug)]
pub struct Configuration {
    pub target: TargetVersion,
    pub minify: bool,
    pub mangle: bool,
    pub external_helpers: bool,
}

/// Identifier-renaming options of the minify stage. By default top-level
/// bindings keep their names and class identifiers are never renamed.
#[derive(Clone, Copy, PartialEq, Eq, Structural, Debug)]
pub struct MangleOptions {
    pub top_level: bool,
    pub keep_class_names: bool,
}

/// The minify sub-document, present only when minification was requested.
/// `compress_unused` says whether bindings that appear unused may be dropped
/// by the compress stage; it drives both backend switches that can remove
/// them (`unused` and `dead_code`), since the backend compresses every unit
/// under module scoping rules and would otherwise still drop the top-level
/// bindings of a plain script. `emit_comments` says whether comments survive
/// into the output.
#[derive(Clone, Copy, PartialEq, Eq, Debug)]
pub struct MinifyOptions {
    pub compress_unused: bool,
    pub emit_comments: bool,
    pub mangle: Option<MangleOptions>,
}

/// The module sub-document, present only for units framed as modules: a
/// strict, non-lazy module emission mode.
#[derive(Clone, Copy, PartialEq, Eq, Structural, Debug)]
pub struct ModuleOptions {
    pub strict: bool,
    pub strict_mode: bool,
    pub lazy: bool,
    pub no_interop: bool,
    pub ignore_dynamic: bool,
}

/// Parser settings: the typed superset language, with TSX tolerated and
/// decorators accepted.
#[derive(Clone, Copy, PartialEq, Eq, Structural, Debug)]
pub struct ParserOptions {
    pub tsx: bool,
    pub decorators: bool,
}

/// JSX transform settings. `classic_runtime` selects the classic-runtime
/// transform over the automatic one.
#[derive(Clone, Copy, PartialEq, Eq, Structural, Debug)]
pub struct ReactOptions {
    pub classic_runtime: bool,
    pub use_builtins: bool,
    pub refresh: bool,
}

/// Transformation settings: legacy decorator semantics, decorator metadata
/// emission, and the JSX transform.
#[derive(Clone, Copy, PartialEq, Eq, Structural, Debug)]
pub struct TransformOptions {
    pub legacy_decorator: bool,
    pub decorator_metadata: bool,
    pub react: ReactOptions,
}

/// The language-level section of the options document.
#[derive(Clone, Copy, PartialEq, Eq, Debug)]
pub struct JscOptions {
    pub minify: Option<MinifyOptions>,
    pub external_helpers: bool,
    pub parser: ParserOptions,
    pub transform: TransformOptions,
    pub target: TargetVersion,
    pub keep_class_names: bool,
}

/// The fully assembled structured document passed to the compiler backend.
/// Built fresh per call; never cached or reused across calls.
#[derive(Clone, Copy, PartialEq, Eq, Debug)]
pub struct BackendOptions {
    pub minify: bool,
    pub source_maps: bool,
    pub module: Option<ModuleOptions>,
    pub jsc: JscOptions,
}

/// The module emission mode used for every unit framed as a module.
pub open spec fn spec_module_options() -> ModuleOptions {
    ModuleOptions {
        strict: true,
        strict_mode: true,
        lazy: false,
        no_interop: false,
        ignore_dynamic: true,
    }
}

/// What the assembler produces for a configuration and a module decision.
///
/// Unconditionally: source maps on, parser fixed to the typed superset with
/// TSX and decorators, legacy decorator semantics with metadata, the classic
/// JSX runtime, and class names preserved. The minify sub-document exists
/// only when minification is requested, and its mangle sub-document only
/// when identifier renaming is requested on top of that; a mangle request
/// without minification is inert. The module sub-document exists only for
/// module units, and only module units allow dropping unused bindings in the
/// compress stage.
pub open spec fn spec_assemble(c: Configuration, is_module: bool) -> BackendOptions {
    BackendOptions {
        minify: c.minify,
        source_maps: true,
        module: if is_module {
            Some(spec_module_options())
        } else {
            None
        },
        jsc: JscOptions {
            minify: if c.minify {
                Some(
                    MinifyOptions {
                        compress_unused: is_module,
                        emit_comments: false,
                        mangle: if c.mangle {
                            Some(MangleOptions { top_level: false, keep_class_names: true })
                        } else {
                            None
                        },
                    },
                )
            } else {
                None
            },
            external_helpers: c.external_helpers,
            parser: ParserOptions { tsx: true, decorators: true },
            transform: TransformOptions {
                legacy_decorator: true,
                decorator_metadata: true,
                react: ReactOptions { classic_runtime: true, use_builtins: true, refresh: true },
            },
            target: c.target,
            keep_class_names: true,
        },
    }
}

/// Builds the structured options document for one transformation call.
pub fn assemble(c: &Configuration, is_module: bool) -> (r: BackendOptions)
    ensures
        r == spec_assemble(*c, is_module),
        !c.minify ==> r.jsc.minify is None,
{
    BackendOptions {
        minify: c.minify,
        source_maps: true,
        module: if is_module {
            Some(
                ModuleOptions {
                    strict: true,
                    strict_mode: true,
                    lazy: false,
                    no_interop: false,
                    ignore_dynamic: true,
                },
            )
        } else {
            None
        },
        jsc: JscOptions {
            minify: if c.minify {
                Some(
                    MinifyOptions {
                        compress_unused: is_module,
                        emit_comments: false,
                        mangle: if c.mangle {
                            Some(MangleOptions { top_level: false, keep_class_names: true })
                        } else {
                            None
                        },
                    },
                )
            } else {
                None
            },
            external_helpers: c.external_helpers,
            parser: ParserOptions { tsx: true, decorators: true },
            transform: TransformOptions {
                legacy_decorator: true,
                decorator_metadata: true,
                react: ReactOptions { classic_runtime: true, use_builtins: true, refresh: true },
            },
            target: c.target,
            keep_class_names: true,
        },
    }
}

/// The textual form of a boolean inside the options document.
pub open spec fn spec_bool_text(b: bool) -> Seq<char> {
    if b {
        "true"@
    } else {
        "false"@
    }
}

/// The textual form of the JSX runtime choice.
pub open spec fn spec_runtime_text(classic: bool) -> Seq<char> {
    if classic {
        "\"classic\""@
    } else {
        "\"automatic\""@
    }
}

/// The textual form of the mangle sub-document: an options object when
/// identifier renaming is on, the word `false` when it is off.
pub open spec fn spec_mangle_text(m: Option<MangleOptions>) -> Seq<char> {
    match m {
        Some(mg) => "{\"topLevel\":"@ + spec_bool_text(mg.top_level) + ",\"keepClassNames\":"@
            + spec_bool_text(mg.keep_class_names) + "}"@,
        None => "false"@,
    }
}

/// The textual form of the minify sub-document, trailing comma included.
pub open spec fn spec_minify_text(m: MinifyOptions) -> Seq<char> {
    "\"minify\":{\"compress\":{\"unused\":"@ + spec_bool_text(m.compress_unused)
        + ",\"dead_code\":"@ + spec_bool_text(m.compress_unused) + "},\"format\":{\"comments\":"@
        + spec_bool_text(m.emit_comments) + "},\"mangle\":"@ + spec_mangle_text(m.mangle) + "},"@
}

/// The textual form of the module sub-document, trailing comma included.
pub open spec fn spec_module_text(m: ModuleOptions) -> Seq<char> {
    "\"module\":{\"type\":\"es6\",\"strict\":"@ + spec_bool_text(m.strict) + ",\"strictMode\":"@
        + spec_bool_text(m.strict_mode) + ",\"lazy\":"@ + spec_bool_text(m.lazy)
        + ",\"noInterop\":"@ + spec_bool_text(m.no_interop) + ",\"ignoreDynamic\":"@
        + spec_bool_text(m.ignore_dynamic) + "},"@
}

/// The entire options document as text: what the backend is handed.
/// A pure function of the structured document, so identical configurations
/// and module decisions render to identical text.
pub open spec fn spec_options_text(o: BackendOptions) -> Seq<char> {
    let head = "{\"minify\":"@ + spec_bool_text(o.minify) + ",\"sourceMaps\":"@ + spec_bool_text(
        o.source_maps,
    ) + ","@;
    let with_module = match o.module {
        Some(m) => head + spec_module_text(m),
        None => head,
    };
    let jsc_open = with_module + "\"jsc\":{"@;
    let with_minify = match o.jsc.minify {
        Some(m) => jsc_open + spec_minify_text(m),
        None => jsc_open,
    };
    with_minify + "\"externalHelpers\":"@ + spec_bool_text(o.jsc.external_helpers)
        + ",\"parser\":{\"syntax\":\"typescript\",\"tsx\":"@ + spec_bool_text(o.jsc.parser.tsx)
        + ",\"decorators\":"@ + spec_bool_text(o.jsc.parser.decorators)
        + "},\"transform\":{\"legacyDecorator\":"@ + spec_bool_text(
        o.jsc.transform.legacy_decorator,
    ) + ",\"decoratorMetadata\":"@ + spec_bool_text(o.jsc.transform.decorator_metadata)
        + ",\"react\":{\"runtime\":"@ + spec_runtime_text(o.jsc.transform.react.classic_runtime)
        + ",\"useBuiltins\":"@ + spec_bool_text(o.jsc.transform.react.use_builtins)
        + ",\"refresh\":"@ + spec_bool_text(o.jsc.transform.react.refresh) + "}},\"target\":\""@
        + spec_target_text(o.jsc.target) + "\",\"keepClassNames\":"@ + spec_bool_text(
        o.jsc.keep_class_names,
    ) + "}}"@
}

/// The textual form of a boolean.
fn bool_text(b: bool) -> (r: &'static str)
    ensures
        r@ == spec_bool_text(b),
{
    if b {
        "true"
    } else {
        "false"
    }
}

/// Renders the module sub-document, trailing comma included.
fn render_module_text(m: &ModuleOptions) -> (r: String)
    ensures
        r@ == spec_module_text(*m),
{
    let mut out = String::from_str("\"module\":{\"type\":\"es6\",\"strict\":");
    out.append(bool_text(m.strict));
    out.append(",\"strictMode\":");
    out.append(bool_text(m.strict_mode));
    out.append(",\"lazy\":");
    out.append(bool_text(m.lazy));
    out.append(",\"noInterop\":");
    out.append(bool_text(m.no_interop));
    out.append(",\"ignoreDynamic\":");
    out.append(bool_text(m.ignore_dynamic));
    out.append("},");
    out
}

/// Renders the minify sub-document, trailing comma included.
fn render_minify_text(m: &MinifyOptions) -> (r: String)
    ensures
        r@ == spec_minify_text(*m),
{
    let mut out = String::from_str("\"minify\":{\"compress\":{\"unused\":");
    out.append(bool_text(m.compress_unused));
    out.append(",\"dead_code\":");
    out.append(bool_text(m.compress_unused));
    out.append("},\"format\":{\"comments\":");
    out.append(bool_text(m.emit_comments));
    out.append("},\"mangle\":");
    match &m.mangle {
        Some(mg) => {
            out.append("{\"topLevel\":");
            out.append(bool_text(mg.top_level));
            out.append(",\"keepClassNames\":");
            out.append(bool_text(mg.keep_class_names));
            out.append("}");
        },
        None => {
            out.append("false");
        },
    }
    out.append("},");
    out
}

/// Renders the structured options document into the exact text handed to the
/// compiler backend.
#[verifier::rlimit(30)]
pub fn render_options(o: &BackendOptions) -> (r: String)
    ensures
        r@ == spec_options_text(*o),
{
    let mut out = String::from_str("{\"minify\":");
    out.append(bool_text(o.minify));
    out.append(",\"sourceMaps\":");
    out.append(bool_text(o.source_maps));
    out.append(",");
    match &o.module {
        Some(m) => {
            let seg = render_module_text(m);
            out.append(seg.as_str());
        },
        None => {},
    }
    out.append("\"jsc\":{");
    match &o.jsc.minify {
        Some(m) => {
            let seg = render_minify_text(m);
            out.append(seg.as_str());
        },
        None => {},
    }
    out.append("\"externalHelpers\":");
    out.append(bool_text(o.jsc.external_helpers));
    out.append(",\"parser\":{\"syntax\":\"typescript\",\"tsx\":");
    out.append(bool_text(o.jsc.parser.tsx));
    out.append(",\"decorators\":");
    out.append(bool_text(o.jsc.parser.decorators));
    out.append("},\"transform\":{\"legacyDecorator\":");
    out.append(bool_text(o.jsc.transform.legacy_decorator));
    out.append(",\"decoratorMetadata\":");
    out.append(bool_text(o.jsc.transform.decorator_metadata));
    out.append(",\"react\":{\"runtime\":");
    if o.jsc.transform.react.classic_runtime {
        out.append("\"classic\"");
    } else {
        out.append("\"automatic\"");
    }
    out.append(",\"useBuiltins\":");
    out.append(bool_text(o.jsc.transform.react.use_builtins));
    out.append(",\"refresh\":");
    out.append(bool_text(o.jsc.transform.react.refresh));
    out.append("}},\"target\":\"");
    out.append(o.jsc.target.as_str());
    out.append("\",\"keepClassNames\":");
    out.append(bool_text(o.jsc.keep_class_names));
    out.append("}}");
    out
}

/// Law: assembly is deterministic. Identical configurations and identical
/// module decisions produce the same structured document and the same
/// rendered text.
pub proof fn lemma_assembly_deterministic(
    c1: Configuration,
    c2: Configuration,
    m1: bool,
    m2: bool,
)
    requires
        c1 == c2,
        m1 == m2,
    ensures
        spec_assemble(c1, m1) == spec_assemble(c2, m2),
        spec_options_text(spec_assemble(c1, m1)) == spec_options_text(spec_assemble(c2, m2)),
{
}

/// Law: without minification the assembled document omits the minify
/// sub-document entirely, whatever the mangle flag says; the mangle flag is
/// inert, and the rendered text does not depend on it.
pub proof fn lemma_mangle_inert_without_minify(c1: Configuration, c2: Configuration, m: bool)
    requires
        !c1.minify,
        c2 == (Configuration { mangle: c2.mangle, ..c1 }),
    ensures
        spec_assemble(c1, m).jsc.minify is None,
        spec_assemble(c2, m).jsc.minify is None,
        spec_options_text(spec_assemble(c1, m)) == spec_options_text(spec_assemble(c2, m)),
{
}

/// Law: whenever identifier renaming is enabled together with minification,
/// the assembled mangle sub-document keeps class names and leaves top-level
/// bindings alone, and the document as a whole preserves class names.
pub proof fn lemma_mangle_preserves_class_names(c: Configuration, m: bool)
    requires
        c.minify,
        c.mangle,
    ensures
        spec_assemble(c, m).jsc.keep_class_names,
        spec_assemble(c, m).jsc.minify matches Some(mi) && mi.mangle matches Some(mg)
            && mg.keep_class_names && !mg.top_level,
{
}

} // verus!
