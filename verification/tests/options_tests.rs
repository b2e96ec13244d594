use typescript_preprocessor::Configuration;
use typescript_preprocessor::TargetVersion;
use typescript_preprocessor::options::assemble;
use typescript_preprocessor::options::render_options;

#[test]
fn target_names() {
    assert_eq!(TargetVersion::Es3.as_str(), "es3");
    assert_eq!(TargetVersion::Es5.as_str(), "es5");
    assert_eq!(TargetVersion::Es2016.as_str(), "es2016");
    assert_eq!(TargetVersion::Es2020.as_str(), "es2020");
    // The two newest levels alias to es2020's representation.
    assert_eq!(TargetVersion::Es2021.as_str(), "es2020");
    assert_eq!(TargetVersion::Es2022.as_str(), "es2020");
}

#[test]
fn assembly_is_deterministic() {
    let c = Configuration {
        target: TargetVersion::Es2016,
        minify: true,
        mangle: true,
        external_helpers: false,
    };
    let first = render_options(&assemble(&c, true));
    let second = render_options(&assemble(&c, true));
    assert_eq!(first, second);
}

#[test]
fn plain_document_exact_text() {
    let c = Configuration {
        target: TargetVersion::Es2020,
        minify: false,
        mangle: false,
        external_helpers: true,
    };
    let text = render_options(&assemble(&c, false));
    assert_eq!(
        text,
        "{\"minify\":false,\"sourceMaps\":true,\"jsc\":{\"externalHelpers\":true,\
         \"parser\":{\"syntax\":\"typescript\",\"tsx\":true,\"decorators\":true},\
         \"transform\":{\"legacyDecorator\":true,\"decoratorMetadata\":true,\
         \"react\":{\"runtime\":\"classic\",\"useBuiltins\":true,\"refresh\":true}},\
         \"target\":\"es2020\",\"keepClassNames\":true}}"
    );
}

#[test]
fn full_document_exact_text() {
    let c = Configuration {
        target: TargetVersion::Es5,
        minify: true,
        mangle: true,
        external_helpers: false,
    };
    let text = render_options(&assemble(&c, true));
    assert_eq!(
        text,
        "{\"minify\":true,\"sourceMaps\":true,\
         \"module\":{\"type\":\"es6\",\"strict\":true,\"strictMode\":true,\"lazy\":false,\
         \"noInterop\":false,\"ignoreDynamic\":true},\
         \"jsc\":{\"minify\":{\"compress\":{\"unused\":true,\"dead_code\":true},\
         \"format\":{\"comments\":false},\
         \"mangle\":{\"topLevel\":false,\"keepClassNames\":true}},\"externalHelpers\":false,\
         \"parser\":{\"syntax\":\"typescript\",\"tsx\":true,\"decorators\":true},\
         \"transform\":{\"legacyDecorator\":true,\"decoratorMetadata\":true,\
         \"react\":{\"runtime\":\"classic\",\"useBuiltins\":true,\"refresh\":true}},\
         \"target\":\"es5\",\"keepClassNames\":true}}"
    );
}

#[test]
fn mangle_without_minify_is_inert() {
    let base = Configuration {
        target: TargetVersion::Es2020,
        minify: false,
        mangle: false,
        external_helpers: true,
    };
    let with_mangle = Configuration { mangle: true, ..base };
    let opts = assemble(&with_mangle, false);
    assert!(opts.jsc.minify.is_none());
    assert_eq!(
        render_options(&assemble(&base, false)),
        render_options(&assemble(&with_mangle, false))
    );
    assert!(!render_options(&opts).contains("\"mangle\""));
}

#[test]
fn mangle_document_keeps_class_names() {
    let c = Configuration {
        target: TargetVersion::Es2020,
        minify: true,
        mangle: true,
        external_helpers: true,
    };
    let opts = assemble(&c, false);
    let minify = opts.jsc.minify.expect("minify sub-document must be present");
    let mangle = minify.mangle.expect("mangle sub-document must be present");
    assert!(mangle.keep_class_names);
    assert!(!mangle.top_level);
    assert!(opts.jsc.keep_class_names);
}

#[test]
fn minify_without_mangle_renders_mangle_off() {
    let c = Configuration {
        target: TargetVersion::Es2020,
        minify: true,
        mangle: false,
        external_helpers: true,
    };
    let text = render_options(&assemble(&c, false));
    assert!(text.contains("\"mangle\":false"));
}

#[test]
fn unused_compression_follows_module_framing() {
    let c = Configuration {
        target: TargetVersion::Es2020,
        minify: true,
        mangle: false,
        external_helpers: true,
    };
    let as_module = assemble(&c, true);
    let as_script = assemble(&c, false);
    assert!(as_module.jsc.minify.expect("present").compress_unused);
    assert!(!as_script.jsc.minify.expect("present").compress_unused);
    assert!(as_module.module.is_some());
    assert!(as_script.module.is_none());
}

#[test]
fn rendered_document_is_valid_backend_configuration() {
    let configs = vec![
        Configuration {
            target: TargetVersion::Es3,
            minify: false,
            mangle: false,
            external_helpers: false,
        },
        Configuration {
            target: TargetVersion::Es2022,
            minify: true,
            mangle: true,
            external_helpers: true,
        },
        Configuration {
            target: TargetVersion::Es2016,
            minify: true,
            mangle: false,
            external_helpers: true,
        },
    ];
    for c in configs {
        for is_module in [false, true] {
            let text = render_options(&assemble(&c, is_module));
            let parsed: Result<swc::config::Config, _> = serde_json::from_str(&text);
            assert!(parsed.is_ok(), "backend rejected the document: {text}");
        }
    }
}
