use typescript_preprocessor::SourceUnit;
use typescript_preprocessor::TargetVersion;
use typescript_preprocessor::TransformErrorKind;
use typescript_preprocessor::TypeScriptPreProcessor;

#[test]
fn suffix_gate_leaves_other_units_untouched() {
    let pp = TypeScriptPreProcessor::default();
    let code = "let x: NotEvenValidJs = = =;";
    let mut unit = SourceUnit::new(String::from("plain.js"), String::from(code));
    let r = pp.process(&mut unit);
    assert!(r.is_ok());
    assert_eq!(unit.get_code(), code);
    assert_eq!(unit.get_path(), "plain.js");
}

#[test]
fn type_erasure_strips_annotations() {
    let pp = TypeScriptPreProcessor::new(TargetVersion::Es2020, false, true, false);
    let source = "(function(a: Number, b, c) {let d: String = 'abc'; return(a);}(1, 2, 3))";
    let (code, _map) = pp
        .transpile(source, "erase.ts", false)
        .expect("plain type-annotated source must transpile");
    assert!(!code.is_empty());
    assert_ne!(code, source);
    assert!(!code.contains(": Number"));
    assert!(!code.contains(": String"));
    assert!(code.contains("return"));
}

#[test]
fn transpile_is_repeatable() {
    let pp = TypeScriptPreProcessor::new(TargetVersion::Es5, true, true, true);
    let source = "export class Greeter {who: string; constructor(who) {this.who = who;} greet() {return 'hi ' + this.who;}}";
    let first = pp.transpile(source, "rep.ts", true).expect("must transpile");
    let second = pp.transpile(source, "rep.ts", true).expect("must transpile");
    assert_eq!(first.0, second.0);
}

#[test]
fn failure_leaves_payload_unchanged() {
    let pp = TypeScriptPreProcessor::default();
    let bad = "function broken( { return 1;";
    let mut unit = SourceUnit::new(String::from("broken.ts"), String::from(bad));
    let r = pp.process(&mut unit);
    let err = r.expect_err("unbalanced source must be rejected");
    assert!(!err.message.is_empty());
    assert_eq!(err.kind, TransformErrorKind::CompileFailed);
    assert_eq!(unit.get_code(), bad);
    assert_eq!(unit.get_path(), "broken.ts");
}

#[test]
fn mangling_preserves_top_level_class_names() {
    let pp = TypeScriptPreProcessor::new(TargetVersion::Es2020, true, true, true);
    let source = "function functWithLongName(abc) {return abc + 1;};export class /* hi */ MyClass {name: string; sum: number; constructor(name) {this.name = name; this.sum = functWithLongName(1);} getIt() {return (this.name + ' is gotten');}}";
    let mut unit = SourceUnit::new(String::from("keep_class.ts"), String::from(source));
    pp.process(&mut unit).expect("class source must transpile");
    assert!(unit.get_code().contains("MyClass"));
}

#[test]
fn minified_output_drops_comments() {
    let pp = TypeScriptPreProcessor::new(TargetVersion::Es2020, true, false, false);
    let source = "/* a noisy comment */ function f(a: Number) {return a;}";
    let (code, _map) = pp.transpile(source, "comments.ts", false).expect("must transpile");
    assert!(!code.contains("noisy comment"));
}

#[test]
fn source_map_is_produced() {
    let pp = TypeScriptPreProcessor::default();
    let (_code, map) = pp
        .transpile("let a: Number = 1;", "mapped.ts", false)
        .expect("must transpile");
    assert!(map.is_some());
    assert!(!map.unwrap().is_empty());
}

#[test]
fn test_mts() {
    let pp = TypeScriptPreProcessor::new(TargetVersion::Es2020, true, true, true);
    let inputs = vec![
        SourceUnit::new(
            String::from("export_class_test.ts"),
            String::from("function functWithLongName(abc) {return abc + 1;};export class /* hi */ MyClass {name: string; sum: number; constructor(name) {this.name = name; this.sum = functWithLongName(1);} getIt() {return (this.name + ' is gotten');}}"),
        ),
        SourceUnit::new(
            String::from("import_test.ts"),
            String::from("import {MyClass} from 'export_class_test.ts'; \n{let b: Number = MyClass.quibus;}\n export function q(val: Number) {let mc = new MyClass(); return mc.sum + mc.getIt();};"),
        ),
        SourceUnit::new(
            String::from("not_a_module.ts"),
            String::from("async function test() {let m = await import('export_class_test.ts'); let mc = new m.MyClass(); console.log(m.getIt());}"),
        ),
        SourceUnit::new(
            String::from("ssr.ts"),
            String::from(r#"
                    import {React, Component } from 'react';
                    import Button from './Button'; // Import a component from another file
                    /*
                     hello
                     */
                    class DangerButton extends Component {
                      async render(): void {
                        let id = new Date().getTime();
                        return <i><Button color="red" hid={id} /><Button color="blue" hud={id} /></i>;
                      }
                      async render2(): void {
                        return <div />;
                      }
                    }

                    export default DangerButton;
                 "#),
        ),
        SourceUnit::new(
            String::from("deco.ts"),
            String::from(r#"

                    function profile(target) {
                        const start = Date.now();
                        const ret = target();
                        const end = Date.now();
                        console.log("%s took %sms", target.name, end - start);
                        return ret;
                    }

                    @profile
                    export function doSomething() {
                        console.log("hi");
                    }
                 "#),
        ),
    ];

    for mut input in inputs {
        match pp.process(&mut input) {
            Ok(_) => {
                assert!(!input.get_code().is_empty());
                println!(
                    "{}\n-------------\n{}\n---------------\n",
                    input.get_path(),
                    input.get_code()
                );
            }
            Err(err) => {
                panic!("{}:\n-------------\n{}", input.get_path(), err.message);
            }
        }
    }
}
