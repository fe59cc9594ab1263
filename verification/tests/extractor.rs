use openrpsee::ast::Attribute;
use openrpsee::ast::FnArg;
use openrpsee::ast::MethodDecl;
use openrpsee::ast::PathSeg;
use openrpsee::ast::Pattern;
use openrpsee::ast::ReturnType;
use openrpsee::ast::SegArgs;
use openrpsee::ast::SourceFile;
use openrpsee::ast::TraitDecl;
use openrpsee::ast::TypeArg;
use openrpsee::ast::TypeExpr;
use openrpsee::ast::TypePath;
use openrpsee::extract::extract_entries;
use openrpsee::extract::generate_methods_table;
use openrpsee::extract::ExtractError;

fn named_path(segments: &[&str], rendered: &str) -> TypeExpr {
    TypeExpr::Path {
        path: TypePath {
            leading_colon: false,
            segments: segments
                .iter()
                .map(|s| PathSeg { ident: s.to_string(), args: SegArgs::Bare })
                .collect(),
        },
        rendered: rendered.to_string(),
    }
}

fn option_of(inner: &str) -> TypeExpr {
    TypeExpr::Path {
        path: TypePath {
            leading_colon: false,
            segments: vec![PathSeg {
                ident: "Option".to_string(),
                args: SegArgs::Angled(vec![TypeArg::TypeValue(inner.to_string())]),
            }],
        },
        rendered: format!("Option < {} >", inner),
    }
}

fn vec_of(inner: &str) -> TypeExpr {
    TypeExpr::Path {
        path: TypePath {
            leading_colon: false,
            segments: vec![PathSeg {
                ident: "Vec".to_string(),
                args: SegArgs::Angled(vec![TypeArg::TypeValue(inner.to_string())]),
            }],
        },
        rendered: format!("Vec < {} >", inner),
    }
}

fn typed(name: &str, ty: TypeExpr) -> FnArg {
    FnArg::Typed { pat: Pattern::IdentPat(name.to_string()), ty }
}

fn doc(line: &str) -> Attribute {
    Attribute::Doc(line.to_string())
}

fn command(name: &str) -> Attribute {
    Attribute::Command(name.to_string())
}

fn ret(module: &str) -> ReturnType {
    ReturnType::Typed(named_path(
        &[module, "ResultType"],
        &format!("{} :: ResultType", module),
    ))
}

fn group(name: &str, methods: Vec<MethodDecl>) -> SourceFile {
    SourceFile {
        traits: vec![TraitDecl { ident: name.to_string(), methods }],
    }
}

fn names(list: &[&str]) -> Vec<String> {
    list.iter().map(|s| s.to_string()).collect()
}

fn balance_scenario() -> (SourceFile, Vec<String>) {
    let method = MethodDecl {
        attrs: vec![
            doc(" Gets balance."),
            doc(" More detail."),
            command("get_balance"),
        ],
        inputs: vec![
            FnArg::Receiver,
            typed("account", named_path(&["String"], "String")),
            typed("minconf", option_of("u32")),
        ],
        output: ret("wallet"),
    };
    (group("WalletRpc", vec![method]), names(&["WalletRpc"]))
}

#[test]
fn balance_end_to_end_table() {
    let (src, requested) = balance_scenario();
    let table = generate_methods_table(&src, &requested).unwrap();
    let mut expected = String::new();
    expected.push_str("/// Lookup table for JSON-RPC methods.\n");
    expected.push_str("#[allow(unused_qualifications)]\n");
    expected.push_str("pub static METHODS: ::phf::Map<&str, RpcMethod> = ::phf::phf_map! {\n");
    expected.push_str("\"get_balance\" => RpcMethod {\n");
    expected.push_str("    description: \"Gets balance.\\nMore detail.\\n\",\n");
    expected.push_str("    params: |_g| vec![\n");
    expected.push_str(
        "        _g.param::<String>(\"account\", crate::methods::PARAM_ACCOUNT_DESC, true),\n",
    );
    expected.push_str(
        "        _g.param::<u32>(\"minconf\", crate::methods::PARAM_MINCONF_DESC, false),\n",
    );
    expected.push_str("    ],\n");
    expected.push_str(
        "    result: |g| g.result::<openrpsee::openrpc::ResultType>(\"get_balance_result\"),\n",
    );
    expected.push_str("    deprecated: false,\n");
    expected.push_str("},\n");
    expected.push_str("};");
    assert_eq!(table, expected);
}

#[test]
fn balance_entry_fields() {
    let (src, requested) = balance_scenario();
    let entries = extract_entries(&src, &requested).unwrap();
    assert_eq!(entries.len(), 1);
    let e = &entries[0];
    assert_eq!(e.command, "get_balance");
    assert!(e.description.starts_with("Gets balance.\\nMore detail."));
    assert_eq!(e.module, "wallet");
    assert!(!e.deprecated);
    assert_eq!(e.params.len(), 2);
    assert_eq!(e.params[0].name, "account");
    assert_eq!(e.params[0].schema_ty, "String");
    assert_eq!(e.params[0].required, Some(true));
    assert_eq!(e.params[1].name, "minconf");
    assert_eq!(e.params[1].schema_ty, "u32");
    assert_eq!(e.params[1].required, Some(false));
}

#[test]
fn methods_without_command_are_omitted() {
    let documented_only = MethodDecl {
        attrs: vec![doc(" Internal helper.")],
        inputs: vec![FnArg::Receiver],
        output: ret("wallet"),
    };
    let tagged = MethodDecl {
        attrs: vec![doc(" Ping."), command("ping")],
        inputs: vec![FnArg::Receiver],
        output: ret("control"),
    };
    let src = group("NodeRpc", vec![documented_only, tagged]);
    let entries = extract_entries(&src, &names(&["NodeRpc"])).unwrap();
    assert_eq!(entries.len(), 1);
    assert_eq!(entries[0].command, "ping");
}

#[test]
fn extraction_is_idempotent() {
    let (src1, names1) = balance_scenario();
    let (src2, names2) = balance_scenario();
    let first = generate_methods_table(&src1, &names1).unwrap();
    let second = generate_methods_table(&src2, &names2).unwrap();
    assert_eq!(first.into_bytes(), second.into_bytes());
}

#[test]
fn optionality_inference() {
    let method = MethodDecl {
        attrs: vec![doc(" Sends coins."), command("send")],
        inputs: vec![
            FnArg::Receiver,
            typed("amount", named_path(&["u64"], "u64")),
            typed("memo", option_of("String")),
            typed("addrs", vec_of("String")),
        ],
        output: ret("wallet"),
    };
    let src = group("WalletRpc", vec![method]);
    let entries = extract_entries(&src, &names(&["WalletRpc"])).unwrap();
    let params = &entries[0].params;
    assert_eq!(params[0].required, Some(true));
    assert_eq!(params[0].schema_ty, "u64");
    assert_eq!(params[1].required, Some(false));
    assert_eq!(params[1].schema_ty, "String");
    assert_eq!(params[2].required, None);
    assert_eq!(params[2].schema_ty, "Vec < String >");
    let table = generate_methods_table(&src, &names(&["WalletRpc"])).unwrap();
    assert!(table.contains(
        "_g.param::<Vec < String >>(\"addrs\", crate::methods::PARAM_ADDRS_DESC, self::wallet::PARAM_ADDRS_REQUIRED)"
    ));
    assert!(table.contains("_g.param::<u64>(\"amount\", crate::methods::PARAM_AMOUNT_DESC, true)"));
}

#[test]
fn secret_string_is_substituted() {
    let method = MethodDecl {
        attrs: vec![command("unlock")],
        inputs: vec![
            FnArg::Receiver,
            typed(
                "passphrase",
                named_path(
                    &["age", "secrecy", "SecretString"],
                    "age :: secrecy :: SecretString",
                ),
            ),
            typed("maybe", option_of("age :: secrecy :: SecretString")),
        ],
        output: ret("wallet"),
    };
    let src = group("WalletRpc", vec![method]);
    let entries = extract_entries(&src, &names(&["WalletRpc"])).unwrap();
    let params = &entries[0].params;
    assert_eq!(params[0].schema_ty, "String");
    assert_eq!(params[0].required, Some(true));
    assert_eq!(params[1].schema_ty, "String");
    assert_eq!(params[1].required, Some(false));
}

#[test]
fn non_identifier_parameters_are_skipped() {
    let method = MethodDecl {
        attrs: vec![command("probe")],
        inputs: vec![
            FnArg::Receiver,
            FnArg::Typed {
                pat: Pattern::OtherPat,
                ty: named_path(&["u32"], "u32"),
            },
            typed("kept", named_path(&["bool"], "bool")),
        ],
        output: ret("control"),
    };
    let src = group("NodeRpc", vec![method]);
    let entries = extract_entries(&src, &names(&["NodeRpc"])).unwrap();
    assert_eq!(entries[0].params.len(), 1);
    assert_eq!(entries[0].params[0].name, "kept");
}

#[test]
fn missing_group_aborts_with_its_name() {
    let (src, _) = balance_scenario();
    let err = extract_entries(&src, &names(&["WalletRpc", "AbsentRpc"])).unwrap_err();
    match err {
        ExtractError::MissingTrait(name) => assert_eq!(name, "AbsentRpc"),
        _ => panic!("expected a missing-group error"),
    }
}

#[test]
fn duplicate_command_is_a_build_error() {
    let first = MethodDecl {
        attrs: vec![command("ping")],
        inputs: vec![FnArg::Receiver],
        output: ret("control"),
    };
    let second = MethodDecl {
        attrs: vec![command("ping")],
        inputs: vec![FnArg::Receiver],
        output: ret("control"),
    };
    let src = group("NodeRpc", vec![first, second]);
    let err = extract_entries(&src, &names(&["NodeRpc"])).unwrap_err();
    match err {
        ExtractError::DuplicateCommand(name) => assert_eq!(name, "ping"),
        _ => panic!("expected a duplicate-command error"),
    }
}

#[test]
fn unresolvable_return_type_is_fatal() {
    let method = MethodDecl {
        attrs: vec![command("ping")],
        inputs: vec![FnArg::Receiver],
        output: ReturnType::DefaultReturn,
    };
    let src = group("NodeRpc", vec![method]);
    let err = extract_entries(&src, &names(&["NodeRpc"])).unwrap_err();
    match err {
        ExtractError::MissingReturnPath(name) => assert_eq!(name, "ping"),
        _ => panic!("expected a return-type error"),
    }
}

#[test]
fn optional_without_argument_is_fatal() {
    let empty_option = TypeExpr::Path {
        path: TypePath {
            leading_colon: false,
            segments: vec![PathSeg {
                ident: "Option".to_string(),
                args: SegArgs::Angled(vec![]),
            }],
        },
        rendered: "Option < >".to_string(),
    };
    let method = MethodDecl {
        attrs: vec![command("ping")],
        inputs: vec![FnArg::Receiver, typed("broken", empty_option)],
        output: ret("control"),
    };
    let src = group("NodeRpc", vec![method]);
    let err = extract_entries(&src, &names(&["NodeRpc"])).unwrap_err();
    match err {
        ExtractError::MissingOptionalArgument(name) => assert_eq!(name, "broken"),
        _ => panic!("expected a missing-argument error"),
    }
}

#[test]
fn malformed_optional_is_fatal() {
    let bare_option = TypeExpr::Path {
        path: TypePath {
            leading_colon: false,
            segments: vec![PathSeg {
                ident: "Option".to_string(),
                args: SegArgs::Bare,
            }],
        },
        rendered: "Option".to_string(),
    };
    let method = MethodDecl {
        attrs: vec![command("ping")],
        inputs: vec![FnArg::Receiver, typed("broken", bare_option)],
        output: ret("control"),
    };
    let src = group("NodeRpc", vec![method]);
    let err = extract_entries(&src, &names(&["NodeRpc"])).unwrap_err();
    match err {
        ExtractError::MalformedOptional(name) => assert_eq!(name, "broken"),
        _ => panic!("expected a malformed-optional error"),
    }
}

#[test]
fn doc_lines_are_escaped_and_space_stripped() {
    let method = MethodDecl {
        attrs: vec![
            doc(" Says \"hi\" with a \\ backslash."),
            doc(""),
            doc("  double space keeps one."),
            command("hello"),
        ],
        inputs: vec![FnArg::Receiver],
        output: ret("control"),
    };
    let src = group("NodeRpc", vec![method]);
    let entries = extract_entries(&src, &names(&["NodeRpc"])).unwrap();
    assert_eq!(
        entries[0].description,
        "Says \\\"hi\\\" with a \\\\ backslash.\\n\\n double space keeps one.\\n"
    );
}

#[test]
fn control_and_non_ascii_doc_characters_get_unicode_escapes() {
    let method = MethodDecl {
        attrs: vec![doc(" bell\u{1} caf\u{e9} \u{1f600}"), command("hello")],
        inputs: vec![FnArg::Receiver],
        output: ret("control"),
    };
    let src = group("NodeRpc", vec![method]);
    let entries = extract_entries(&src, &names(&["NodeRpc"])).unwrap();
    assert_eq!(entries[0].description, "bell\\u{1} caf\\u{e9} \\u{1f600}\\n");
}

#[test]
fn deprecation_marker_is_carried() {
    let method = MethodDecl {
        attrs: vec![command("old_call"), Attribute::Deprecated],
        inputs: vec![FnArg::Receiver],
        output: ret("control"),
    };
    let src = group("NodeRpc", vec![method]);
    let entries = extract_entries(&src, &names(&["NodeRpc"])).unwrap();
    assert!(entries[0].deprecated);
    let table = generate_methods_table(&src, &names(&["NodeRpc"])).unwrap();
    assert!(table.contains("    deprecated: true,\n"));
}
