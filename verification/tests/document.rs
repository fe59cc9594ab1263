use openrpsee::openrpc::is_false;
use openrpsee::openrpc::type_docs;
use openrpsee::openrpc::Components;
use openrpsee::openrpc::Generator;
use openrpsee::openrpc::Info;
use openrpsee::openrpc::Method;
use openrpsee::openrpc::OpenRpc;
use openrpsee::openrpc::RpcMethod;

struct SharedThing;

impl schemars::JsonSchema for SharedThing {
    fn schema_name() -> std::borrow::Cow<'static, str> {
        std::borrow::Cow::Borrowed("SharedThing")
    }

    fn json_schema(_g: &mut schemars::SchemaGenerator) -> schemars::Schema {
        schemars::Schema::default()
    }
}

struct BalanceResult;

impl documented::Documented for BalanceResult {
    const DOCS: &'static str = "The wallet's balance.\nIn atomic units.";
}

impl schemars::JsonSchema for BalanceResult {
    fn schema_name() -> std::borrow::Cow<'static, str> {
        std::borrow::Cow::Borrowed("BalanceResult")
    }

    fn json_schema(_g: &mut schemars::SchemaGenerator) -> schemars::Schema {
        schemars::Schema::default()
    }
}

#[test]
fn param_summary_multiline() {
    let g = Generator::new();
    let d = g.param(
        "minconf",
        "Minimum confirmations.\nDefaults to one.",
        false,
        schemars::Schema::default(),
    );
    assert_eq!(d.name, "minconf");
    assert_eq!(d.summary, "Minimum confirmations.");
    assert_eq!(d.description, "Minimum confirmations.\nDefaults to one.");
    assert!(!d.required);
    assert!(!d.deprecated);
}

#[test]
fn param_summary_single_line() {
    let g = Generator::new();
    let d = g.param("account", "The account name.", true, schemars::Schema::default());
    assert_eq!(d.summary, d.description);
    assert_eq!(d.summary, "The account name.");
    assert!(d.required);
}

#[test]
fn result_is_never_required() {
    let mut g = Generator::new();
    let schema = g.schema_for::<BalanceResult>();
    let docs = type_docs::<BalanceResult>();
    let d = g.result("get_balance_result", docs.as_str(), schema);
    assert_eq!(d.name, "get_balance_result");
    assert_eq!(d.summary, "The wallet's balance.");
    assert_eq!(d.description, "The wallet's balance.\nIn atomic units.");
    assert!(!d.required);
    assert!(!d.deprecated);
}

#[test]
fn shared_type_is_deduplicated() {
    let mut g = Generator::new();
    let s1 = g.schema_for::<SharedThing>();
    let s2 = g.schema_for::<SharedThing>();
    let d1 = g.param("first", "First use.", true, s1);
    let d2 = g.param("second", "Second use.", true, s2);
    assert_eq!(d1.schema, d2.schema);
    let components = g.into_components();
    assert_eq!(components.schemas.len(), 1);
    assert!(components.schemas.contains_key("SharedThing"));
}

#[test]
fn fresh_generator_has_no_components() {
    let g = Generator::new();
    let components = g.into_components();
    assert_eq!(components.schemas.len(), 0);
}

#[test]
fn generate_trims_and_summarizes() {
    let g = Generator::new();
    let param = g.param("account", "The account.", true, schemars::Schema::default());
    let result = g.result("get_balance_result", "The balance.", schemars::Schema::default());
    let m = RpcMethod {
        description: "  Gets balance.\nMore detail.  ".to_string(),
        params: vec![param],
        result,
        deprecated: true,
    }
    .generate("get_balance".to_string());
    assert_eq!(m.name, "get_balance");
    assert_eq!(m.description, "Gets balance.\nMore detail.");
    assert_eq!(m.summary, "Gets balance.");
    assert_eq!(m.params.len(), 1);
    assert_eq!(m.params[0].name, "account");
    assert_eq!(m.result.name, "get_balance_result");
    assert!(m.deprecated);
}

#[test]
fn document_assembly() {
    let mut g = Generator::new();
    let schema = g.schema_for::<BalanceResult>();
    let docs = type_docs::<BalanceResult>();
    let result = g.result("get_balance_result", docs.as_str(), schema);
    let m: Method = RpcMethod {
        description: "Gets balance.".to_string(),
        params: vec![],
        result,
        deprecated: false,
    }
    .generate("get_balance".to_string());
    let components: Components = g.into_components();
    let doc = OpenRpc {
        openrpc: "1.3.2".to_string(),
        info: Info {
            title: "Wallet RPC".to_string(),
            description: "A wallet API.".to_string(),
            version: "0.1.0".to_string(),
        },
        methods: vec![m],
        components,
    };
    assert_eq!(doc.methods.len(), 1);
    assert_eq!(doc.methods[0].summary, "Gets balance.");
    assert_eq!(doc.info.title, "Wallet RPC");
    assert!(doc.components.schemas.contains_key("BalanceResult"));
}

#[test]
fn generate_trims_unicode_whitespace() {
    let g = Generator::new();
    let result = g.result("r", "The result.", schemars::Schema::default());
    let m = RpcMethod {
        description: "\u{b}\u{a0}Gets balance.\u{2028}".to_string(),
        params: vec![],
        result,
        deprecated: false,
    }
    .generate("get_balance".to_string());
    assert_eq!(m.description, "Gets balance.");
    assert_eq!(m.summary, "Gets balance.");
}

#[test]
fn is_false_inverts() {
    assert!(is_false(&false));
    assert!(!is_false(&true));
}
