use app_properties::declaration::{Annotation, Argument, Body, Declaration, Item, Shape};
use app_properties::descriptor::Descriptor;
use app_properties::extract::{ExtractError, Rejection};
use app_properties::generate::{error_type_code, generate, loader_impl_code, store};
use quote::ToTokens;

const SETTINGS_ERROR: &str = "#[derive(Debug, snafu::Snafu)]
pub enum SettingsError {
    #[snafu(display(\"AppPropertiesError: Unable to deserialize YAML string.\"))]
    DeserializeYaml {
        source: serde_yaml::Error,
        backtrace: snafu::Backtrace,
    }
}
";

const SETTINGS_IMPL: &str = "impl app_properties::AppPropertiesExt for Settings {
    type Error = SettingsError;

    #[tracing::instrument(level = \"info\", name = \"load_properties\")]
    fn load() -> Result<Self, Self::Error> {
        use snafu::ResultExt;

        tracing::info!(src_path = \"settings.yaml\", \"Using source\");
        let serialized = include_str!(\"settings.yaml\");
        let mut deserialized: RawSettings = serde_yaml::from_str(serialized)
            .context(DeserializeYamlSnafu {})?;
        Ok(deserialized.replace_env(replace_env::Metadata { secret: false }).into())
    }
}
";

fn settings() -> Descriptor {
    Descriptor::new("Settings", "settings.yaml").unwrap()
}

fn annotated(ident: &str, shape: Shape, items: Vec<Item>) -> Declaration {
    Declaration {
        ident: ident.to_string(),
        shape,
        annotations: vec![Annotation {
            path: "app_properties".to_string(),
            body: Body::Items(items),
        }],
    }
}

fn src(path: &str) -> Item {
    Item::Named { name: "src".to_string(), argument: Argument::Text(path.to_string()) }
}

fn flatten(stream: proc_macro2::TokenStream, into: &mut Vec<String>) {
    for tree in stream {
        match tree {
            proc_macro2::TokenTree::Group(group) => {
                into.push(format!("open {:?}", group.delimiter()));
                flatten(group.stream(), into);
                into.push(format!("close {:?}", group.delimiter()));
            }
            proc_macro2::TokenTree::Ident(ident) => into.push(ident.to_string()),
            proc_macro2::TokenTree::Punct(punct) => into.push(punct.as_char().to_string()),
            proc_macro2::TokenTree::Literal(literal) => into.push(literal.to_string()),
        }
    }
}

fn tokens(source: &str) -> Vec<String> {
    let mut found = Vec::new();
    flatten(source.parse::<proc_macro2::TokenStream>().unwrap(), &mut found);
    found
}

#[test]
fn error_type_is_written_out() {
    assert_eq!(error_type_code(&settings()), SETTINGS_ERROR);
}

#[test]
fn loader_impl_is_written_out() {
    assert_eq!(loader_impl_code(&settings()), SETTINGS_IMPL);
}

#[test]
fn loader_is_error_type_then_impl() {
    assert_eq!(generate(&settings()), format!("{}\n{}", SETTINGS_ERROR, SETTINGS_IMPL));
}

#[test]
fn loader_has_the_expected_tokens() {
    let expected = "# [derive (Debug , snafu :: Snafu)] pub enum ConfigError { \
        # [snafu (display (\"AppPropertiesError: Unable to deserialize YAML string.\"))] \
        DeserializeYaml { source : serde_yaml :: Error , backtrace : snafu :: Backtrace , } } \
        impl app_properties :: AppPropertiesExt for Config { type Error = ConfigError ; \
        # [tracing :: instrument (level = \"info\" , name = \"load_properties\")] \
        fn load () -> Result < Self , Self :: Error > { use snafu :: ResultExt ; \
        tracing :: info ! (src_path = \"conf/app.yaml\" , \"Using source\") ; \
        let serialized = include_str ! (\"conf/app.yaml\") ; \
        let mut deserialized : RawConfig = serde_yaml :: from_str (serialized) \
        . context (DeserializeYamlSnafu { }) ? ; \
        Ok (deserialized . replace_env (replace_env :: Metadata { secret : false }) . into ()) } }";
    let code = generate(&Descriptor::new("Config", "conf/app.yaml").unwrap());
    assert_eq!(tokens(&code), tokens(expected));
}

#[test]
fn loader_is_an_enum_and_an_impl() {
    let file = syn::parse_file(&generate(&settings())).unwrap();
    assert_eq!(file.items.len(), 2);
    match &file.items[0] {
        syn::Item::Enum(error) => {
            assert_eq!(error.ident, "SettingsError");
            assert!(matches!(error.vis, syn::Visibility::Public(_)));
            assert_eq!(error.variants.len(), 1);
            let variant = error.variants.first().unwrap();
            assert_eq!(variant.ident, "DeserializeYaml");
            let fields: Vec<String> =
                variant.fields.iter().map(|f| f.ident.as_ref().unwrap().to_string()).collect();
            assert_eq!(fields, vec!["source", "backtrace"]);
        }
        other => panic!("no enum: {:?}", other),
    }
    match &file.items[1] {
        syn::Item::Impl(loader) => {
            let (_, path, _) = loader.trait_.as_ref().unwrap();
            assert_eq!(path.to_token_stream().to_string(), "app_properties :: AppPropertiesExt");
            assert_eq!(loader.self_ty.to_token_stream().to_string(), "Settings");
            assert_eq!(loader.items.len(), 2);
            match &loader.items[0] {
                syn::ImplItem::Type(error) => {
                    assert_eq!(error.ident, "Error");
                    assert_eq!(error.ty.to_token_stream().to_string(), "SettingsError");
                }
                other => panic!("no type: {:?}", other),
            }
            match &loader.items[1] {
                syn::ImplItem::Fn(load) => {
                    assert_eq!(load.sig.ident, "load");
                    assert!(load.sig.inputs.is_empty());
                    assert_eq!(load.block.stmts.len(), 5);
                }
                other => panic!("no function: {:?}", other),
            }
        }
        other => panic!("no impl: {:?}", other),
    }
}

#[test]
fn loader_names_the_document_twice() {
    let path = "conf\\\"my\" settings.yaml";
    let code = generate(&Descriptor::new("Settings", path).unwrap());
    let file = syn::parse_file(&code).unwrap();
    let load = match &file.items[1] {
        syn::Item::Impl(loader) => match &loader.items[1] {
            syn::ImplItem::Fn(load) => load.clone(),
            other => panic!("no function: {:?}", other),
        },
        other => panic!("no impl: {:?}", other),
    };
    let mut documents = Vec::new();
    for statement in &load.block.stmts {
        let found = match statement {
            syn::Stmt::Macro(traced) => traced.mac.tokens.clone().into_iter().nth(2),
            syn::Stmt::Local(local) => match local.init.as_ref().map(|init| &*init.expr) {
                Some(syn::Expr::Macro(read)) => read.mac.tokens.clone().into_iter().next(),
                _ => None,
            },
            _ => None,
        };
        if let Some(proc_macro2::TokenTree::Literal(literal)) = found {
            documents.push(syn::parse_str::<syn::LitStr>(&literal.to_string()).unwrap().value());
        }
    }
    assert_eq!(documents, vec![path, path]);
}

fn load_of(code: &str) -> syn::ImplItemFn {
    let file = syn::parse_file(code).unwrap();
    match &file.items[1] {
        syn::Item::Impl(loader) => match &loader.items[1] {
            syn::ImplItem::Fn(load) => load.clone(),
            other => panic!("no function: {:?}", other),
        },
        other => panic!("no impl: {:?}", other),
    }
}

#[test]
fn load_records_the_path_first() {
    let load = load_of(&generate(&settings()));
    assert!(matches!(load.block.stmts[0], syn::Stmt::Item(syn::Item::Use(_))));
    match &load.block.stmts[1] {
        syn::Stmt::Macro(traced) => {
            assert_eq!(traced.mac.path.to_token_stream().to_string(), "tracing :: info");
            assert_eq!(
                tokens(&traced.mac.tokens.to_string()),
                tokens("src_path = \"settings.yaml\", \"Using source\"")
            );
        }
        other => panic!("no trace: {:?}", other),
    }
    assert_eq!(load.attrs.len(), 1);
    assert_eq!(
        tokens(&load.attrs[0].to_token_stream().to_string()),
        tokens("#[tracing::instrument(level = \"info\", name = \"load_properties\")]")
    );
}

#[test]
fn load_gives_up_where_the_document_does_not_parse() {
    let load = load_of(&generate(&settings()));
    let parsed = match &load.block.stmts[3] {
        syn::Stmt::Local(local) => {
            assert_eq!(local.pat.to_token_stream().to_string(), "mut deserialized : RawSettings");
            *local.init.as_ref().unwrap().expr.clone()
        }
        other => panic!("no binding: {:?}", other),
    };
    let wrapped = match parsed {
        syn::Expr::Try(attempt) => *attempt.expr,
        other => panic!("no `?`: {:?}", other),
    };
    match wrapped {
        syn::Expr::MethodCall(call) => {
            assert_eq!(call.method, "context");
            assert_eq!(
                tokens(&call.args.to_token_stream().to_string()),
                tokens("DeserializeYamlSnafu {}")
            );
            assert_eq!(
                tokens(&call.receiver.to_token_stream().to_string()),
                tokens("serde_yaml::from_str(serialized)")
            );
        }
        other => panic!("no call: {:?}", other),
    }
}

#[test]
fn load_ends_with_the_resolved_and_converted_value() {
    let load = load_of(&generate(&settings()));
    match &load.block.stmts[4] {
        syn::Stmt::Expr(result, None) => assert_eq!(
            tokens(&result.to_token_stream().to_string()),
            tokens(
                "Ok(deserialized.replace_env(replace_env::Metadata { secret: false }).into())"
            )
        ),
        other => panic!("no result: {:?}", other),
    }
    assert_eq!(
        tokens(&load.sig.to_token_stream().to_string()),
        tokens("fn load() -> Result<Self, Self::Error>")
    );
}

#[test]
fn loader_never_treats_values_as_secret() {
    for (ident, path) in [("Settings", "settings.yaml"), ("A", "b"), ("Secret", "secret: true")] {
        let code = generate(&Descriptor::new(ident, path).unwrap());
        assert_eq!(code.matches("replace_env::Metadata { secret: false }").count(), 1);
        assert!(!tokens(&code).contains(&"true".to_string()));
    }
}

#[test]
fn store_writes_the_loader_of_an_accepted_declaration() {
    let declaration = annotated("Settings", Shape::Struct, vec![src("settings.yaml")]);
    assert_eq!(store(&declaration), Ok(format!("{}\n{}", SETTINGS_ERROR, SETTINGS_IMPL)));
    assert_eq!(store(&declaration), Ok(generate(&settings())));
}

#[test]
fn store_writes_nothing_for_a_rejected_declaration() {
    let declaration = annotated("Settings", Shape::Struct, vec![]);
    assert_eq!(
        store(&declaration),
        Err(Rejection { ident: "Settings".to_string(), errors: vec![ExtractError::SourceMissing] })
    );
    let declaration = annotated(
        "Settings",
        Shape::Enum,
        vec![
            src("settings.yaml"),
            Item::Named { name: "secret".to_string(), argument: Argument::Word },
        ],
    );
    assert_eq!(
        store(&declaration),
        Err(Rejection {
            ident: "Settings".to_string(),
            errors: vec![
                ExtractError::UnknownOption("secret".to_string()),
                ExtractError::UnsupportedEnum
            ],
        })
    );
}

#[test]
fn store_gives_the_same_twice() {
    let declaration = annotated("Settings", Shape::Struct, vec![src("settings.yaml")]);
    assert_eq!(store(&declaration), store(&declaration));
}

#[test]
fn settings_with_timeout_document() {
    let declaration = annotated("Settings", Shape::Struct, vec![src("settings.yaml")]);
    let code = store(&declaration).unwrap();
    assert!(code.contains("pub enum SettingsError {"));
    assert!(code.contains("impl app_properties::AppPropertiesExt for Settings {"));
    assert!(code.contains("let serialized = include_str!(\"settings.yaml\");"));
    assert!(code.contains("let mut deserialized: RawSettings = serde_yaml::from_str(serialized)"));
    assert!(code.contains(".replace_env(replace_env::Metadata { secret: false }).into()"));
}
