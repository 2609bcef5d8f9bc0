use next_transforms::conditions::{evaluate, ReferenceKind, ResourceFact};
use next_transforms::context::{
    ClientContextType, PageSsrType, ServerContextType, SharedContextType,
};
use next_transforms::paths::FsPath;
use next_transforms::rules::{ModuleRule, NextJsPageExportFilter, TransformSpec};
use next_transforms::transforms::{
    default_font_loaders, get_next_dynamic_transform_rule, get_next_font_transform_rule,
    get_next_pages_transforms_rule, get_next_transforms_rules, PagesDirJoins,
    PathResolutionFailure,
};

fn path(s: &str) -> FsPath {
    FsPath::new(s.as_bytes().to_vec())
}

fn fact(p: &str, reference: ReferenceKind) -> ResourceFact {
    ResourceFact { path: path(p), reference }
}

fn joins(root: &str) -> PagesDirJoins {
    PagesDirJoins {
        api_dir: Ok(path(&format!("{root}/api"))),
        document_js: Ok(path(&format!("{root}/_document.js"))),
        document_jsx: Ok(path(&format!("{root}/_document.jsx"))),
        document_ts: Ok(path(&format!("{root}/_document.ts"))),
        document_tsx: Ok(path(&format!("{root}/_document.tsx"))),
    }
}

fn all_failed_joins(code: u64) -> PagesDirJoins {
    PagesDirJoins {
        api_dir: Err(PathResolutionFailure { code }),
        document_js: Err(PathResolutionFailure { code: code + 1 }),
        document_jsx: Err(PathResolutionFailure { code: code + 2 }),
        document_ts: Err(PathResolutionFailure { code: code + 3 }),
        document_tsx: Err(PathResolutionFailure { code: code + 4 }),
    }
}

fn is_dynamic_effect(rule: &ModuleRule, is_server: bool, is_server_components: bool, pages_dir: Option<&str>) -> bool {
    rule.effects.len() == 1
        && match &rule.effects[0] {
            TransformSpec::NextJsDynamic {
                is_development,
                is_server: server,
                is_server_components: components,
                pages_dir: pd,
            } => {
                *is_development
                    && *server == is_server
                    && *components == is_server_components
                    && *pd == pages_dir.map(path)
            },
            _ => false,
        }
}

fn is_strip_effect(rule: &ModuleRule, filter: NextJsPageExportFilter) -> bool {
    rule.effects.len() == 1
        && rule.effects[0] == TransformSpec::NextJsStripPageExports(filter)
}

fn is_font_effect(rule: &ModuleRule) -> bool {
    rule.effects.len() == 1
        && match &rule.effects[0] {
            TransformSpec::NextJsFont(loaders) => {
                loaders == &vec!["@next/font/google".as_bytes().to_vec()]
            },
            _ => false,
        }
}

#[test]
fn server_pages_ssr_row() {
    let ctx = SharedContextType::Server(ServerContextType::Pages {
        pages_dir: path("/pages"),
        ssr_type: PageSsrType::Ssr,
    });
    let rules = get_next_transforms_rules(&ctx, &joins("/pages"), default_font_loaders()).unwrap();
    assert_eq!(rules.len(), 1);
    assert!(is_dynamic_effect(&rules[0], true, false, Some("/pages")));
}

#[test]
fn server_pages_ssr_data_row() {
    let ctx = SharedContextType::Server(ServerContextType::Pages {
        pages_dir: path("/pages"),
        ssr_type: PageSsrType::SsrData,
    });
    let rules = get_next_transforms_rules(&ctx, &joins("/pages"), default_font_loaders()).unwrap();
    assert_eq!(rules.len(), 2);
    assert!(is_dynamic_effect(&rules[0], true, false, Some("/pages")));
    assert!(is_strip_effect(&rules[1], NextJsPageExportFilter::StripDefaultExport));
}

#[test]
fn server_app_ssr_row() {
    let ctx = SharedContextType::Server(ServerContextType::AppSSR);
    let rules = get_next_transforms_rules(&ctx, &joins("/pages"), default_font_loaders()).unwrap();
    assert_eq!(rules.len(), 1);
    assert!(is_dynamic_effect(&rules[0], true, false, None));
}

#[test]
fn server_app_rsc_row() {
    let ctx = SharedContextType::Server(ServerContextType::AppRSC);
    let rules = get_next_transforms_rules(&ctx, &joins("/pages"), default_font_loaders()).unwrap();
    assert_eq!(rules.len(), 1);
    assert!(is_dynamic_effect(&rules[0], true, true, None));
}

#[test]
fn client_pages_row_order_is_font_strip_dynamic() {
    let ctx = SharedContextType::Client(ClientContextType::Pages { pages_dir: path("/pages") });
    let rules = get_next_transforms_rules(&ctx, &joins("/pages"), default_font_loaders()).unwrap();
    assert_eq!(rules.len(), 3);
    assert!(is_font_effect(&rules[0]));
    assert!(is_strip_effect(&rules[1], NextJsPageExportFilter::StripDataExports));
    assert!(is_dynamic_effect(&rules[2], false, false, Some("/pages")));
}

#[test]
fn client_other_rows() {
    for ctx in [
        SharedContextType::Client(ClientContextType::App),
        SharedContextType::Client(ClientContextType::Fallback),
        SharedContextType::Client(ClientContextType::Other),
    ] {
        let rules =
            get_next_transforms_rules(&ctx, &joins("/pages"), default_font_loaders()).unwrap();
        assert_eq!(rules.len(), 2);
        assert!(is_font_effect(&rules[0]));
        assert!(is_dynamic_effect(&rules[1], false, false, None));
    }
}

#[test]
fn selection_is_deterministic() {
    let ctx = SharedContextType::Client(ClientContextType::Pages { pages_dir: path("/pages") });
    let first = get_next_transforms_rules(&ctx, &joins("/pages"), default_font_loaders());
    let second = get_next_transforms_rules(&ctx, &joins("/pages"), default_font_loaders());
    assert_eq!(first, second);
}

#[test]
fn api_directory_candidates_do_not_match_strip_rule() {
    let rule = get_next_pages_transforms_rule(
        &path("/pages"),
        &joins("/pages"),
        NextJsPageExportFilter::StripDataExports,
    )
    .unwrap();
    assert!(!evaluate(&rule.condition, &fact("/pages/api/hello.ts", ReferenceKind::Module)));
    assert!(evaluate(&rule.condition, &fact("/pages/about.tsx", ReferenceKind::Module)));
}

#[test]
fn document_files_never_match_strip_rule() {
    let rule = get_next_pages_transforms_rule(
        &path("/pages"),
        &joins("/pages"),
        NextJsPageExportFilter::StripDefaultExport,
    )
    .unwrap();
    for doc in [
        "/pages/_document.js",
        "/pages/_document.jsx",
        "/pages/_document.ts",
        "/pages/_document.tsx",
    ] {
        assert!(!evaluate(&rule.condition, &fact(doc, ReferenceKind::Module)));
    }
}

#[test]
fn strip_rule_needs_script_extension_and_scope() {
    let rule = get_next_pages_transforms_rule(
        &path("/pages"),
        &joins("/pages"),
        NextJsPageExportFilter::StripDataExports,
    )
    .unwrap();
    assert!(!evaluate(&rule.condition, &fact("/pages/styles.css", ReferenceKind::Module)));
    assert!(!evaluate(&rule.condition, &fact("/lib/about.tsx", ReferenceKind::Module)));
    assert!(evaluate(&rule.condition, &fact("/pages/sub/page.jsx", ReferenceKind::Module)));
}

#[test]
fn url_references_never_match_dynamic_or_font_rules() {
    let dynamic = get_next_dynamic_transform_rule(true, true, false, None);
    let font = get_next_font_transform_rule(default_font_loaders());
    let url = fact("/pages/a.ts", ReferenceKind::UrlUndefined);
    assert!(!evaluate(&dynamic.condition, &url));
    assert!(!evaluate(&font.condition, &url));
    let module = fact("/pages/a.ts", ReferenceKind::Module);
    assert!(evaluate(&dynamic.condition, &module));
    assert!(evaluate(&font.condition, &module));
}

#[test]
fn extension_gate_admits_each_script_extension() {
    let dynamic = get_next_dynamic_transform_rule(true, false, false, None);
    for ok in ["/a.js", "/a.jsx", "/a.ts", "/a.tsx"] {
        assert!(evaluate(&dynamic.condition, &fact(ok, ReferenceKind::Module)));
    }
    assert!(!evaluate(&dynamic.condition, &fact("/a.css", ReferenceKind::Module)));
    assert!(!evaluate(&dynamic.condition, &fact("/a.mjs", ReferenceKind::Module)));
}

#[test]
fn failed_join_fails_ssr_data_selection() {
    let ctx = SharedContextType::Server(ServerContextType::Pages {
        pages_dir: path("/pages"),
        ssr_type: PageSsrType::SsrData,
    });
    let err = get_next_transforms_rules(&ctx, &all_failed_joins(7), default_font_loaders())
        .unwrap_err();
    assert_eq!(err, PathResolutionFailure { code: 7 });
}

#[test]
fn failed_join_fails_client_pages_selection() {
    let ctx = SharedContextType::Client(ClientContextType::Pages { pages_dir: path("/pages") });
    let mut j = joins("/pages");
    j.document_ts = Err(PathResolutionFailure { code: 42 });
    let err = get_next_transforms_rules(&ctx, &j, default_font_loaders()).unwrap_err();
    assert_eq!(err, PathResolutionFailure { code: 42 });
}

#[test]
fn first_failed_join_wins() {
    let root = "/pages";
    let mut j = joins(root);
    j.document_jsx = Err(PathResolutionFailure { code: 2 });
    j.document_tsx = Err(PathResolutionFailure { code: 5 });
    let err = get_next_pages_transforms_rule(
        &path(root),
        &j,
        NextJsPageExportFilter::StripDataExports,
    )
    .unwrap_err();
    assert_eq!(err, PathResolutionFailure { code: 2 });
}

#[test]
fn contexts_without_derived_paths_ignore_failed_joins() {
    for ctx in [
        SharedContextType::Server(ServerContextType::Pages {
            pages_dir: path("/pages"),
            ssr_type: PageSsrType::Ssr,
        }),
        SharedContextType::Server(ServerContextType::AppSSR),
        SharedContextType::Server(ServerContextType::AppRSC),
        SharedContextType::Client(ClientContextType::Fallback),
    ] {
        let r = get_next_transforms_rules(&ctx, &all_failed_joins(9), default_font_loaders());
        assert!(r.is_ok());
    }
}

#[test]
fn default_font_loaders_holds_the_google_loader() {
    let loaders = default_font_loaders();
    assert_eq!(loaders, vec!["@next/font/google".as_bytes().to_vec()]);
}

#[test]
fn font_rule_carries_configured_loaders_in_order() {
    let configured = vec![
        "@next/font/google".as_bytes().to_vec(),
        "@next/font/local".as_bytes().to_vec(),
    ];
    let rule = get_next_font_transform_rule(configured.clone());
    match &rule.effects[0] {
        TransformSpec::NextJsFont(loaders) => assert_eq!(loaders, &configured),
        other => panic!("unexpected effect {other:?}"),
    }
}
