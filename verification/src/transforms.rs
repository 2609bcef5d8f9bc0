use vstd::prelude::*;

use crate::conditions::{
    all_hold, any_holds, condition_holds, lemma_all_hold_iff, lemma_any_holds_iff, ConditionNode,
    ReferenceKind, ResourceFact,
};
use crate::context::{ClientContextType, PageSsrType, ServerContextType, SharedContextType};
use crate::paths::{ends_with, within_dir, FsPath};
use crate::rules::{ModuleRule, NextJsPageExportFilter, TransformSpec};

verus! {

// ---------------------------------------------------------------------------
// The filesystem collaborator's responses
// ---------------------------------------------------------------------------

/// A failed path resolution, reported by the filesystem collaborator when it
/// could not join a routing root with one of the fixed suffixes this library
/// derives. The code is assigned by the collaborator and is opaque here: it
/// is carried through to the caller unchanged.
#[derive(Debug, Clone, Copy, PartialEq, Eq, Structural)]
pub struct PathResolutionFailure {
    pub code: u64,
}

/// The filesystem collaborator's responses for the sub-paths this library
/// derives from a pages routing root: its `api` subdirectory and the four
/// `_document` files. Joining paths is the collaborator's job, so the caller
/// performs the five joins and hands the outcomes in as plain values; rule
/// selection then consults them only where a context needs them.
#[derive(Debug, PartialEq, Eq)]
pub struct PagesDirJoins {
    /// `page_root` joined with `"api"`.
    pub api_dir: Result<FsPath, PathResolutionFailure>,
    /// `page_root` joined with `"_document.js"`.
    pub document_js: Result<FsPath, PathResolutionFailure>,
    /// `page_root` joined with `"_document.jsx"`.
    pub document_jsx: Result<FsPath, PathResolutionFailure>,
    /// `page_root` joined with `"_document.ts"`.
    pub document_ts: Result<FsPath, PathResolutionFailure>,
    /// `page_root` joined with `"_document.tsx"`.
    pub document_tsx: Result<FsPath, PathResolutionFailure>,
}

/// Every derived sub-path resolved.
pub open spec fn joins_all_ok(j: PagesDirJoins) -> bool {
    &&& j.api_dir is Ok
    &&& j.document_js is Ok
    &&& j.document_jsx is Ok
    &&& j.document_ts is Ok
    &&& j.document_tsx is Ok
}

/// The failure of the first derived sub-path that did not resolve, in the
/// order in which rule construction consults them. Meaningful only when
/// some join failed.
pub open spec fn first_join_failure(j: PagesDirJoins) -> PathResolutionFailure {
    if j.api_dir is Err {
        j.api_dir->Err_0
    } else if j.document_js is Err {
        j.document_js->Err_0
    } else if j.document_jsx is Err {
        j.document_jsx->Err_0
    } else if j.document_ts is Err {
        j.document_ts->Err_0
    } else {
        j.document_tsx->Err_0
    }
}

// ---------------------------------------------------------------------------
// The recognized script extensions
// ---------------------------------------------------------------------------

/// The bytes of `".js"`.
pub open spec fn ext_js() -> Seq<u8> {
    seq![46u8, 106u8, 115u8]
}

/// The bytes of `".jsx"`.
pub open spec fn ext_jsx() -> Seq<u8> {
    seq![46u8, 106u8, 115u8, 120u8]
}

/// The bytes of `".ts"`.
pub open spec fn ext_ts() -> Seq<u8> {
    seq![46u8, 116u8, 115u8]
}

/// The bytes of `".tsx"`.
pub open spec fn ext_tsx() -> Seq<u8> {
    seq![46u8, 116u8, 115u8, 120u8]
}

/// The path carries one of the four recognized script extensions.
pub open spec fn has_script_ext(p: Seq<u8>) -> bool {
    ||| ends_with(p, ext_js())
    ||| ends_with(p, ext_jsx())
    ||| ends_with(p, ext_ts())
    ||| ends_with(p, ext_tsx())
}

fn ext_js_bytes() -> (r: Vec<u8>)
    ensures
        r@ == ext_js(),
{
    let mut v: Vec<u8> = Vec::new();
    v.push(46);
    v.push(106);
    v.push(115);
    proof {
        assert(v@ =~= ext_js());
    }
    v
}

fn ext_jsx_bytes() -> (r: Vec<u8>)
    ensures
        r@ == ext_jsx(),
{
    let mut v: Vec<u8> = Vec::new();
    v.push(46);
    v.push(106);
    v.push(115);
    v.push(120);
    proof {
        assert(v@ =~= ext_jsx());
    }
    v
}

fn ext_ts_bytes() -> (r: Vec<u8>)
    ensures
        r@ == ext_ts(),
{
    let mut v: Vec<u8> = Vec::new();
    v.push(46);
    v.push(116);
    v.push(115);
    proof {
        assert(v@ =~= ext_ts());
    }
    v
}

fn ext_tsx_bytes() -> (r: Vec<u8>)
    ensures
        r@ == ext_tsx(),
{
    let mut v: Vec<u8> = Vec::new();
    v.push(46);
    v.push(116);
    v.push(115);
    v.push(120);
    proof {
        assert(v@ =~= ext_tsx());
    }
    v
}

// ---------------------------------------------------------------------------
// The shared condition sub-trees
// ---------------------------------------------------------------------------

/// The extension gate: a disjunction that admits exactly the candidates
/// whose path ends with one of the four recognized script extensions.
fn script_extension_gate() -> (r: ConditionNode)
    ensures
        forall|f: ResourceFact| condition_holds(r, f) == has_script_ext(f.path@),
{
    let mut cs: Vec<ConditionNode> = Vec::new();
    cs.push(ConditionNode::PathEndsWith(ext_js_bytes()));
    cs.push(ConditionNode::PathEndsWith(ext_jsx_bytes()));
    cs.push(ConditionNode::PathEndsWith(ext_ts_bytes()));
    cs.push(ConditionNode::PathEndsWith(ext_tsx_bytes()));
    let ghost gcs = cs@;
    let r = ConditionNode::Any(cs);
    proof {
        assert forall|f: ResourceFact| condition_holds(r, f) == has_script_ext(f.path@) by {
            lemma_any_holds_iff(gcs, f);
            assert(condition_holds(gcs[0], f) == ends_with(f.path@, ext_js()));
            assert(condition_holds(gcs[1], f) == ends_with(f.path@, ext_jsx()));
            assert(condition_holds(gcs[2], f) == ends_with(f.path@, ext_ts()));
            assert(condition_holds(gcs[3], f) == ends_with(f.path@, ext_tsx()));
        }
    }
    r
}

/// The exclusion of candidates reached through a URL reference of
/// undefined sub-type.
fn url_reference_exclusion() -> (r: ConditionNode)
    ensures
        forall|f: ResourceFact|
            condition_holds(r, f) == (f.reference != ReferenceKind::UrlUndefined),
{
    let r = ConditionNode::Not(
        Box::new(ConditionNode::ReferenceKindIs(ReferenceKind::UrlUndefined)),
    );
    proof {
        assert forall|f: ResourceFact|
            condition_holds(r, f) == (f.reference != ReferenceKind::UrlUndefined) by {
            assert(condition_holds(
                ConditionNode::ReferenceKindIs(ReferenceKind::UrlUndefined),
                f,
            ) == (f.reference == ReferenceKind::UrlUndefined));
        }
    }
    r
}

/// The condition shared by the dynamic-import and font-loader rules: the
/// candidate is not reached through a URL reference of undefined sub-type,
/// and its path carries a recognized script extension.
pub open spec fn script_module_condition_spec(f: ResourceFact) -> bool {
    f.reference != ReferenceKind::UrlUndefined && has_script_ext(f.path@)
}

/// Builds the condition tree shared by the dynamic-import and font-loader
/// rules: URL-reference exclusion plus the extension gate.
fn script_module_condition() -> (r: ConditionNode)
    ensures
        forall|f: ResourceFact| condition_holds(r, f) == script_module_condition_spec(f),
{
    let mut cs: Vec<ConditionNode> = Vec::new();
    cs.push(url_reference_exclusion());
    cs.push(script_extension_gate());
    let ghost gcs = cs@;
    let r = ConditionNode::All(cs);
    proof {
        assert forall|f: ResourceFact| condition_holds(r, f) == script_module_condition_spec(f) by {
            lemma_all_hold_iff(gcs, f);
            assert(condition_holds(gcs[0], f) == (f.reference != ReferenceKind::UrlUndefined));
            assert(condition_holds(gcs[1], f) == has_script_ext(f.path@));
        }
    }
    r
}

// ---------------------------------------------------------------------------
// The three transform rules
// ---------------------------------------------------------------------------

/// The views of the paths inside an optional routing root.
pub open spec fn option_path_view(o: Option<FsPath>) -> Option<Seq<u8>> {
    match o {
        Option::Some(p) => Option::Some(p@),
        Option::None => Option::None,
    }
}

/// `rule` is the dynamic-import rule with the given flags and optional
/// routing root: one dynamic-import effect carrying them unchanged, gated
/// by URL-reference exclusion plus the extension gate.
pub open spec fn is_dynamic_rule(
    rule: ModuleRule,
    is_development: bool,
    is_server: bool,
    is_server_components: bool,
    pages_dir: Option<Seq<u8>>,
) -> bool {
    &&& rule.effects@.len() == 1
    &&& match rule.effects@[0] {
        TransformSpec::NextJsDynamic {
            is_development: dev,
            is_server: server,
            is_server_components: components,
            pages_dir: pd,
        } => {
            &&& dev == is_development
            &&& server == is_server
            &&& components == is_server_components
            &&& option_path_view(pd) == pages_dir
        },
        _ => false,
    }
    &&& forall|f: ResourceFact| condition_holds(rule.condition, f) == script_module_condition_spec(f)
}

/// `rule` is the font-loader rule carrying the given ordered loader list:
/// one font effect, gated by URL-reference exclusion plus the extension
/// gate.
pub open spec fn is_font_rule(rule: ModuleRule, loaders: Seq<Seq<u8>>) -> bool {
    &&& rule.effects@.len() == 1
    &&& rule.effects@[0] is NextJsFont
    &&& rule.effects@[0]->NextJsFont_0.deep_view() == loaders
    &&& forall|f: ResourceFact| condition_holds(rule.condition, f) == script_module_condition_spec(f)
}

/// The page-export-strip rule's condition: the candidate lies under the
/// pages routing root but not under its `api` subdirectory, is none of the
/// four `_document` files, and carries a recognized script extension.
pub open spec fn pages_rule_condition_spec(
    f: ResourceFact,
    pages_dir: Seq<u8>,
    api_dir: Seq<u8>,
    document_js: Seq<u8>,
    document_jsx: Seq<u8>,
    document_ts: Seq<u8>,
    document_tsx: Seq<u8>,
) -> bool {
    &&& within_dir(f.path@, pages_dir)
    &&& !within_dir(f.path@, api_dir)
    &&& !(f.path@ == document_js || f.path@ == document_jsx || f.path@ == document_ts || f.path@
        == document_tsx)
    &&& has_script_ext(f.path@)
}

/// `rule` is the page-export-strip rule for the given routing root and
/// resolved sub-paths: one export-strip effect carrying the filter, gated
/// by the pages-scope condition plus the extension gate.
pub open spec fn is_pages_rule(
    rule: ModuleRule,
    export_filter: NextJsPageExportFilter,
    pages_dir: Seq<u8>,
    joins: PagesDirJoins,
) -> bool {
    &&& rule.effects@.len() == 1
    &&& rule.effects@[0] == TransformSpec::NextJsStripPageExports(export_filter)
    &&& forall|f: ResourceFact|
        condition_holds(rule.condition, f) == pages_rule_condition_spec(
            f,
            pages_dir,
            joins.api_dir->Ok_0@,
            joins.document_js->Ok_0@,
            joins.document_jsx->Ok_0@,
            joins.document_ts->Ok_0@,
            joins.document_tsx->Ok_0@,
        )
}

/// Builds the dynamic-import rule. The flags and the optional routing root
/// are attached to the effect unchanged; this library does not interpret
/// them.
pub fn get_next_dynamic_transform_rule(
    is_development: bool,
    is_server: bool,
    is_server_components: bool,
    pages_dir: Option<FsPath>,
) -> (r: ModuleRule)
    ensures
        is_dynamic_rule(r, is_development, is_server, is_server_components, option_path_view(pages_dir)),
{
    let ghost gpd = option_path_view(pages_dir);
    let mut effects: Vec<TransformSpec> = Vec::new();
    effects.push(
        (TransformSpec::NextJsDynamic { is_development, is_server, is_server_components, pages_dir }),
    );
    ModuleRule::new(script_module_condition(), effects)
}

/// Builds the font-loader rule around the ordered list of recognized
/// font-loader import specifiers, a build-time configuration input that is
/// attached to the effect unchanged.
pub fn get_next_font_transform_rule(font_loaders: Vec<Vec<u8>>) -> (r: ModuleRule)
    ensures
        is_font_rule(r, font_loaders.deep_view()),
{
    let mut effects: Vec<TransformSpec> = Vec::new();
    effects.push(TransformSpec::NextJsFont(font_loaders));
    ModuleRule::new(script_module_condition(), effects)
}

/// The bytes of `"@next/font/google"`, the one font-loader import
/// specifier that is always recognized.
pub open spec fn font_loader_google() -> Seq<u8> {
    seq![
        64u8, 110u8, 101u8, 120u8, 116u8, 47u8, 102u8, 111u8, 110u8, 116u8, 47u8, 103u8, 111u8,
        111u8, 103u8, 108u8, 101u8,
    ]
}

/// The default font-loader list: exactly the always-recognized specifier.
/// A build configuration may extend it with further loaders.
pub fn default_font_loaders() -> (r: Vec<Vec<u8>>)
    ensures
        r.deep_view() == seq![font_loader_google()],
{
    let mut name: Vec<u8> = Vec::new();
    name.push(64);
    name.push(110);
    name.push(101);
    name.push(120);
    name.push(116);
    name.push(47);
    name.push(102);
    name.push(111);
    name.push(110);
    name.push(116);
    name.push(47);
    name.push(103);
    name.push(111);
    name.push(111);
    name.push(103);
    name.push(108);
    name.push(101);
    proof {
        assert(name@ =~= font_loader_google());
    }
    let ghost gname = name@;
    let mut r: Vec<Vec<u8>> = Vec::new();
    r.push(name);
    proof {
        assert(r.deep_view().len() == 1);
        assert(r.deep_view()[0] =~= gname);
        assert(r.deep_view() =~= seq![font_loader_google()]);
    }
    r
}

/// The exclusion of the four `_document` files, whose exports are
/// framework-reserved.
fn document_exclusion(
    document_js: FsPath,
    document_jsx: FsPath,
    document_ts: FsPath,
    document_tsx: FsPath,
) -> (r: ConditionNode)
    ensures
        forall|f: ResourceFact|
            condition_holds(r, f) == !(f.path@ == document_js@ || f.path@ == document_jsx@
                || f.path@ == document_ts@ || f.path@ == document_tsx@),
{
    let ghost vjs = document_js@;
    let ghost vjsx = document_jsx@;
    let ghost vts = document_ts@;
    let ghost vtsx = document_tsx@;
    let mut cs: Vec<ConditionNode> = Vec::new();
    cs.push(ConditionNode::PathEquals(document_js));
    cs.push(ConditionNode::PathEquals(document_jsx));
    cs.push(ConditionNode::PathEquals(document_ts));
    cs.push(ConditionNode::PathEquals(document_tsx));
    let ghost gcs = cs@;
    let any = ConditionNode::Any(cs);
    let ghost gany = any;
    let r = ConditionNode::Not(Box::new(any));
    proof {
        assert forall|f: ResourceFact|
            condition_holds(r, f) == !(f.path@ == vjs || f.path@ == vjsx || f.path@ == vts
                || f.path@ == vtsx) by {
            lemma_any_holds_iff(gcs, f);
            assert(condition_holds(gcs[0], f) == (f.path@ == vjs));
            assert(condition_holds(gcs[1], f) == (f.path@ == vjsx));
            assert(condition_holds(gcs[2], f) == (f.path@ == vts));
            assert(condition_holds(gcs[3], f) == (f.path@ == vtsx));
            assert(condition_holds(gany, f) == any_holds(gcs, f));
            assert(condition_holds(r, f) == !condition_holds(gany, f));
        }
    }
    r
}

/// The pages-scope condition: within the routing root, outside its `api`
/// subdirectory, and none of the `_document` files.
fn pages_scope_condition(
    pages_dir: FsPath,
    api_dir: FsPath,
    document_js: FsPath,
    document_jsx: FsPath,
    document_ts: FsPath,
    document_tsx: FsPath,
) -> (r: ConditionNode)
    ensures
        forall|f: ResourceFact|
            condition_holds(r, f) == (within_dir(f.path@, pages_dir@) && !within_dir(
                f.path@,
                api_dir@,
            ) && !(f.path@ == document_js@ || f.path@ == document_jsx@ || f.path@ == document_ts@
                || f.path@ == document_tsx@)),
{
    let ghost vpd = pages_dir@;
    let ghost vapi = api_dir@;
    let ghost vjs = document_js@;
    let ghost vjsx = document_jsx@;
    let ghost vts = document_ts@;
    let ghost vtsx = document_tsx@;
    let api_node = ConditionNode::PathWithinDirectory(api_dir);
    let ghost gapi_node = api_node;
    let mut cs: Vec<ConditionNode> = Vec::new();
    cs.push(ConditionNode::PathWithinDirectory(pages_dir));
    cs.push(ConditionNode::Not(Box::new(api_node)));
    let doc = document_exclusion(document_js, document_jsx, document_ts, document_tsx);
    let ghost gdoc = doc;
    cs.push(doc);
    let ghost gcs = cs@;
    let r = ConditionNode::All(cs);
    proof {
        assert forall|f: ResourceFact|
            condition_holds(r, f) == (within_dir(f.path@, vpd) && !within_dir(f.path@, vapi) && !(
            f.path@ == vjs || f.path@ == vjsx || f.path@ == vts || f.path@ == vtsx)) by {
            lemma_all_hold_iff(gcs, f);
            assert(condition_holds(gcs[0], f) == within_dir(f.path@, vpd));
            assert(condition_holds(gapi_node, f) == within_dir(f.path@, vapi));
            assert(condition_holds(gcs[1], f) == !condition_holds(gapi_node, f));
            assert(gcs[2] == gdoc);
            assert(condition_holds(gdoc, f) == !(f.path@ == vjs || f.path@ == vjsx || f.path@
                == vts || f.path@ == vtsx));
            assert(condition_holds(r, f) == all_hold(gcs, f));
        }
    }
    r
}

/// Builds the page-export-strip rule for a pages routing root, applying the
/// given export filter to every page file under the root: candidates under
/// the root's `api` subdirectory and the `_document` files are excluded, and
/// only recognized script extensions are admitted. Fails, with the
/// collaborator's failure carried through unchanged, exactly when one of the
/// derived sub-paths did not resolve; no rule is produced in that case.
pub fn get_next_pages_transforms_rule(
    pages_dir: &FsPath,
    joins: &PagesDirJoins,
    export_filter: NextJsPageExportFilter,
) -> (r: Result<ModuleRule, PathResolutionFailure>)
    ensures
        r is Ok <==> joins_all_ok(*joins),
        r is Ok ==> is_pages_rule(r->Ok_0, export_filter, pages_dir@, *joins),
        r is Err ==> r->Err_0 == first_join_failure(*joins),
{
    let api_dir = match &joins.api_dir {
        Ok(p) => p.duplicate(),
        Err(e) => {
            return Err(*e);
        },
    };
    let doc_js = match &joins.document_js {
        Ok(p) => p.duplicate(),
        Err(e) => {
            return Err(*e);
        },
    };
    let doc_jsx = match &joins.document_jsx {
        Ok(p) => p.duplicate(),
        Err(e) => {
            return Err(*e);
        },
    };
    let doc_ts = match &joins.document_ts {
        Ok(p) => p.duplicate(),
        Err(e) => {
            return Err(*e);
        },
    };
    let doc_tsx = match &joins.document_tsx {
        Ok(p) => p.duplicate(),
        Err(e) => {
            return Err(*e);
        },
    };
    let scope = pages_scope_condition(
        pages_dir.duplicate(),
        api_dir,
        doc_js,
        doc_jsx,
        doc_ts,
        doc_tsx,
    );
    let gate = script_extension_gate();
    let ghost gscope = scope;
    let ghost ggate = gate;
    let mut cs: Vec<ConditionNode> = Vec::new();
    cs.push(scope);
    cs.push(gate);
    let ghost gcs = cs@;
    let condition = ConditionNode::All(cs);
    let mut effects: Vec<TransformSpec> = Vec::new();
    effects.push(TransformSpec::NextJsStripPageExports(export_filter));
    let rule = ModuleRule::new(condition, effects);
    proof {
        assert forall|f: ResourceFact|
            condition_holds(rule.condition, f) == pages_rule_condition_spec(
                f,
                pages_dir@,
                joins.api_dir->Ok_0@,
                joins.document_js->Ok_0@,
                joins.document_jsx->Ok_0@,
                joins.document_ts->Ok_0@,
                joins.document_tsx->Ok_0@,
            ) by {
            lemma_all_hold_iff(gcs, f);
            assert(gcs[0] == gscope);
            assert(gcs[1] == ggate);
            assert(condition_holds(rule.condition, f) == all_hold(gcs, f));
        }
    }
    Ok(rule)
}

// ---------------------------------------------------------------------------
// The context-to-rules selector
// ---------------------------------------------------------------------------

/// The decision table of rule selection: what the selector returns for each
/// build context, given the filesystem collaborator's join responses and
/// the configured font-loader list.
pub open spec fn select_rules_post(
    r: Result<Vec<ModuleRule>, PathResolutionFailure>,
    context_ty: SharedContextType,
    joins: PagesDirJoins,
    loaders: Seq<Seq<u8>>,
) -> bool {
    match context_ty {
        SharedContextType::Server(ServerContextType::Pages { pages_dir, ssr_type }) => {
            match ssr_type {
                PageSsrType::Ssr => {
                    &&& r is Ok
                    &&& r->Ok_0@.len() == 1
                    &&& is_dynamic_rule(r->Ok_0@[0], true, true, false, Option::Some(pages_dir@))
                },
                PageSsrType::SsrData => {
                    &&& (r is Ok <==> joins_all_ok(joins))
                    &&& (r is Ok ==> {
                        &&& r->Ok_0@.len() == 2
                        &&& is_dynamic_rule(r->Ok_0@[0], true, true, false, Option::Some(pages_dir@))
                        &&& is_pages_rule(
                            r->Ok_0@[1],
                            NextJsPageExportFilter::StripDefaultExport,
                            pages_dir@,
                            joins,
                        )
                    })
                    &&& (r is Err ==> r->Err_0 == first_join_failure(joins))
                },
            }
        },
        SharedContextType::Server(ServerContextType::AppSSR) => {
            &&& r is Ok
            &&& r->Ok_0@.len() == 1
            &&& is_dynamic_rule(r->Ok_0@[0], true, true, false, Option::None)
        },
        SharedContextType::Server(ServerContextType::AppRSC) => {
            &&& r is Ok
            &&& r->Ok_0@.len() == 1
            &&& is_dynamic_rule(r->Ok_0@[0], true, true, true, Option::None)
        },
        SharedContextType::Client(ClientContextType::Pages { pages_dir }) => {
            &&& (r is Ok <==> joins_all_ok(joins))
            &&& (r is Ok ==> {
                &&& r->Ok_0@.len() == 3
                &&& is_font_rule(r->Ok_0@[0], loaders)
                &&& is_pages_rule(
                    r->Ok_0@[1],
                    NextJsPageExportFilter::StripDataExports,
                    pages_dir@,
                    joins,
                )
                &&& is_dynamic_rule(r->Ok_0@[2], true, false, false, Option::Some(pages_dir@))
            })
            &&& (r is Err ==> r->Err_0 == first_join_failure(joins))
        },
        SharedContextType::Client(_) => {
            &&& r is Ok
            &&& r->Ok_0@.len() == 2
            &&& is_font_rule(r->Ok_0@[0], loaders)
            &&& is_dynamic_rule(r->Ok_0@[1], true, false, false, Option::None)
        },
    }
}

/// Returns, for one build context, the ordered list of module rules that
/// apply the Next.js-specific transforms in that context, following the
/// decision table in `select_rules_post`. `joins` holds the filesystem
/// collaborator's responses for the sub-paths derived from the context's
/// routing root; they are consulted only by the contexts that build the
/// page-export-strip rule, and the first failure among them is returned
/// unchanged, with no partial rule list. `font_loaders` is the configured
/// ordered list of recognized font-loader import specifiers.
pub fn get_next_transforms_rules(
    context_ty: &SharedContextType,
    joins: &PagesDirJoins,
    font_loaders: Vec<Vec<u8>>,
) -> (r: Result<Vec<ModuleRule>, PathResolutionFailure>)
    ensures
        select_rules_post(r, *context_ty, *joins, font_loaders.deep_view()),
{
    let mut rules: Vec<ModuleRule> = Vec::new();
    match context_ty {
        SharedContextType::Server(ServerContextType::Pages { pages_dir, ssr_type }) => {
            rules.push(
                get_next_dynamic_transform_rule(
                    true,
                    true,
                    false,
                    Some(pages_dir.duplicate()),
                ),
            );
            match ssr_type {
                PageSsrType::Ssr => {},
                PageSsrType::SsrData => {
                    match get_next_pages_transforms_rule(
                        pages_dir,
                        joins,
                        NextJsPageExportFilter::StripDefaultExport,
                    ) {
                        Ok(rule) => rules.push(rule),
                        Err(e) => {
                            return Err(e);
                        },
                    }
                },
            }
        },
        SharedContextType::Server(ServerContextType::AppSSR) => {
            rules.push(get_next_dynamic_transform_rule(true, true, false, None));
        },
        SharedContextType::Server(ServerContextType::AppRSC) => {
            rules.push(get_next_dynamic_transform_rule(true, true, true, None));
        },
        SharedContextType::Client(client_context_type) => {
            rules.push(get_next_font_transform_rule(font_loaders));
            match client_context_type {
                ClientContextType::Pages { pages_dir } => {
                    match get_next_pages_transforms_rule(
                        pages_dir,
                        joins,
                        NextJsPageExportFilter::StripDataExports,
                    ) {
                        Ok(rule) => rules.push(rule),
                        Err(e) => {
                            return Err(e);
                        },
                    }
                    rules.push(
                        get_next_dynamic_transform_rule(
                            true,
                            false,
                            false,
                            Some(pages_dir.duplicate()),
                        ),
                    );
                },
                ClientContextType::App | ClientContextType::Fallback | ClientContextType::Other => {
                    rules.push(get_next_dynamic_transform_rule(true, false, false, None));
                },
            }
        },
    }
    Ok(rules)
}

} // verus!
