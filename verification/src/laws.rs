//! The properties that hold of rule selection beyond the individual
//! function contracts: determinism of the decision table, the fixed rule
//! order, the exclusions, the extension gate, totality over the contexts,
//! and failure propagation.

use vstd::prelude::*;

use crate::conditions::{condition_holds, ReferenceKind, ResourceFact};
use crate::context::{ClientContextType, PageSsrType, ServerContextType, SharedContextType};
use crate::paths::{ends_with, within_dir, FsPath};
use crate::rules::{ModuleRule, NextJsPageExportFilter, TransformSpec};
use crate::transforms::{
    ext_js, ext_jsx, ext_ts, ext_tsx, first_join_failure, has_script_ext, is_dynamic_rule,
    is_font_rule, is_pages_rule, joins_all_ok, option_path_view, pages_rule_condition_spec,
    script_module_condition_spec, select_rules_post, PagesDirJoins, PathResolutionFailure,
};

verus! {

// ---------------------------------------------------------------------------
// Determinism
// ---------------------------------------------------------------------------

/// Two transform effects carry the same payload.
pub open spec fn transform_equivalent(a: TransformSpec, b: TransformSpec) -> bool {
    match (a, b) {
        (
            TransformSpec::NextJsStripPageExports(fa),
            TransformSpec::NextJsStripPageExports(fb),
        ) => fa == fb,
        (
            TransformSpec::NextJsDynamic {
                is_development: da,
                is_server: sa,
                is_server_components: ca,
                pages_dir: pa,
            },
            TransformSpec::NextJsDynamic {
                is_development: db,
                is_server: sb,
                is_server_components: cb,
                pages_dir: pb,
            },
        ) => da == db && sa == sb && ca == cb && option_path_view(pa) == option_path_view(pb),
        (TransformSpec::NextJsFont(la), TransformSpec::NextJsFont(lb)) => la.deep_view()
            == lb.deep_view(),
        _ => false,
    }
}

/// Two rules behave alike: effects with the same payloads in the same
/// order, and conditions that agree on every candidate.
pub open spec fn rule_equivalent(a: ModuleRule, b: ModuleRule) -> bool {
    &&& a.effects@.len() == b.effects@.len()
    &&& forall|i: int|
        0 <= i < a.effects@.len() ==> transform_equivalent(
            #[trigger] a.effects@[i],
            b.effects@[i],
        )
    &&& forall|f: ResourceFact| condition_holds(a.condition, f) == condition_holds(b.condition, f)
}

proof fn lemma_dynamic_rules_equivalent(
    a: ModuleRule,
    b: ModuleRule,
    is_development: bool,
    is_server: bool,
    is_server_components: bool,
    pages_dir: Option<Seq<u8>>,
)
    requires
        is_dynamic_rule(a, is_development, is_server, is_server_components, pages_dir),
        is_dynamic_rule(b, is_development, is_server, is_server_components, pages_dir),
    ensures
        rule_equivalent(a, b),
{
    assert(transform_equivalent(a.effects@[0], b.effects@[0]));
    assert forall|f: ResourceFact|
        condition_holds(a.condition, f) == condition_holds(b.condition, f) by {
        assert(condition_holds(a.condition, f) == script_module_condition_spec(f));
        assert(condition_holds(b.condition, f) == script_module_condition_spec(f));
    }
}

proof fn lemma_font_rules_equivalent(a: ModuleRule, b: ModuleRule, loaders: Seq<Seq<u8>>)
    requires
        is_font_rule(a, loaders),
        is_font_rule(b, loaders),
    ensures
        rule_equivalent(a, b),
{
    assert(transform_equivalent(a.effects@[0], b.effects@[0]));
    assert forall|f: ResourceFact|
        condition_holds(a.condition, f) == condition_holds(b.condition, f) by {
        assert(condition_holds(a.condition, f) == script_module_condition_spec(f));
        assert(condition_holds(b.condition, f) == script_module_condition_spec(f));
    }
}

proof fn lemma_pages_rules_equivalent(
    a: ModuleRule,
    b: ModuleRule,
    export_filter: NextJsPageExportFilter,
    pages_dir: Seq<u8>,
    joins: PagesDirJoins,
)
    requires
        is_pages_rule(a, export_filter, pages_dir, joins),
        is_pages_rule(b, export_filter, pages_dir, joins),
    ensures
        rule_equivalent(a, b),
{
    assert(transform_equivalent(a.effects@[0], b.effects@[0]));
}

/// Rule selection is deterministic: for one context, one set of
/// collaborator responses and one loader list, any two results the
/// decision table admits succeed or fail together, fail with the same
/// failure, and succeed with rule lists of the same length whose rules
/// behave alike position by position.
pub proof fn lemma_selection_deterministic(
    r1: Result<Vec<ModuleRule>, PathResolutionFailure>,
    r2: Result<Vec<ModuleRule>, PathResolutionFailure>,
    context_ty: SharedContextType,
    joins: PagesDirJoins,
    loaders: Seq<Seq<u8>>,
)
    requires
        select_rules_post(r1, context_ty, joins, loaders),
        select_rules_post(r2, context_ty, joins, loaders),
    ensures
        r1 is Ok <==> r2 is Ok,
        r1 is Err ==> r1->Err_0 == r2->Err_0,
        r1 is Ok ==> r1->Ok_0@.len() == r2->Ok_0@.len(),
        r1 is Ok ==> forall|i: int|
            0 <= i < r1->Ok_0@.len() ==> rule_equivalent(#[trigger] r1->Ok_0@[i], r2->Ok_0@[i]),
{
    if r1 is Ok {
        let s1 = r1->Ok_0@;
        let s2 = r2->Ok_0@;
        match context_ty {
            SharedContextType::Server(ServerContextType::Pages { pages_dir, ssr_type }) => {
                match ssr_type {
                    PageSsrType::Ssr => {
                        lemma_dynamic_rules_equivalent(
                            s1[0],
                            s2[0],
                            true,
                            true,
                            false,
                            Option::Some(pages_dir@),
                        );
                    },
                    PageSsrType::SsrData => {
                        lemma_dynamic_rules_equivalent(
                            s1[0],
                            s2[0],
                            true,
                            true,
                            false,
                            Option::Some(pages_dir@),
                        );
                        lemma_pages_rules_equivalent(
                            s1[1],
                            s2[1],
                            NextJsPageExportFilter::StripDefaultExport,
                            pages_dir@,
                            joins,
                        );
                    },
                }
            },
            SharedContextType::Server(ServerContextType::AppSSR) => {
                lemma_dynamic_rules_equivalent(s1[0], s2[0], true, true, false, Option::None);
            },
            SharedContextType::Server(ServerContextType::AppRSC) => {
                lemma_dynamic_rules_equivalent(s1[0], s2[0], true, true, true, Option::None);
            },
            SharedContextType::Client(ClientContextType::Pages { pages_dir }) => {
                lemma_font_rules_equivalent(s1[0], s2[0], loaders);
                lemma_pages_rules_equivalent(
                    s1[1],
                    s2[1],
                    NextJsPageExportFilter::StripDataExports,
                    pages_dir@,
                    joins,
                );
                lemma_dynamic_rules_equivalent(
                    s1[2],
                    s2[2],
                    true,
                    false,
                    false,
                    Option::Some(pages_dir@),
                );
            },
            SharedContextType::Client(_) => {
                lemma_font_rules_equivalent(s1[0], s2[0], loaders);
                lemma_dynamic_rules_equivalent(s1[1], s2[1], true, false, false, Option::None);
            },
        }
    }
}

// ---------------------------------------------------------------------------
// Rule order for the client pages context
// ---------------------------------------------------------------------------

/// For the client pages context the returned list is exactly font-loader,
/// page-export-strip, dynamic-import, in that order.
pub proof fn lemma_client_pages_rule_order(
    r: Result<Vec<ModuleRule>, PathResolutionFailure>,
    pages_dir: FsPath,
    joins: PagesDirJoins,
    loaders: Seq<Seq<u8>>,
)
    requires
        select_rules_post(
            r,
            (SharedContextType::Client(ClientContextType::Pages { pages_dir })),
            joins,
            loaders,
        ),
        joins_all_ok(joins),
    ensures
        r is Ok,
        r->Ok_0@.len() == 3,
        is_font_rule(r->Ok_0@[0], loaders),
        is_pages_rule(r->Ok_0@[1], NextJsPageExportFilter::StripDataExports, pages_dir@, joins),
        is_dynamic_rule(r->Ok_0@[2], true, false, false, Option::Some(pages_dir@)),
{
}

// ---------------------------------------------------------------------------
// Exclusions and the extension gate
// ---------------------------------------------------------------------------

/// A candidate within the routing root's `api` subdirectory never
/// satisfies the page-export-strip condition.
pub proof fn lemma_api_directory_excluded(
    f: ResourceFact,
    pages_dir: Seq<u8>,
    api_dir: Seq<u8>,
    document_js: Seq<u8>,
    document_jsx: Seq<u8>,
    document_ts: Seq<u8>,
    document_tsx: Seq<u8>,
)
    requires
        within_dir(f.path@, api_dir),
    ensures
        !pages_rule_condition_spec(
            f,
            pages_dir,
            api_dir,
            document_js,
            document_jsx,
            document_ts,
            document_tsx,
        ),
{
}

/// A candidate whose path is one of the four `_document` files never
/// satisfies the page-export-strip condition, whatever else holds of it.
pub proof fn lemma_document_excluded(
    f: ResourceFact,
    pages_dir: Seq<u8>,
    api_dir: Seq<u8>,
    document_js: Seq<u8>,
    document_jsx: Seq<u8>,
    document_ts: Seq<u8>,
    document_tsx: Seq<u8>,
)
    requires
        f.path@ == document_js || f.path@ == document_jsx || f.path@ == document_ts || f.path@
            == document_tsx,
    ensures
        !pages_rule_condition_spec(
            f,
            pages_dir,
            api_dir,
            document_js,
            document_jsx,
            document_ts,
            document_tsx,
        ),
{
}

/// A candidate reached through a URL reference of undefined sub-type
/// never satisfies the condition shared by the dynamic-import and
/// font-loader rules, whatever its extension.
pub proof fn lemma_url_reference_excluded(f: ResourceFact)
    requires
        f.reference == ReferenceKind::UrlUndefined,
    ensures
        !script_module_condition_spec(f),
{
}

/// A candidate that is not URL-excluded and carries any of the four
/// recognized script extensions satisfies the shared condition.
pub proof fn lemma_script_extension_admitted(f: ResourceFact)
    requires
        f.reference != ReferenceKind::UrlUndefined,
        ends_with(f.path@, ext_js()) || ends_with(f.path@, ext_jsx()) || ends_with(
            f.path@,
            ext_ts(),
        ) || ends_with(f.path@, ext_tsx()),
    ensures
        script_module_condition_spec(f),
{
}

/// The bytes of `".css"`.
pub open spec fn ext_css() -> Seq<u8> {
    seq![46u8, 99u8, 115u8, 115u8]
}

/// A path ending in `".css"` carries none of the recognized script
/// extensions, so such a candidate never passes the extension gate.
pub proof fn lemma_css_never_script(p: Seq<u8>)
    requires
        ends_with(p, ext_css()),
    ensures
        !has_script_ext(p),
{
    let n = p.len() as int;
    assert(p.subrange(n - 4, n)[2] == p[n - 2]);
    assert(p[n - 2] == 115);
    if ends_with(p, ext_js()) {
        assert(p.subrange(n - 3, n)[1] == p[n - 2]);
        assert(p[n - 2] == 106);
    }
    if ends_with(p, ext_jsx()) {
        assert(ext_jsx() == ext_css());
        assert(ext_jsx()[1] == ext_css()[1]);
    }
    if ends_with(p, ext_ts()) {
        assert(p.subrange(n - 3, n)[1] == p[n - 2]);
        assert(p[n - 2] == 116);
    }
    if ends_with(p, ext_tsx()) {
        assert(ext_tsx() == ext_css());
        assert(ext_tsx()[1] == ext_css()[1]);
    }
}

// ---------------------------------------------------------------------------
// Totality over the contexts, and failure propagation
// ---------------------------------------------------------------------------

/// The contexts that build the page-export-strip rule and therefore
/// consult the collaborator's join responses.
pub open spec fn context_requires_joins(c: SharedContextType) -> bool {
    match c {
        SharedContextType::Server(ServerContextType::Pages { ssr_type, .. }) => ssr_type
            == PageSsrType::SsrData,
        SharedContextType::Client(ClientContextType::Pages { .. }) => true,
        _ => false,
    }
}

/// How many rules the decision table produces for each context.
pub open spec fn expected_rule_count(c: SharedContextType) -> int {
    match c {
        SharedContextType::Server(ServerContextType::Pages { ssr_type, .. }) => if ssr_type
            == PageSsrType::Ssr {
            1
        } else {
            2
        },
        SharedContextType::Server(ServerContextType::AppSSR) => 1,
        SharedContextType::Server(ServerContextType::AppRSC) => 1,
        SharedContextType::Client(ClientContextType::Pages { .. }) => 3,
        SharedContextType::Client(_) => 2,
    }
}

/// Every context maps to exactly one row of the decision table: whenever
/// the joins a context needs (if any) resolved, selection succeeds and
/// returns that row's rule count.
pub proof fn lemma_selection_total(
    r: Result<Vec<ModuleRule>, PathResolutionFailure>,
    context_ty: SharedContextType,
    joins: PagesDirJoins,
    loaders: Seq<Seq<u8>>,
)
    requires
        select_rules_post(r, context_ty, joins, loaders),
        context_requires_joins(context_ty) ==> joins_all_ok(joins),
    ensures
        r is Ok,
        r->Ok_0@.len() == expected_rule_count(context_ty),
{
}

/// A resolution failure for a derived path that the context needs aborts
/// selection: the collaborator's first failure comes back unchanged and no
/// partial rule list is produced.
pub proof fn lemma_failure_propagation(
    r: Result<Vec<ModuleRule>, PathResolutionFailure>,
    context_ty: SharedContextType,
    joins: PagesDirJoins,
    loaders: Seq<Seq<u8>>,
)
    requires
        select_rules_post(r, context_ty, joins, loaders),
        context_requires_joins(context_ty),
        !joins_all_ok(joins),
    ensures
        r is Err,
        r->Err_0 == first_join_failure(joins),
{
}

/// A context that derives no sub-paths succeeds whatever the collaborator
/// answered: the join responses are consulted only where they are needed.
pub proof fn lemma_no_joins_no_failure(
    r: Result<Vec<ModuleRule>, PathResolutionFailure>,
    context_ty: SharedContextType,
    joins: PagesDirJoins,
    loaders: Seq<Seq<u8>>,
)
    requires
        select_rules_post(r, context_ty, joins, loaders),
        !context_requires_joins(context_ty),
    ensures
        r is Ok,
{
}

} // verus!
