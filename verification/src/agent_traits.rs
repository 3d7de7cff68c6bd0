//! The shared project-state record threaded through every agent call, and
//! the invariant that governs how agents may change it.

use vstd::prelude::*;
use vstd::string::StringExecFns;
use crate::json::{
    encode_project_scope, encode_string_list, spec_encode_scope, spec_encode_string_list,
};

verus! {

/// The scope of the project, derived by the architect agent from the
/// project description.  Unknown when a fact sheet is first created.
#[derive(Clone, Copy, Debug, PartialEq, Eq, Structural)]
pub struct ProjectScope {
    /// Whether the service needs create/read/update/delete endpoints.
    pub is_crud_required: bool,
    /// Whether the service needs user login and logout.
    pub is_user_login_and_logout: bool,
    /// Whether the service needs to reach external URLs.
    pub is_external_urls_required: bool,
}

/// One discovered API route of the generated service.  The request body and
/// response are opaque structured values; they are held here as their JSON
/// text, which is all the pipeline reads of them.
#[derive(Clone, Debug)]
pub struct RouteObject {
    /// Whether the route is dynamic, as reported by the extraction step.
    pub is_route_dynamic: String,
    /// The HTTP method of the route.
    pub method: String,
    /// The request body shape, as JSON text.
    pub request_body: String,
    /// The response shape, as JSON text.
    pub response: String,
    /// The route path.
    pub route: String,
}

/// The single shared, mutable project-state record.  It is owned by the
/// orchestrator and lent by exclusive mutable access to one agent at a time;
/// every agent step relates its result to its input by [`evolves_to`].
#[derive(Clone, Debug)]
pub struct FactSheet {
    /// The user's project request; set once at pipeline start, immutable
    /// thereafter.
    pub project_description: String,
    /// `None` until the architect completes; set exactly once.
    pub project_scope: Option<ProjectScope>,
    /// `None` until the architect determines external URLs are needed; set
    /// exactly once, possibly to an empty sequence.
    pub external_urls: Option<Vec<String>>,
    /// `None` until the backend developer's first generation step;
    /// overwritten on every regeneration or fix cycle.
    pub backend_code: Option<String>,
    /// `None` until the extraction step fills it; its presence gates
    /// pipeline completion.
    pub api_endpoint_schema: Option<Vec<RouteObject>>,
}

/// How one agent step may change the fact sheet within a run: the project
/// description is never mutated, and each optional field only moves from
/// `None` to `Some` — once set, it may be replaced but never reverts to
/// `None`.
pub open spec fn evolves_to(pre: FactSheet, post: FactSheet) -> bool {
    &&& post.project_description@ == pre.project_description@
    &&& pre.project_scope is Some ==> post.project_scope is Some
    &&& pre.external_urls is Some ==> post.external_urls is Some
    &&& pre.backend_code is Some ==> post.backend_code is Some
    &&& pre.api_endpoint_schema is Some ==> post.api_endpoint_schema is Some
}

impl FactSheet {
    /// Create the initial fact sheet for a run: the project description is
    /// the user's request, verbatim, and every optional field is `None`.
    pub fn new(project_description: String) -> (fs: FactSheet)
        ensures
            fs.project_description@ == project_description@,
            fs.project_scope is None,
            fs.external_urls is None,
            fs.backend_code is None,
            fs.api_endpoint_schema is None,
    {
        FactSheet {
            project_description,
            project_scope: None,
            external_urls: None,
            backend_code: None,
            api_endpoint_schema: None,
        }
    }
}

/// The textual form of the fact sheet's requirement-bearing fields, as it
/// is embedded into prompts that must see the whole project state: the
/// project description, then the scope and the external URLs in their
/// canonical encodings, or `null` for a field that is not yet set.
pub open spec fn spec_render_factsheet(fs: FactSheet) -> Seq<char> {
    "PROJECT_DESCRIPTION: "@ + fs.project_description@ + "\nPROJECT_SCOPE: "@ + (
    match fs.project_scope {
        None => "null"@,
        Some(scope) => spec_encode_scope(scope),
    }) + "\nEXTERNAL_URLS: "@ + (match fs.external_urls {
        None => "null"@,
        Some(urls) => spec_encode_string_list(urls.deep_view()),
    })
}

impl FactSheet {
    /// Render the fact sheet's requirement-bearing fields as text.
    pub fn render(&self) -> (r: String)
        ensures
            r@ == spec_render_factsheet(*self),
    {
        let mut out = String::from_str("PROJECT_DESCRIPTION: ");
        out.append(self.project_description.as_str());
        out.append("\nPROJECT_SCOPE: ");
        match &self.project_scope {
            None => out.append("null"),
            Some(scope) => {
                let encoded = encode_project_scope(scope);
                out.append(encoded.as_str());
            },
        }
        out.append("\nEXTERNAL_URLS: ");
        match &self.external_urls {
            None => out.append("null"),
            Some(urls) => {
                let encoded = encode_string_list(urls);
                out.append(encoded.as_str());
            },
        }
        out
    }
}

/// An unchanged fact sheet is a valid evolution: agent steps that only read
/// the record leave it related to itself.
pub proof fn lemma_evolves_refl(fs: FactSheet)
    ensures
        evolves_to(fs, fs),
{
}

/// Evolution composes: if one agent step takes the fact sheet from `a` to
/// `b` and a later step takes it from `b` to `c`, the whole run takes it
/// from `a` to `c`.  With [`lemma_evolves_refl`], any chain of agent steps
/// is itself an evolution.
pub proof fn lemma_evolves_trans(a: FactSheet, b: FactSheet, c: FactSheet)
    requires
        evolves_to(a, b),
        evolves_to(b, c),
    ensures
        evolves_to(a, c),
{
}

/// The project description equals the initial request verbatim across any
/// evolution of the fact sheet: no agent step ever mutates it.
pub proof fn lemma_description_immutable(pre: FactSheet, post: FactSheet)
    requires
        evolves_to(pre, post),
    ensures
        post.project_description@ == pre.project_description@,
{
}

/// Optional fields only transition from `None` to `Some`: any field that is
/// set before an evolution is still set after it, so no field ever reverts
/// to `None` within a run.
pub proof fn lemma_fields_monotone(pre: FactSheet, post: FactSheet)
    requires
        evolves_to(pre, post),
    ensures
        pre.project_scope is Some ==> post.project_scope is Some,
        pre.external_urls is Some ==> post.external_urls is Some,
        pre.backend_code is Some ==> post.backend_code is Some,
        pre.api_endpoint_schema is Some ==> post.api_endpoint_schema is Some,
{
}

} // verus!
