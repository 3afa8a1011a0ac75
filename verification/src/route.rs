//! The fixed path scheme of the remote API.

use crate::project_id::{hyphenated, ProjectId};
use vstd::prelude::*;
use vstd::string::*;

verus! {

/// The root of the project collection.
pub const PROJECT_ROUTE_V1: &'static str = "/api/v1/projects";

/// The root of the API key.
pub const APIKEY_ROUTE_V1: &'static str = "/api/v1/api_key";

/// The path of the version check.
pub const UPDATES_ROUTE: &'static str = "/api/updates_check";

/// The path of one project: the collection's root, `/`, the identifier's text.
pub open spec fn project_path(id: ProjectId) -> Seq<char> {
    PROJECT_ROUTE_V1@ + "/"@ + hyphenated(id.value)
}

/// The path of a project's overview.
pub open spec fn overview_path(id: ProjectId) -> Seq<char> {
    project_path(id) + "/overview"@
}

/// The path of one analysis of a project.
pub open spec fn analysis_path(id: ProjectId, analysis: Seq<char>) -> Seq<char> {
    project_path(id) + "/analysis/"@ + analysis
}

/// Builds the path of one project.
pub fn build_project_path(id: &ProjectId) -> (path: String)
    ensures
        path@ == project_path(*id),
{
    let text = id.text();
    let mut path = String::from_str(PROJECT_ROUTE_V1);
    path.append("/");
    path.append(text.as_str());
    path
}

/// Builds the path of a project's overview.
pub fn build_overview_path(id: &ProjectId) -> (path: String)
    ensures
        path@ == overview_path(*id),
{
    let mut path = build_project_path(id);
    path.append("/overview");
    path
}

/// Builds the path of one analysis of a project.
pub fn build_analysis_path(id: &ProjectId, analysis: &str) -> (path: String)
    ensures
        path@ == analysis_path(*id, analysis@),
{
    let mut path = build_project_path(id);
    path.append("/analysis/");
    path.append(analysis);
    path
}

} // verus!
