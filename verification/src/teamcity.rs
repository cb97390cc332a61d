//! The build connector: which build it asks for, and when it notifies.

use crate::template::{render, rendered, rendering_view, variables_view};
use crate::text::{decimal, natural_string, same_text};
use vstd::prelude::*;
use vstd::string::StringExecFns;

verus! {

/// The state of a build that has come to its end.
pub const STATE_FINISHED: &'static str = "finished";

/// The status of a build that has failed.
pub const STATUS_FAILURE: &'static str = "FAILURE";

/// What the path of a build starts with.
pub const BUILD_PATH: &'static str = "builds/buildType:";

/// The key under which the store is asked whether a build was told before.
pub const MARK_KEY: &'static str = "key";

/// What the store said when it was asked for the mark.
#[derive(Clone, Copy, Debug)]
pub enum StoredMark {
    /// The store holds no mark.
    Absent,
    /// The store holds a mark.
    Present,
    /// The store could not be read.
    Unreadable,
}

/// The path of the latest build of a build type.
pub fn build_path(build_name: &str) -> (path: String)
    ensures
        path@ == BUILD_PATH@ + build_name@,
{
    let mut path = BUILD_PATH.to_owned();
    path.append(build_name);
    path
}

/// The key under which a build is marked as told: its number in decimal
/// digits.
pub fn build_key(id: u64) -> (key: String)
    ensures
        key@ == decimal(id as nat),
{
    natural_string(id)
}

/// Whether a build is to be told: the store holds no mark, and the build
/// has finished and failed.
pub open spec fn should_notify_spec(mark: StoredMark, state: Seq<char>, status: Seq<char>) -> bool {
    mark is Absent && state == STATE_FINISHED@ && status == STATUS_FAILURE@
}

/// Whether a build is to be told.
pub fn should_notify(mark: StoredMark, state: &str, status: &str) -> (notify: bool)
    ensures
        notify == should_notify_spec(mark, state@, status@),
{
    match mark {
        StoredMark::Absent => same_text(state, STATE_FINISHED) && same_text(status, STATUS_FAILURE),
        _ => false,
    }
}

/// The variables that the template of a build can name, each with its
/// value: name, project_name, status and web_url.
pub open spec fn build_variables_spec(
    name: Seq<char>,
    project_name: Seq<char>,
    status_text: Seq<char>,
    web_url: Seq<char>,
) -> Seq<(Seq<char>, Seq<char>)> {
    seq![
        ("name"@, name),
        ("project_name"@, project_name),
        ("status"@, status_text),
        ("web_url"@, web_url),
    ]
}

/// The variables that the template of a build can name.
pub fn build_variables(name: &str, project_name: &str, status_text: &str, web_url: &str) -> (variables:
    Vec<(String, String)>)
    ensures
        variables_view(variables@) == build_variables_spec(
            name@,
            project_name@,
            status_text@,
            web_url@,
        ),
{
    let mut variables: Vec<(String, String)> = Vec::new();
    variables.push(("name".to_owned(), name.to_owned()));
    variables.push(("project_name".to_owned(), project_name.to_owned()));
    variables.push(("status".to_owned(), status_text.to_owned()));
    variables.push(("web_url".to_owned(), web_url.to_owned()));
    variables
}

/// The message about a failed build: the template filled with the variables
/// of the build.
pub fn build_message(
    template: &str,
    name: &str,
    project_name: &str,
    status_text: &str,
    web_url: &str,
) -> (r: Result<String, String>)
    ensures
        rendering_view(r) == rendered(
            template@,
            build_variables_spec(name@, project_name@, status_text@, web_url@),
        ),
{
    let variables = build_variables(name, project_name, status_text, web_url);
    render(template, &variables)
}

} // verus!
