//! Where a project keeps what the server reads and writes, relative to the
//! project root.

use vstd::prelude::*;
use crate::path::{join_path, path_join};

verus! {

/// The launch-info file, relative to the project root.
pub const LAUNCH_INFO_RELATIVE_PATH: &'static str = ".knownow/launch.json";

/// The directory that holds the server's per-project state.
pub fn launch_info_dir(project_root: &str) -> (r: String)
    ensures
        r@ == path_join(project_root@, ".knownow"@),
{
    join_path(project_root, ".knownow")
}

/// The launch-info file of a project: `<project_root>/.knownow/launch.json`.
pub fn launch_info_path(project_root: &str) -> (r: String)
    ensures
        r@ == path_join(project_root@, LAUNCH_INFO_RELATIVE_PATH@),
{
    join_path(project_root, LAUNCH_INFO_RELATIVE_PATH)
}

/// The review-state file of a project.
pub fn review_state_path(project_root: &str) -> (r: String)
    ensures
        r@ == path_join(path_join(project_root@, ".knownow"@), "review_state.json"@),
{
    let dir = launch_info_dir(project_root);
    join_path(dir.as_str(), "review_state.json")
}

/// The directory of authoring metadata.
pub fn metadata_dir(project_root: &str) -> (r: String)
    ensures
        r@ == path_join(project_root@, "metadata"@),
{
    join_path(project_root, "metadata")
}

/// The directory of generated artifacts.
pub fn generated_dir(project_root: &str) -> (r: String)
    ensures
        r@ == path_join(project_root@, "generated"@),
{
    join_path(project_root, "generated")
}

/// The directory of generated documents.
pub fn docs_dir(project_root: &str) -> (r: String)
    ensures
        r@ == path_join(project_root@, "generated/docs"@),
{
    join_path(project_root, "generated/docs")
}

/// The launch-info file is the file `launch.json` inside the launch-info
/// directory: the file the server writes is the file a reader looks up.
pub proof fn law_launch_info_path_in_dir(project_root: Seq<char>)
    ensures
        path_join(project_root, LAUNCH_INFO_RELATIVE_PATH@)
            == path_join(path_join(project_root, ".knownow"@), "launch.json"@),
{
    reveal_strlit(".knownow/launch.json");
    reveal_strlit(".knownow");
    reveal_strlit("launch.json");
    let dir = path_join(project_root, ".knownow"@);
    assert(LAUNCH_INFO_RELATIVE_PATH@ =~= ".knownow"@.push('/') + "launch.json"@);
    if project_root.len() == 0 {
    } else if project_root.last() == '/' {
        assert(dir.last() != '/');
        assert(project_root + (".knownow"@.push('/') + "launch.json"@)
            =~= (project_root + ".knownow"@).push('/') + "launch.json"@);
    } else {
        assert(dir.last() != '/');
        assert(project_root.push('/') + (".knownow"@.push('/') + "launch.json"@)
            =~= (project_root.push('/') + ".knownow"@).push('/') + "launch.json"@);
    }
}

} // verus!
