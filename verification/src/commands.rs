//! The argument lists of the external programs a deployment runs.
use vstd::prelude::*;

verus! {

/// The texts of a list of strings.
pub open spec fn texts(v: Seq<String>) -> Seq<Seq<char>> {
    v.map_values(|s: String| s@)
}

/// Arguments of `git` that clone `branch` of `repo_url` into `target_dir`.
pub fn git_clone_args(repo_url: &str, branch: &str, target_dir: &str) -> (r: Vec<String>)
    ensures
        texts(r@) == seq!["clone"@, "--branch"@, branch@, repo_url@, target_dir@],
{
    let mut r: Vec<String> = Vec::new();
    r.push(String::from_str("clone"));
    r.push(String::from_str("--branch"));
    r.push(String::from_str(branch));
    r.push(String::from_str(repo_url));
    r.push(String::from_str(target_dir));
    assert(texts(r@) =~= seq!["clone"@, "--branch"@, branch@, repo_url@, target_dir@]);
    r
}

/// Arguments of `docker` that build the directory `context_path` into an image tagged `image_name`.
pub fn docker_build_args(context_path: &str, image_name: &str) -> (r: Vec<String>)
    ensures
        texts(r@) == seq!["build"@, "-t"@, image_name@, context_path@],
{
    let mut r: Vec<String> = Vec::new();
    r.push(String::from_str("build"));
    r.push(String::from_str("-t"));
    r.push(String::from_str(image_name));
    r.push(String::from_str(context_path));
    assert(texts(r@) =~= seq!["build"@, "-t"@, image_name@, context_path@]);
    r
}

/// The command run inside the Nginx container to load a changed configuration.
pub fn nginx_reload_command() -> (r: Vec<String>)
    ensures
        texts(r@) == seq!["nginx"@, "-s"@, "reload"@],
{
    let mut r: Vec<String> = Vec::new();
    r.push(String::from_str("nginx"));
    r.push(String::from_str("-s"));
    r.push(String::from_str("reload"));
    assert(texts(r@) =~= seq!["nginx"@, "-s"@, "reload"@]);
    r
}


/// What a finished `git clone` gives: what it printed when it succeeded,
/// otherwise "git clone failed: " followed by its error output.
pub fn git_clone_result(succeeded: bool, stdout: String, stderr: String) -> (r: Result<String, String>)
    ensures
        succeeded ==> (r matches Ok(out) && out@ == stdout@),
        !succeeded ==> (r matches Err(e) && e@ == "git clone failed: "@ + stderr@),
{
    if succeeded {
        Ok(stdout)
    } else {
        let mut e = String::from_str("git clone failed: ");
        e.append(stderr.as_str());
        Err(e)
    }
}

/// What a finished `docker build` gives: nothing when it succeeded,
/// otherwise "Docker build failed: " followed by its error output.
pub fn docker_build_result(succeeded: bool, stderr: String) -> (r: Result<(), String>)
    ensures
        succeeded ==> r is Ok,
        !succeeded ==> (r matches Err(e) && e@ == "Docker build failed: "@ + stderr@),
{
    if succeeded {
        Ok(())
    } else {
        let mut e = String::from_str("Docker build failed: ");
        e.append(stderr.as_str());
        Err(e)
    }
}

} // verus!
