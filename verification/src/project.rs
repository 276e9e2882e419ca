//! Recognising what kind of project a cloned repository holds, and which
//! Dockerfile template builds it.
use crate::text::{contains_str, seq_contains};
use vstd::prelude::*;

verus! {

/// The kinds of project the platform can tell apart.
#[derive(Clone, Copy, Debug, PartialEq, Eq, Structural)]
pub enum ProjectType {
    React,
    Next,
    Vue,
    Node,
    Rust,
    Python,
    Static,
    Unknown,
}

/// The name of a project type, as recorded in a deployment's status.
pub open spec fn project_type_name(t: ProjectType) -> Seq<char> {
    match t {
        ProjectType::React => "react"@,
        ProjectType::Next => "next"@,
        ProjectType::Vue => "vue"@,
        ProjectType::Node => "node"@,
        ProjectType::Rust => "rust"@,
        ProjectType::Python => "python"@,
        ProjectType::Static => "static"@,
        ProjectType::Unknown => "unknown"@,
    }
}

impl ProjectType {
    /// The type's name: "react", "next", "vue", "node", "rust", "python", "static" or "unknown".
    pub fn name(&self) -> (r: String)
        ensures
            r@ == project_type_name(*self),
    {
        match self {
            ProjectType::React => String::from_str("react"),
            ProjectType::Next => String::from_str("next"),
            ProjectType::Vue => String::from_str("vue"),
            ProjectType::Node => String::from_str("node"),
            ProjectType::Rust => String::from_str("rust"),
            ProjectType::Python => String::from_str("python"),
            ProjectType::Static => String::from_str("static"),
            ProjectType::Unknown => String::from_str("unknown"),
        }
    }
}

/// What was found in a project's directory: the text of `package.json` when
/// it is a file that could be read, and whether `Cargo.toml`,
/// `requirements.txt` and `index.html` exist.
#[derive(Debug)]
pub struct ProjectProbe {
    pub package_json: Option<String>,
    pub has_cargo_toml: bool,
    pub has_requirements_txt: bool,
    pub has_index_html: bool,
}

/// The project type of a directory: a `package.json` decides between Next
/// (it names "next", whether or not it also names react), React (it names
/// "react", "react-scripts" or "@vitejs/plugin-react"), Vue and plain Node; without one, `Cargo.toml` means Rust, then
/// `requirements.txt` means Python, then `index.html` means a static site.
pub open spec fn detected_type(
    package_json: Option<Seq<char>>,
    has_cargo_toml: bool,
    has_requirements_txt: bool,
    has_index_html: bool,
) -> ProjectType {
    match package_json {
        Some(pkg) => {
            if seq_contains(pkg, "\"next\""@) {
                ProjectType::Next
            } else if seq_contains(pkg, "\"react\""@) || seq_contains(pkg, "\"react-scripts\""@)
                || seq_contains(pkg, "\"@vitejs/plugin-react\""@) {
                ProjectType::React
            } else if seq_contains(pkg, "\"vue\""@) {
                ProjectType::Vue
            } else {
                ProjectType::Node
            }
        },
        None => {
            if has_cargo_toml {
                ProjectType::Rust
            } else if has_requirements_txt {
                ProjectType::Python
            } else if has_index_html {
                ProjectType::Static
            } else {
                ProjectType::Unknown
            }
        },
    }
}

/// The package.json text of a probe, as a sequence of characters.
pub open spec fn probe_package_json(p: ProjectProbe) -> Option<Seq<char>> {
    match p.package_json {
        Some(s) => Some(s@),
        None => None,
    }
}

/// Decides the project type from what was found in its directory.
pub fn detect_project_type(probe: &ProjectProbe) -> (r: ProjectType)
    ensures
        r == detected_type(
            probe_package_json(*probe),
            probe.has_cargo_toml,
            probe.has_requirements_txt,
            probe.has_index_html,
        ),
{
    match &probe.package_json {
        Some(pkg) => {
            let p = pkg.as_str();
            if contains_str(p, "\"next\"") {
                ProjectType::Next
            } else if contains_str(p, "\"react\"") || contains_str(p, "\"react-scripts\"")
                || contains_str(p, "\"@vitejs/plugin-react\"") {
                ProjectType::React
            } else if contains_str(p, "\"vue\"") {
                ProjectType::Vue
            } else {
                ProjectType::Node
            }
        },
        None => {
            if probe.has_cargo_toml {
                ProjectType::Rust
            } else if probe.has_requirements_txt {
                ProjectType::Python
            } else if probe.has_index_html {
                ProjectType::Static
            } else {
                ProjectType::Unknown
            }
        },
    }
}

/// The Dockerfile templates, one per family of project.
#[derive(Clone, Copy, Debug, PartialEq, Eq, Structural)]
pub enum DockerfileKind {
    Node,
    Rust,
    Python,
    Static,
}

/// The template that builds a project type; none for an unknown project.
pub open spec fn dockerfile_kind_of(t: ProjectType) -> Option<DockerfileKind> {
    match t {
        ProjectType::React | ProjectType::Next | ProjectType::Vue | ProjectType::Node => Some(
            DockerfileKind::Node,
        ),
        ProjectType::Rust => Some(DockerfileKind::Rust),
        ProjectType::Python => Some(DockerfileKind::Python),
        ProjectType::Static => Some(DockerfileKind::Static),
        ProjectType::Unknown => None,
    }
}

/// Picks the Dockerfile template for a project type.
pub fn dockerfile_for(t: ProjectType) -> (r: Option<DockerfileKind>)
    ensures
        r == dockerfile_kind_of(t),
{
    match t {
        ProjectType::React | ProjectType::Next | ProjectType::Vue | ProjectType::Node => Some(
            DockerfileKind::Node,
        ),
        ProjectType::Rust => Some(DockerfileKind::Rust),
        ProjectType::Python => Some(DockerfileKind::Python),
        ProjectType::Static => Some(DockerfileKind::Static),
        ProjectType::Unknown => None,
    }
}

/// The file name of a template, under the `dockerfiles` directory.
pub open spec fn template_file_name(k: DockerfileKind) -> Seq<char> {
    match k {
        DockerfileKind::Node => "node.Dockerfile"@,
        DockerfileKind::Rust => "rust.Dockerfile"@,
        DockerfileKind::Python => "python.Dockerfile"@,
        DockerfileKind::Static => "static.Dockerfile"@,
    }
}

impl DockerfileKind {
    /// The template's file name: "node.Dockerfile", "rust.Dockerfile",
    /// "python.Dockerfile" or "static.Dockerfile".
    pub fn template_file(&self) -> (r: String)
        ensures
            r@ == template_file_name(*self),
    {
        match self {
            DockerfileKind::Node => String::from_str("node.Dockerfile"),
            DockerfileKind::Rust => String::from_str("rust.Dockerfile"),
            DockerfileKind::Python => String::from_str("python.Dockerfile"),
            DockerfileKind::Static => String::from_str("static.Dockerfile"),
        }
    }
}

/// Every project type but the unknown one has a template.
pub proof fn lemma_known_types_have_a_template(t: ProjectType)
    ensures
        (dockerfile_kind_of(t) is Some) <==> (t != ProjectType::Unknown),
{
}

/// A directory with a package.json is always some JavaScript project, whatever
/// else it holds.
pub proof fn lemma_package_json_means_node_family(pkg: Seq<char>, cargo: bool, req: bool, index: bool)
    ensures
        dockerfile_kind_of(detected_type(Some(pkg), cargo, req, index)) == Some(DockerfileKind::Node),
{
}

/// A package.json that names next is a Next.js project, even when it also
/// names react (as every Next.js project does).
pub proof fn lemma_next_wins_over_react(pkg: Seq<char>, cargo: bool, req: bool, index: bool)
    requires
        seq_contains(pkg, "\"next\""@),
    ensures
        detected_type(Some(pkg), cargo, req, index) == ProjectType::Next,
{
}

/// Only a directory with none of the files looked for is of unknown type.
pub proof fn lemma_unknown_only_without_markers(
    pkg: Option<Seq<char>>,
    cargo: bool,
    req: bool,
    index: bool,
)
    ensures
        (detected_type(pkg, cargo, req, index) == ProjectType::Unknown) <==> (pkg is None && !cargo
            && !req && !index),
{
}


/// Without a package.json, the marker files decide, in this order of
/// precedence: Cargo.toml means Rust, then requirements.txt means Python
/// (whatever else is there), then index.html means a static site; with none
/// of them the type is unknown.
pub proof fn lemma_marker_files_decide(cargo: bool, req: bool, index: bool)
    ensures
        cargo ==> detected_type(None, cargo, req, index) == ProjectType::Rust,
        !cargo && req ==> detected_type(None, cargo, req, index) == ProjectType::Python,
        !cargo && !req && index ==> detected_type(None, cargo, req, index) == ProjectType::Static,
        !cargo && !req && !index ==> detected_type(None, cargo, req, index) == ProjectType::Unknown,
{
}

/// With a package.json, its dependencies decide: naming "next" means Next;
/// otherwise naming "react", "react-scripts" or "@vitejs/plugin-react" means
/// React, and only those; otherwise naming "vue" means Vue (so a Vite + Vue
/// project, which names "@vitejs/plugin-vue", is Vue); anything else is plain
/// Node. The marker files play no part.
pub proof fn lemma_package_json_decides(pkg: Seq<char>, cargo: bool, req: bool, index: bool)
    ensures
        (detected_type(Some(pkg), cargo, req, index) == ProjectType::Next) <==> seq_contains(
            pkg,
            "\"next\""@,
        ),
        (detected_type(Some(pkg), cargo, req, index) == ProjectType::React) <==> (!seq_contains(
            pkg,
            "\"next\""@,
        ) && (seq_contains(pkg, "\"react\""@) || seq_contains(pkg, "\"react-scripts\""@)
            || seq_contains(pkg, "\"@vitejs/plugin-react\""@))),
        (detected_type(Some(pkg), cargo, req, index) == ProjectType::Vue) <==> (!seq_contains(
            pkg,
            "\"next\""@,
        ) && !seq_contains(pkg, "\"react\""@) && !seq_contains(pkg, "\"react-scripts\""@)
            && !seq_contains(pkg, "\"@vitejs/plugin-react\""@) && seq_contains(pkg, "\"vue\""@)),
        (detected_type(Some(pkg), cargo, req, index) == ProjectType::Node) <==> (!seq_contains(
            pkg,
            "\"next\""@,
        ) && !seq_contains(pkg, "\"react\""@) && !seq_contains(pkg, "\"react-scripts\""@)
            && !seq_contains(pkg, "\"@vitejs/plugin-react\""@) && !seq_contains(pkg, "\"vue\""@)),
{
}

} // verus!
