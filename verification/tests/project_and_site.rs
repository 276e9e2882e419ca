use deployer::commands::{docker_build_args, docker_build_result, git_clone_args, git_clone_result, nginx_reload_command};
use deployer::github::{
    authorization_header, own_profile_url, own_repos_url, repo_branches_url, user_agent,
    user_repos_url,
};
use deployer::project::{detect_project_type, dockerfile_for, DockerfileKind, ProjectProbe, ProjectType};
use deployer::site::{
    deployment_slug, live_url, nginx_conf_file_name, nginx_container_name, nginx_site_config,
    static_site_url,
};

fn probe(pkg: Option<&str>, cargo: bool, req: bool, index: bool) -> ProjectProbe {
    ProjectProbe {
        package_json: pkg.map(|s| s.to_string()),
        has_cargo_toml: cargo,
        has_requirements_txt: req,
        has_index_html: index,
    }
}

#[test]
fn detects_react_projects() {
    let cases = [
        r#"{"dependencies": {"react": "^18.2.0"}}"#,
        r#"{"dependencies": {"react-scripts": "5.0.1"}}"#,
        r#"{"devDependencies": {"@vitejs/plugin-react": "^4.0.0"}}"#,
    ];
    for c in cases {
        assert_eq!(detect_project_type(&probe(Some(c), false, false, false)), ProjectType::React);
    }
}

#[test]
fn detects_next_projects_that_also_name_react() {
    let pkg = r#"{"dependencies": {"next": "14.1.0", "react": "^18", "react-dom": "^18"}}"#;
    assert_eq!(detect_project_type(&probe(Some(pkg), false, false, false)), ProjectType::Next);
}

#[test]
fn detects_other_javascript_projects() {
    assert_eq!(detect_project_type(&probe(Some(r#"{"next": "13"}"#), true, true, true)), ProjectType::Next);
    assert_eq!(detect_project_type(&probe(Some(r#"{"vue": "3"}"#), false, false, false)), ProjectType::Vue);
    assert_eq!(detect_project_type(&probe(Some(r#"{"express": "4"}"#), true, false, false)), ProjectType::Node);
    assert_eq!(detect_project_type(&probe(Some(r#"{"reactive": "1"}"#), false, false, false)), ProjectType::Node);
}

#[test]
fn detects_projects_without_package_json() {
    assert_eq!(detect_project_type(&probe(None, true, true, true)), ProjectType::Rust);
    assert_eq!(detect_project_type(&probe(None, false, true, true)), ProjectType::Python);
    assert_eq!(detect_project_type(&probe(None, false, false, true)), ProjectType::Static);
    assert_eq!(detect_project_type(&probe(None, false, false, false)), ProjectType::Unknown);
}

#[test]
fn project_type_names() {
    let names = [
        (ProjectType::React, "react"),
        (ProjectType::Next, "next"),
        (ProjectType::Vue, "vue"),
        (ProjectType::Node, "node"),
        (ProjectType::Rust, "rust"),
        (ProjectType::Python, "python"),
        (ProjectType::Static, "static"),
        (ProjectType::Unknown, "unknown"),
    ];
    for (t, n) in names {
        assert_eq!(t.name(), n);
    }
}

#[test]
fn dockerfile_templates() {
    assert_eq!(dockerfile_for(ProjectType::React), Some(DockerfileKind::Node));
    assert_eq!(dockerfile_for(ProjectType::Next), Some(DockerfileKind::Node));
    assert_eq!(dockerfile_for(ProjectType::Vue), Some(DockerfileKind::Node));
    assert_eq!(dockerfile_for(ProjectType::Node), Some(DockerfileKind::Node));
    assert_eq!(dockerfile_for(ProjectType::Rust), Some(DockerfileKind::Rust));
    assert_eq!(dockerfile_for(ProjectType::Python), Some(DockerfileKind::Python));
    assert_eq!(dockerfile_for(ProjectType::Static), Some(DockerfileKind::Static));
    assert_eq!(dockerfile_for(ProjectType::Unknown), None);
    assert_eq!(DockerfileKind::Node.template_file(), "node.Dockerfile");
    assert_eq!(DockerfileKind::Rust.template_file(), "rust.Dockerfile");
    assert_eq!(DockerfileKind::Python.template_file(), "python.Dockerfile");
    assert_eq!(DockerfileKind::Static.template_file(), "static.Dockerfile");
}

#[test]
fn site_names_and_addresses() {
    let slug = deployment_slug("my-react-app", "main");
    assert_eq!(slug, "my-react-app-main");
    assert_eq!(live_url(&slug), "http://my-react-app-main.localhost");
    assert_eq!(static_site_url(&slug, 3000), "http://my-react-app-main.localhost:3000");
    assert_eq!(static_site_url("a", 0), "http://a.localhost:0");
    assert_eq!(nginx_conf_file_name(&slug), "my-react-app-main.conf");
    assert_eq!(nginx_container_name(), "cicd-nginx");
}

#[test]
fn nginx_server_block() {
    let site_name = "shop-dev";
    let container_name = "shop-dev";
    let port = 3001;
    let expected = format!(
        r#"
                server {{
                    listen 80;
                    server_name {site_name}.localhost;

                    location / {{
                        proxy_pass http://{container_name}:{port};
                        proxy_http_version 1.1;
                        proxy_set_header Upgrade $http_upgrade;
                        proxy_set_header Connection 'upgrade';
                        proxy_set_header Host $host;
                        proxy_set_header X-Real-IP $remote_addr;
                        proxy_set_header X-Forwarded-For $proxy_add_x_forwarded_for;
                        proxy_set_header X-Forwarded-Proto $scheme;
                        proxy_cache_bypass $http_upgrade;
                    }}
                }}
                "#
    );
    assert_eq!(nginx_site_config(site_name, container_name, port), expected);
    assert!(nginx_site_config("a", "b", -1).contains("proxy_pass http://b:-1;"));
}

#[test]
fn command_arguments() {
    assert_eq!(
        git_clone_args("https://github.com/u/app.git", "main", "/srv/deployments/app-main"),
        vec!["clone", "--branch", "main", "https://github.com/u/app.git", "/srv/deployments/app-main"]
    );
    assert_eq!(docker_build_args("/srv/deployments/app-main", "app-main"), vec!["build", "-t", "app-main", "/srv/deployments/app-main"]);
    assert_eq!(nginx_reload_command(), vec!["nginx", "-s", "reload"]);
}

#[test]
fn github_requests() {
    assert_eq!(user_repos_url("octocat"), "https://api.github.com/users/octocat/repos");
    assert_eq!(repo_branches_url("octocat", "hello"), "https://api.github.com/repos/octocat/hello/branches");
    assert_eq!(authorization_header("abc123"), "token abc123");
    assert_eq!(own_repos_url(), "https://api.github.com/user/repos");
    assert_eq!(own_profile_url(), "https://api.github.com/user");
    assert_eq!(user_agent(), "axum-ci-cd");
}

#[test]
fn command_outcomes() {
    assert_eq!(git_clone_result(true, "done".into(), "".into()), Ok("done".to_string()));
    assert_eq!(
        git_clone_result(false, "".into(), "fatal: Remote branch x not found".into()),
        Err("git clone failed: fatal: Remote branch x not found".to_string())
    );
    assert_eq!(docker_build_result(true, "".into()), Ok(()));
    assert_eq!(docker_build_result(false, "no Dockerfile".into()), Err("Docker build failed: no Dockerfile".to_string()));
}
