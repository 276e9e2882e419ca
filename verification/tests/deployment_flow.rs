use deployer::deploy_flow::{start_deployment, step, DeployAction, DeployError, DeployEvent, DeployStage, DeployState};
use deployer::project::{DockerfileKind, ProjectType};
use deployer::requests::DeployRequest;

fn request() -> DeployRequest {
    DeployRequest {
        user_id: 1,
        repo_url: "https://github.com/user/my-react-app.git".into(),
        repo_name: "my-react-app".into(),
        branch: "main".into(),
    }
}

fn feed(state: DeployState, event: DeployEvent) -> (DeployState, DeployAction) {
    assert!(state.accepts(&event), "event {:?} not accepted in {:?}", event, state.stage);
    step(state, event)
}

fn status_of(a: &DeployAction) -> (i64, String, Option<String>, Option<String>) {
    match a {
        DeployAction::RecordStatus { deployment_id, status, logs, live_url } => {
            (*deployment_id, status.clone(), logs.clone(), live_url.clone())
        }
        other => panic!("expected a status update, got {:?}", other),
    }
}

#[test]
fn successful_deployment() {
    let (s, a) = start_deployment(request());
    match a {
        DeployAction::CreateRecord { user_id, repo_name, branch } => {
            assert_eq!((user_id, repo_name.as_str(), branch.as_str()), (1, "my-react-app", "main"));
        }
        other => panic!("{:?}", other),
    }
    let (s, a) = feed(s, DeployEvent::RecordCreated { deployment_id: 42 });
    assert!(matches!(a, DeployAction::PrepareWorkspace { ref dir_name } if dir_name == "my-react-app-main"));
    let (s, a) = feed(s, DeployEvent::WorkspaceReady);
    match a {
        DeployAction::CloneRepository { repo_url, branch, dir_name } => {
            assert_eq!(repo_url, "https://github.com/user/my-react-app.git");
            assert_eq!(branch, "main");
            assert_eq!(dir_name, "my-react-app-main");
        }
        other => panic!("{:?}", other),
    }
    let (s, a) = feed(s, DeployEvent::Cloned { logs: "Cloning into...".into() });
    assert_eq!(status_of(&a), (42, "cloned".into(), Some("Cloning into...".into()), None));
    let (s, a) = feed(s, DeployEvent::StatusRecorded);
    assert!(matches!(a, DeployAction::DetectProject { ref dir_name } if dir_name == "my-react-app-main"));
    let (s, a) = feed(s, DeployEvent::Detected { project: ProjectType::React });
    assert_eq!(status_of(&a), (42, "detected: react".into(), None, None));
    let (s, a) = feed(s, DeployEvent::StatusRecorded);
    assert!(matches!(a, DeployAction::WriteDockerfile { template: DockerfileKind::Node, .. }));
    let (s, a) = feed(s, DeployEvent::DockerfileWritten);
    assert!(matches!(a, DeployAction::RemoveOldContainer { ref container_name } if container_name == "my-react-app-main"));
    let (s, a) = feed(s, DeployEvent::OldContainerRemoved);
    match a {
        DeployAction::BuildImage { dir_name, image_name } => {
            assert_eq!(dir_name, "my-react-app-main");
            assert_eq!(image_name, "my-react-app-main");
        }
        other => panic!("{:?}", other),
    }
    let (s, a) = feed(s, DeployEvent::ImageBuilt);
    assert_eq!(status_of(&a), (42, "image_built".into(), None, None));
    let (s, a) = feed(s, DeployEvent::StatusRecorded);
    assert!(matches!(a, DeployAction::RunContainer { .. }));
    let (s, a) = feed(s, DeployEvent::ContainerStarted { container_id: "c0ffee".into(), host_port: 3001 });
    assert_eq!(status_of(&a), (42, "container_running".into(), None, None));
    let (s, a) = feed(s, DeployEvent::StatusRecorded);
    match a {
        DeployAction::ConfigureProxy { site_name, container_name, port } => {
            assert_eq!(site_name, "my-react-app-main");
            assert_eq!(container_name, "my-react-app-main");
            assert_eq!(port, 3001);
        }
        other => panic!("{:?}", other),
    }
    let (s, a) = feed(s, DeployEvent::ProxyConfigured);
    assert_eq!(
        status_of(&a),
        (42, "deployed".into(), None, Some("http://my-react-app-main.localhost".into()))
    );
    let (s, a) = feed(s, DeployEvent::StatusRecorded);
    match a {
        DeployAction::Finish(r) => {
            assert_eq!(r.deployment_id, 42);
            assert_eq!(r.container_id, "c0ffee");
            assert_eq!(r.port, 3001);
            assert_eq!(r.live_url, "http://my-react-app-main.localhost");
        }
        other => panic!("{:?}", other),
    }
    assert_eq!(s.stage, DeployStage::Done);
    assert!(!s.accepts(&DeployEvent::StatusRecorded));
    assert!(!s.accepts(&DeployEvent::StepFailed { message: "late".into() }));
}

#[test]
fn unsupported_project_fails() {
    let (s, _) = start_deployment(request());
    let (s, _) = feed(s, DeployEvent::RecordCreated { deployment_id: 7 });
    let (s, _) = feed(s, DeployEvent::WorkspaceReady);
    let (s, _) = feed(s, DeployEvent::Cloned { logs: String::new() });
    let (s, _) = feed(s, DeployEvent::StatusRecorded);
    let (s, a) = feed(s, DeployEvent::Detected { project: ProjectType::Unknown });
    assert_eq!(status_of(&a), (7, "detected: unknown".into(), None, None));
    let (s, a) = feed(s, DeployEvent::StatusRecorded);
    assert_eq!(status_of(&a), (7, "unsupported_project_type".into(), None, None));
    let (s, a) = feed(s, DeployEvent::StatusRecorded);
    match a {
        DeployAction::Fail(e) => {
            assert!(matches!(e, DeployError::UnsupportedProjectType));
            assert_eq!(e.message(), "Unsupported project type.");
        }
        other => panic!("{:?}", other),
    }
    assert_eq!(s.stage, DeployStage::Failed);
}

#[test]
fn failed_step_ends_deployment() {
    let (s, _) = start_deployment(request());
    let (s, _) = feed(s, DeployEvent::RecordCreated { deployment_id: 9 });
    let (s, _) = feed(s, DeployEvent::WorkspaceReady);
    let (s, a) = feed(s, DeployEvent::StepFailed { message: "git clone failed: no such branch".into() });
    match a {
        DeployAction::Fail(e) => assert_eq!(e.message(), "git clone failed: no such branch"),
        other => panic!("{:?}", other),
    }
    assert_eq!(s.stage, DeployStage::Failed);
    assert!(!s.accepts(&DeployEvent::Cloned { logs: String::new() }));
}

#[test]
fn out_of_order_events_are_refused() {
    let (s, _) = start_deployment(request());
    assert!(!s.accepts(&DeployEvent::WorkspaceReady));
    assert!(!s.accepts(&DeployEvent::StatusRecorded));
    assert!(s.accepts(&DeployEvent::RecordCreated { deployment_id: 1 }));
    assert!(s.accepts(&DeployEvent::StepFailed { message: "db".into() }));
    assert_eq!(s.slug(), "my-react-app-main");
}
