use webhook_relay::executor::{executor_step, process_lines, StepOutcome};

fn projects() -> Vec<String> {
    vec![String::from("site"), String::from("blog")]
}

#[test]
fn known_project_resolves_inside_the_scripts_dir() {
    let step = executor_step(&projects(), "/srv/scripts", "deploy site");
    assert_eq!(step, StepOutcome::Execute { path: String::from("/srv/scripts/site/deploy") });
}

#[test]
fn undecodable_line_is_a_parse_failure() {
    assert_eq!(executor_step(&projects(), "/srv/scripts", "garbage"), StepOutcome::ParseFailure);
    assert_eq!(
        executor_step(&projects(), "/srv/scripts", "restart site"),
        StepOutcome::ParseFailure
    );
}

#[test]
fn unconfigured_project_is_dropped() {
    assert_eq!(
        executor_step(&projects(), "/srv/scripts", "deploy shop"),
        StepOutcome::UnknownProject
    );
}

#[test]
fn traversal_projects_never_resolve() {
    let evil: Vec<String> = vec![
        String::from(".."),
        String::from("."),
        String::from("../evil"),
        String::from("/etc"),
        String::from("a/b"),
        String::from("a\\b"),
        String::from(""),
    ];
    for project in &evil {
        let line = format!("deploy {}", project);
        let step = executor_step(&evil, "/srv/scripts", &line);
        assert_eq!(step, StepOutcome::UnsafeProject, "project {:?} must not resolve", project);
    }
}

#[test]
fn resolved_paths_always_start_with_the_scripts_dir() {
    let configured: Vec<String> = vec![String::from("site"), String::from("weird name")];
    for project in &configured {
        let line = format!("deploy {}", project);
        match executor_step(&configured, "/srv/scripts", &line) {
            StepOutcome::Execute { path } => {
                assert!(path.starts_with("/srv/scripts/"));
                assert!(path.ends_with("/deploy"));
            }
            other => panic!("expected a resolution, got {:?}", other),
        }
    }
}

#[test]
fn drain_survives_bad_lines_and_keeps_processing() {
    let lines: Vec<String> = vec![
        String::from("not a command"),
        String::from("deploy shop"),
        String::from("deploy .."),
        String::from("deploy site"),
    ];
    let steps = process_lines(&projects(), "/srv/scripts", &lines);
    assert_eq!(steps.len(), 4);
    assert_eq!(steps[0], StepOutcome::ParseFailure);
    assert_eq!(steps[1], StepOutcome::UnknownProject);
    assert_eq!(steps[2], StepOutcome::UnknownProject);
    assert_eq!(
        steps[3],
        StepOutcome::Execute { path: String::from("/srv/scripts/site/deploy") }
    );
}
