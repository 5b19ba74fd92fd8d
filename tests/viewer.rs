use iconmate::viewer::{custom_command_argv, open_svg_with_fallback, OpenSvgAction, OpenSvgOutcome, OpenSvgStage};

#[test]
fn viewer_command_fills_placeholder() {
    let argv = custom_command_argv("code --wait '%filename%'", "/tmp/a b.svg").unwrap();
    assert_eq!(argv, vec!["code", "--wait", "/tmp/a b.svg"]);
}

#[test]
fn viewer_command_appends_file_without_placeholder() {
    let argv = custom_command_argv("inkscape", "/tmp/x.svg").unwrap();
    assert_eq!(argv, vec!["inkscape", "/tmp/x.svg"]);
}

#[test]
fn viewer_command_errors() {
    assert_eq!(custom_command_argv("   ", "f"), Err("svg_viewer_cmd is empty".to_string()));
    assert_eq!(
        custom_command_argv("code 'unclosed", "f"),
        Err("Could not parse svg_viewer_cmd. Check quoting in 'code 'unclosed'.".to_string())
    );
}

#[test]
fn missing_file_fails_at_once() {
    let (flow, action) = open_svg_with_fallback("/nowhere/x.svg", None, false);
    assert!(matches!(flow.stage, OpenSvgStage::Done));
    match action {
        OpenSvgAction::Finished(Err(m)) => assert_eq!(m, "Icon file not found: /nowhere/x.svg"),
        other => panic!("unexpected {:?}", other),
    }
}

#[test]
fn falls_back_from_custom_command_to_default_opener() {
    let (mut flow, action) = open_svg_with_fallback("/icons/mdi:heart.svg", Some("viewer"), true);
    match action {
        OpenSvgAction::RunCustomCommand { program, args } => {
            assert_eq!(program, "viewer");
            assert_eq!(args, vec!["/icons/mdi:heart.svg"]);
        }
        other => panic!("unexpected {:?}", other),
    }
    assert!(matches!(flow.step(Err("spawn failed".to_string())), OpenSvgAction::OpenWithOsDefault));
    match flow.step(Ok(())) {
        OpenSvgAction::Finished(Ok(outcome)) => {
            assert_eq!(outcome, OpenSvgOutcome::OpenedWithOsDefaultAfterCustomFailure)
        }
        other => panic!("unexpected {:?}", other),
    }
}

#[test]
fn falls_back_to_web_preview_for_catalog_icons() {
    let (mut flow, action) = open_svg_with_fallback("/icons/mdi:heart.svg", None, true);
    assert!(matches!(action, OpenSvgAction::OpenWithOsDefault));
    assert_eq!(flow.svg_stem.as_deref(), Some("mdi:heart"));
    match flow.step(Err("no opener".to_string())) {
        OpenSvgAction::OpenWebPreview { url } => {
            assert_eq!(url, "https://api.iconify.design/mdi%3Aheart.svg")
        }
        other => panic!("unexpected {:?}", other),
    }
    match flow.step(Ok(())) {
        OpenSvgAction::Finished(Ok(OpenSvgOutcome::OpenedWithWebPreview(url))) => {
            assert_eq!(url, "https://api.iconify.design/mdi%3Aheart.svg")
        }
        other => panic!("unexpected {:?}", other),
    }
}

#[test]
fn reports_every_failure_when_nothing_opens() {
    let (mut flow, _) = open_svg_with_fallback("/icons/logo.svg", Some("bad 'quote"), true);
    match flow.step(Err("no opener".to_string())) {
        OpenSvgAction::Finished(Err(m)) => assert_eq!(
            m,
            "Failed to open icon file /icons/logo.svg. custom svg_viewer_cmd failed: Could not parse svg_viewer_cmd. Check quoting in 'bad 'quote'. | OS default open failed: no opener"
        ),
        other => panic!("unexpected {:?}", other),
    }
}
