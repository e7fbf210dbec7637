use monitor_input::{
    build_command, interpret_run, parse_input, plan_switch, DisplayInput, Platform, SwitchError,
    DDM_PATH,
};

fn strings(words: &[&str]) -> Vec<String> {
    words.iter().map(|w| w.to_string()).collect()
}

#[test]
fn parses_dp() {
    assert_eq!(parse_input("DP"), Ok(DisplayInput::DP));
}

#[test]
fn parses_mdp() {
    assert_eq!(parse_input("mDP"), Ok(DisplayInput::MDP));
}

#[test]
fn rejects_other_words() {
    for word in ["", "dp", "MDP", "mdp", "bad", " DP", "DP ", "DPP", "mD", "D", "mDPx", "\u{1F4FA}"] {
        assert_eq!(parse_input(word), Err(SwitchError::Validation), "word {:?}", word);
    }
}

#[test]
fn validation_message_names_accepted_words() {
    let msg = SwitchError::Validation.message();
    assert_eq!(msg, "Input must be either DP or mDP");
    assert!(msg.contains("DP") && msg.contains("mDP"));
}

#[test]
fn tool_failure_message() {
    assert_eq!(SwitchError::ExternalToolFailure.message(), "Failed to switch monitor active input");
}

#[test]
fn display_manager_tokens() {
    assert_eq!(DisplayInput::DP.ddm_command(), "DP");
    assert_eq!(DisplayInput::MDP.ddm_command(), "mDP");
}

#[test]
fn ddcctl_tokens() {
    assert_eq!(DisplayInput::DP.ddcctl_command(), "15");
    assert_eq!(DisplayInput::MDP.ddcctl_command(), "16");
}

#[test]
fn display_manager_command_line() {
    let c = build_command(DisplayInput::MDP, Platform::DisplayManager);
    assert_eq!(c.program, "cmd");
    assert_eq!(c.args, strings(&["/C", DDM_PATH, "1:SetActiveInput", "mDP", "/Exit"]));
    assert_eq!(DDM_PATH, r"C:\Program Files (x86)\Dell\Dell Display Manager\ddm.exe");
}

#[test]
fn ddcctl_command_line() {
    let c = build_command(DisplayInput::DP, Platform::Ddcctl);
    assert_eq!(c.program, "ddcctl");
    assert_eq!(c.args, strings(&["-d", "1", "-i", "15"]));
    let c = build_command(DisplayInput::MDP, Platform::Ddcctl);
    assert_eq!(c.args, strings(&["-d", "1", "-i", "16"]));
}

#[test]
fn command_is_deterministic() {
    for input in [DisplayInput::DP, DisplayInput::MDP] {
        for platform in [Platform::DisplayManager, Platform::Ddcctl] {
            assert_eq!(build_command(input, platform), build_command(input, platform));
        }
    }
}

#[test]
fn successful_run_reports_nothing() {
    let r = interpret_run(true, "exit status: 0", "ignored", "ignored");
    assert_eq!(r.result, Ok(()));
    assert_eq!(r.stdout, "");
    assert_eq!(r.stderr, "");
}

#[test]
fn failed_run_reports_streams() {
    let r = interpret_run(false, "exit status: 1", "out", "err");
    assert_eq!(r.result, Err(SwitchError::ExternalToolFailure));
    assert_eq!(r.stdout, "status: exit status: 1\nstdout: out\n");
    assert_eq!(r.stderr, "stderr: err\n");
}

#[test]
fn scenario_dp_tool_succeeds() {
    let c = plan_switch("DP", Platform::Ddcctl).unwrap();
    assert_eq!(c.args, strings(&["-d", "1", "-i", "15"]));
    let r = interpret_run(true, "exit status: 0", "", "");
    assert_eq!(r.result, Ok(()));
    assert!(r.stdout.is_empty() && r.stderr.is_empty());
}

#[test]
fn scenario_mdp_tool_succeeds() {
    let c = plan_switch("mDP", Platform::DisplayManager).unwrap();
    assert_eq!(c.args[3], "mDP");
    let r = interpret_run(true, "exit status: 0", "", "");
    assert_eq!(r.result, Ok(()));
    assert!(r.stdout.is_empty() && r.stderr.is_empty());
}

#[test]
fn scenario_dp_tool_fails() {
    assert!(plan_switch("DP", Platform::Ddcctl).is_ok());
    let r = interpret_run(false, "exit status: 1", "", "err");
    let e = r.result.unwrap_err();
    assert_eq!(e, SwitchError::ExternalToolFailure);
    assert!(r.stderr.contains("err"));
    assert!(e.message().contains("Failed to switch monitor active input"));
}

#[test]
fn scenario_bad_argument_launches_nothing() {
    for platform in [Platform::DisplayManager, Platform::Ddcctl] {
        let e = plan_switch("bad", platform).unwrap_err();
        assert_eq!(e, SwitchError::Validation);
        assert!(e.message().contains("DP") && e.message().contains("mDP"));
    }
}

#[test]
fn scenario_tool_not_found() {
    assert!(plan_switch("DP", Platform::Ddcctl).is_ok());
    let r = interpret_run(false, "No such file or directory (os error 2)", "", "");
    assert_eq!(r.result, Err(SwitchError::ExternalToolFailure));
    assert_ne!(r.result, Err(SwitchError::Validation));
}
