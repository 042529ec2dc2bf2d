use dotnetvm::command::Command;
use dotnetvm::install::{
    install_plan, probe_state, script_invocation, InstallAction, InstallState,
};
use dotnetvm::platform::{home_var_name, interpreter, script_file_name, script_url, Platform};

fn strings(items: &[&str]) -> Vec<String> {
    items.iter().map(|s| s.to_string()).collect()
}

#[test]
fn probe_result_picks_the_state() {
    assert_eq!(probe_state(true), InstallState::AlreadyInstalled);
    assert_eq!(probe_state(false), InstallState::NeedsInstall);
}

#[test]
fn installed_plan_reports_only() {
    let plan = install_plan(probe_state(true), true, &Some("8.0.100".to_string()), Platform::Unix);
    assert_eq!(plan, vec![InstallAction::ReportInstalled]);
    for action in &plan {
        assert!(!matches!(action, InstallAction::Download { .. }));
        assert!(!matches!(action, InstallAction::RunScript { .. }));
        assert!(!matches!(action, InstallAction::MakeExecutable { .. }));
        assert!(!matches!(action, InstallAction::RemoveScriptFile { .. }));
    }
}

#[test]
fn needs_install_plan_unix() {
    let plan = install_plan(probe_state(false), false, &None, Platform::Unix);
    assert_eq!(plan.len(), 4);
    assert_eq!(
        plan[0],
        InstallAction::Download {
            url: "https://dotnet.microsoft.com/download/dotnet/scripts/v1/dotnet-install.sh"
                .to_string(),
            file_name: "dotnet-install.sh".to_string(),
        }
    );
    assert_eq!(
        plan[1],
        InstallAction::MakeExecutable {
            file_name: "dotnet-install.sh".to_string(),
        }
    );
    assert_eq!(
        plan[2],
        InstallAction::RunScript {
            program: "bash".to_string(),
            args: strings(&["dotnet-install.sh"]),
        }
    );
    assert_eq!(
        plan[3],
        InstallAction::RemoveScriptFile {
            file_name: "dotnet-install.sh".to_string(),
        }
    );
}

#[test]
fn needs_install_plan_windows() {
    let plan = install_plan(probe_state(false), false, &None, Platform::Windows);
    assert_eq!(plan.len(), 3);
    assert_eq!(
        plan[0],
        InstallAction::Download {
            url: "https://dotnet.microsoft.com/download/dotnet/scripts/v1/dotnet-install.ps1"
                .to_string(),
            file_name: "dotnet-install.ps1".to_string(),
        }
    );
    assert_eq!(
        plan[1],
        InstallAction::RunScript {
            program: "powershell".to_string(),
            args: strings(&[
                "-ExecutionPolicy",
                "Bypass",
                "-File",
                "dotnet-install.ps1",
            ]),
        }
    );
    assert_eq!(
        plan[2],
        InstallAction::RemoveScriptFile {
            file_name: "dotnet-install.ps1".to_string(),
        }
    );
}

#[test]
fn lts_wins_over_explicit_version() {
    let plan = install_plan(probe_state(false), true, &Some("7.0.100".to_string()), Platform::Unix);
    match &plan[2] {
        InstallAction::RunScript { program, args } => {
            assert_eq!(program, "bash");
            assert_eq!(
                args,
                &strings(&["dotnet-install.sh", "-Channel", "LTS"])
            );
            assert!(!args.contains(&"-Version".to_string()));
            assert!(!args.contains(&"7.0.100".to_string()));
        }
        other => panic!("expected a script run, got {:?}", other),
    }
}

#[test]
fn explicit_version_selector_without_lts() {
    let plan = install_plan(
        probe_state(false),
        false,
        &Some("7.0.100".to_string()),
        Platform::Windows,
    );
    match &plan[1] {
        InstallAction::RunScript { args, .. } => {
            assert_eq!(
                args,
                &strings(&[
                    "-ExecutionPolicy",
                    "Bypass",
                    "-File",
                    "dotnet-install.ps1",
                    "-Version",
                    "7.0.100",
                ])
            );
        }
        other => panic!("expected a script run, got {:?}", other),
    }
}

#[test]
fn cleanup_is_always_the_last_step() {
    let flag_choices = [
        (false, None),
        (true, None),
        (false, Some("6.0.100".to_string())),
        (true, Some("6.0.100".to_string())),
    ];
    for platform in [Platform::Unix, Platform::Windows] {
        let name = script_file_name(platform).to_string();
        for (lts, version) in flag_choices.clone() {
            let plan = install_plan(InstallState::NeedsInstall, lts, &version, platform);
            assert_eq!(
                plan.last(),
                Some(&InstallAction::RemoveScriptFile {
                    file_name: name.clone(),
                })
            );
        }
    }
}

#[test]
fn invocation_with_no_selector_runs_the_script_alone() {
    let inv = script_invocation(Platform::Unix, "dotnet-install.sh", false, &None);
    assert_eq!(inv.program, "bash");
    assert_eq!(inv.args, strings(&["dotnet-install.sh"]));
}

#[test]
fn platform_facts() {
    assert_eq!(home_var_name(Platform::Windows), "USERPROFILE");
    assert_eq!(home_var_name(Platform::Unix), "HOME");
    assert_eq!(interpreter(Platform::Windows), "powershell");
    assert_eq!(interpreter(Platform::Unix), "bash");
    assert_eq!(script_file_name(Platform::Windows), "dotnet-install.ps1");
    assert_eq!(script_file_name(Platform::Unix), "dotnet-install.sh");
    assert!(script_url(Platform::Windows).ends_with("dotnet-install.ps1"));
    assert!(script_url(Platform::Unix).ends_with("dotnet-install.sh"));
}

#[test]
fn command_carries_its_payload() {
    let cmd = Command::Install {
        lts: true,
        version: Some("8.0.100".to_string()),
    };
    match cmd {
        Command::Install { lts, version } => {
            assert!(lts);
            assert_eq!(version.as_deref(), Some("8.0.100"));
        }
        other => panic!("unexpected command {:?}", other),
    }
    assert_ne!(Command::Current, Command::List);
}
