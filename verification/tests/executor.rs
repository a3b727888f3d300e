use cinstall::executor::{
    copy_failure_error, execute_install_headers, execute_install_method, CopyFailure, ExecAction,
    ExecEvent, Executor,
};
use cinstall::installer::{InstallError, InstallMethod};

#[test]
fn direct_install_success_ends_done() {
    let e = execute_install_method(&InstallMethod::MakeInstall);
    assert!(matches!(e, Executor::Installing));
    assert!(matches!(e.action(), ExecAction::RunInstallTarget));
    let e = e.step(ExecEvent::ToolExited(true));
    assert!(matches!(e, Executor::Done));
    assert!(matches!(e.outcome(), Some(Ok(()))));
}

#[test]
fn configure_is_a_pre_step_before_the_install_target() {
    let e = execute_install_method(&InstallMethod::RunCMake);
    assert!(matches!(e, Executor::Configuring));
    assert!(matches!(e.action(), ExecAction::RunConfigure));
    let e = e.step(ExecEvent::ToolExited(true));
    assert!(matches!(e, Executor::Installing));
    let e = e.step(ExecEvent::ToolExited(true));
    assert!(matches!(e.outcome(), Some(Ok(()))));
}

#[test]
fn configure_failure_is_fatal() {
    let e = execute_install_method(&InstallMethod::RunCMake);
    let e = e.step(ExecEvent::ToolExited(false));
    match e.outcome() {
        Some(Err(InstallError::CMakeFailed)) => {}
        _ => panic!("a non-zero configure exit must be fatal"),
    }
}

#[test]
fn configure_launch_failure_names_the_tool() {
    let e = execute_install_method(&InstallMethod::RunCMake);
    let e = e.step(ExecEvent::ToolLaunchFailed("no such file".to_string()));
    match e {
        Executor::Failed(InstallError::CouldNotStartProcess(msg)) => {
            assert_eq!(msg, "failed to start cmake: no such file");
        }
        _ => panic!("a configure tool that cannot start must be fatal"),
    }
}

#[test]
fn install_launch_failure_is_fatal_not_recovered() {
    let e = execute_install_method(&InstallMethod::MakeInstall);
    let e = e.step(ExecEvent::ToolLaunchFailed("missing".to_string()));
    match e {
        Executor::Failed(InstallError::CouldNotStartProcess(msg)) => {
            assert_eq!(msg, "missing");
        }
        _ => panic!("a build tool that cannot start must be fatal"),
    }
}

#[test]
fn install_failure_enters_recovery_and_sentinel_ends_it() {
    let e = execute_install_method(&InstallMethod::MakeInstall);
    let e = e.step(ExecEvent::ToolExited(false));
    assert!(matches!(e, Executor::RecoveryIntro));
    assert!(matches!(e.action(), ExecAction::ShowTargets));
    // The help listing failing to run degrades, it does not abort.
    let e = e.step(ExecEvent::ToolLaunchFailed("no help".to_string()));
    assert!(matches!(e, Executor::RecoveryPrompt));
    assert!(matches!(e.action(), ExecAction::PromptTarget));
    // A failing target re-prompts.
    let e = e.step(ExecEvent::TargetLine("build".to_string()));
    match e.action() {
        ExecAction::RunTarget(t) => assert_eq!(t, "build"),
        _ => panic!("a non-sentinel line must run that target"),
    }
    let e = e.step(ExecEvent::ToolExited(false));
    assert!(matches!(e, Executor::RecoveryPrompt));
    // A target whose launch fails also re-prompts.
    let e = e.step(ExecEvent::TargetLine("docs".to_string()));
    let e = e.step(ExecEvent::ToolLaunchFailed("gone".to_string()));
    assert!(matches!(e, Executor::RecoveryPrompt));
    // The sentinel ends the loop as a success.
    let e = e.step(ExecEvent::TargetLine("stop".to_string()));
    assert!(matches!(e, Executor::Done));
    assert!(matches!(e.outcome(), Some(Ok(()))));
}

#[test]
fn recovery_ends_when_a_target_succeeds() {
    let e = execute_install_method(&InstallMethod::MakeInstall)
        .step(ExecEvent::ToolExited(false))
        .step(ExecEvent::ToolExited(true))
        .step(ExecEvent::TargetLine("install".to_string()))
        .step(ExecEvent::ToolExited(true));
    assert!(matches!(e, Executor::Done));
}

#[test]
fn empty_header_list_is_a_no_op_success() {
    let e = execute_install_headers(&vec![]);
    assert!(matches!(e, Executor::Done));
    assert!(matches!(e.outcome(), Some(Ok(()))));
}

#[test]
fn headers_are_copied_to_the_include_root_under_their_base_name() {
    let e = execute_install_headers(&vec!["/proj/sub/foo.h".to_string()]);
    match e.action() {
        ExecAction::CopyHeader(src, dest) => {
            assert_eq!(src, "/proj/sub/foo.h");
            assert_eq!(dest, "/usr/local/include/foo.h");
        }
        _ => panic!("expected a copy request"),
    }
    let e = e.step(ExecEvent::CopyDone);
    assert!(matches!(e, Executor::Done));
}

#[test]
fn missing_header_source_is_skipped_and_still_succeeds() {
    let e = execute_install_headers(&vec!["/proj/foo.h".to_string()]);
    let e = e.step(ExecEvent::CopySourceMissing);
    assert!(matches!(e.outcome(), Some(Ok(()))));
}

#[test]
fn relocating_the_same_file_twice_uses_the_same_destination() {
    let e = execute_install_headers(&vec!["dir/x.h".to_string(), "dir/x.h".to_string()]);
    let first = match e.action() {
        ExecAction::CopyHeader(_, dest) => dest,
        _ => panic!("expected a copy request"),
    };
    let e = e.step(ExecEvent::CopyDone);
    let second = match e.action() {
        ExecAction::CopyHeader(_, dest) => dest,
        _ => panic!("expected a second copy request"),
    };
    assert_eq!(first, second);
    assert_eq!(second, "/usr/local/include/x.h");
    let e = e.step(ExecEvent::CopyDone);
    assert!(matches!(e.outcome(), Some(Ok(()))));
}

#[test]
fn a_failed_copy_aborts_the_remaining_headers() {
    let e = execute_install_headers(&vec!["a.h".to_string(), "b.h".to_string()]);
    let err = copy_failure_error(
        "/usr/local/include/a.h",
        &CopyFailure::CreateFailed("permission denied".to_string()),
    );
    let e = e.step(ExecEvent::CopyFailed(err));
    match e.outcome() {
        Some(Err(InstallError::BadDirectory(msg))) => {
            assert_eq!(
                msg,
                "/usr/local/include/a.h: permission denied (you may need to `sudo`)"
            );
        }
        _ => panic!("a failed copy must abort fatally"),
    }
}

#[test]
fn copy_failure_kinds_map_to_their_errors() {
    let read = copy_failure_error("/d", &CopyFailure::ReadFailed("io oddity".to_string()));
    match read {
        InstallError::UnknownFatal(msg) => assert_eq!(msg, "io oddity"),
        _ => panic!("an unreadable source maps to the fatal catch-all"),
    }
    let write = copy_failure_error("/d", &CopyFailure::WriteFailed);
    assert!(matches!(write, InstallError::FailedToWriteToFile));
}

#[test]
fn unresolvable_method_fails_immediately_with_its_message() {
    let e = execute_install_method(&InstallMethod::Unknown("nothing applies".to_string()));
    assert!(matches!(e.action(), ExecAction::Report));
    match e.outcome() {
        Some(Err(InstallError::UnknownFatal(msg))) => assert_eq!(msg, "nothing applies"),
        _ => panic!("an unresolvable method must fail with its diagnostic"),
    }
}

#[test]
fn events_that_answer_nothing_leave_the_state_unchanged() {
    let e = execute_install_method(&InstallMethod::RunCMake);
    let e = e.step(ExecEvent::TargetLine("noise".to_string()));
    assert!(matches!(e, Executor::Configuring));
    let e = e.step(ExecEvent::CopyDone);
    assert!(matches!(e, Executor::Configuring));
}
