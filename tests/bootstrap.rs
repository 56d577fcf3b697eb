use bootstrap_shell::{
    BootstrapError, Bootstrap, Builder, FailureStage, Phase, PlatformClass, PluginDescriptor,
    SetupStrategy, Step,
};

/// What a driver observed while running a bootstrap to its end.
struct Observed {
    inits: Vec<String>,
    attachments: usize,
    run_loops: usize,
    reports: Vec<String>,
}

fn descriptor(identity: &str) -> PluginDescriptor {
    PluginDescriptor { identity: identity.to_string() }
}

fn builder_with(ids: &[&str], platform: Option<PlatformClass>) -> Builder {
    let mut b = Builder::new();
    for id in ids {
        b.register(descriptor(id)).unwrap();
    }
    if let Some(p) = platform {
        b.setup(SetupStrategy::for_platform(p)).unwrap();
    }
    b
}

fn message(e: &BootstrapError) -> String {
    let stage = match e.stage() {
        FailureStage::Build => "build",
        FailureStage::Setup => "setup",
    };
    let identity = e.identity().cloned().unwrap_or_default();
    let cause = e.cause().cloned().unwrap_or_default();
    format!("{} failed: {} {}", stage, identity, cause)
}

/// Drives a bootstrap: the initializers named in `failing` fail, every other
/// one succeeds; the mobile attachment fails when `attach_fails`.
fn drive(boot: &mut Bootstrap, failing: &[&str], attach_fails: bool) -> Observed {
    let mut seen = Observed { inits: vec![], attachments: 0, run_loops: 0, reports: vec![] };
    for _ in 0..1000 {
        match boot.step() {
            Step::InitPlugin(i) => {
                let id = boot.identity(i).clone();
                seen.inits.push(id.clone());
                if failing.contains(&id.as_str()) {
                    boot.on_outcome(Err(format!("{} refused to start", id)));
                } else {
                    boot.on_outcome(Ok(()));
                }
            }
            Step::AttachMobilePlugin => {
                seen.attachments += 1;
                if attach_fails {
                    boot.on_outcome(Err("insets unavailable".to_string()));
                } else {
                    boot.on_outcome(Ok(()));
                }
            }
            Step::StartRunLoop => {
                seen.run_loops += 1;
                return seen;
            }
            Step::ReportFailure => {
                seen.reports.push(message(boot.failure().unwrap()));
                return seen;
            }
        }
    }
    panic!("bootstrap did not finish");
}

#[test]
fn initializers_follow_registration_order() {
    let orders: [[&str; 3]; 6] = [
        ["log", "fs", "shell"],
        ["log", "shell", "fs"],
        ["fs", "log", "shell"],
        ["fs", "shell", "log"],
        ["shell", "log", "fs"],
        ["shell", "fs", "log"],
    ];
    for order in orders.iter() {
        let mut b = builder_with(order, Some(PlatformClass::Desktop));
        let mut boot = b.build().unwrap();
        assert_eq!(boot.plugin_count(), 3);
        let seen = drive(&mut boot, &[], false);
        let expected: Vec<String> = order.iter().map(|s| s.to_string()).collect();
        assert_eq!(seen.inits, expected);
        assert_eq!(seen.run_loops, 1);
    }
}

#[test]
fn build_runs_no_initializer_by_itself() {
    let mut b = builder_with(&["a", "b"], None);
    let boot = b.build().unwrap();
    assert_eq!(boot.phase(), Phase::Building);
    assert_eq!(boot.step(), Step::InitPlugin(0));
}

#[test]
fn failing_initializer_short_circuits() {
    let mut b = builder_with(&["a", "b", "c", "d"], Some(PlatformClass::Mobile));
    let mut boot = b.build().unwrap();
    let seen = drive(&mut boot, &["b"], false);
    assert_eq!(seen.inits, vec!["a".to_string(), "b".to_string()]);
    assert_eq!(seen.attachments, 0);
    assert_eq!(seen.run_loops, 0);
    assert_eq!(boot.phase(), Phase::Failed);
    match boot.failure() {
        Some(BootstrapError::PluginInit { identity, cause }) => {
            assert_eq!(identity, "b");
            assert_eq!(cause, "b refused to start");
        }
        _ => panic!("expected a plugin initialization error"),
    }
}

#[test]
fn failed_bootstrap_ignores_later_outcomes() {
    let mut b = builder_with(&["a", "b"], None);
    let mut boot = b.build().unwrap();
    boot.on_outcome(Err("broken".to_string()));
    boot.on_outcome(Ok(()));
    boot.on_outcome(Ok(()));
    assert_eq!(boot.step(), Step::ReportFailure);
    assert_eq!(boot.failure().unwrap().identity().unwrap(), "a");
}

#[test]
fn duplicate_identity_rejected_in_either_order() {
    for (first, second) in [("fs", "fs"), ("log", "log")] {
        let mut b = Builder::new();
        b.register(descriptor(first)).unwrap();
        b.register(descriptor("other")).unwrap();
        match b.register(descriptor(second)) {
            Err(BootstrapError::DuplicatePlugin { identity }) => assert_eq!(identity, second),
            _ => panic!("expected a duplicate plugin error"),
        }
        assert!(b.is_registered(&first.to_string()));
        let mut boot = b.build().unwrap();
        assert_eq!(boot.plugin_count(), 2);
        let seen = drive(&mut boot, &[], false);
        assert_eq!(seen.inits, vec![first.to_string(), "other".to_string()]);
    }
}

#[test]
fn duplicate_error_names_build_stage() {
    let mut b = Builder::default();
    b.register(descriptor("fs")).unwrap();
    let e = b.register(descriptor("fs")).unwrap_err();
    assert_eq!(e.stage(), FailureStage::Build);
    assert_eq!(e.identity().unwrap(), "fs");
    assert!(e.cause().is_none());
}

#[test]
fn mobile_setup_attaches_once_and_surfaces_failure() {
    let mut b = builder_with(&["fs"], Some(PlatformClass::Mobile));
    let mut boot = b.build().unwrap();
    let seen = drive(&mut boot, &[], true);
    assert_eq!(seen.attachments, 1);
    assert_eq!(seen.run_loops, 0);
    let e = boot.failure().unwrap();
    assert_eq!(e.stage(), FailureStage::Setup);
    assert_eq!(e.cause().unwrap(), "insets unavailable");
    assert!(e.identity().is_none());
}

#[test]
fn mobile_setup_attaches_once_and_runs() {
    let mut b = builder_with(&["fs"], Some(PlatformClass::Mobile));
    let mut boot = b.build().unwrap();
    let seen = drive(&mut boot, &[], false);
    assert_eq!(seen.attachments, 1);
    assert_eq!(seen.run_loops, 1);
    assert_eq!(boot.phase(), Phase::Running);
}

#[test]
fn desktop_setup_attaches_nothing() {
    let mut b = builder_with(&["fs", "log"], Some(PlatformClass::Desktop));
    let mut boot = b.build().unwrap();
    let seen = drive(&mut boot, &[], true);
    assert_eq!(seen.attachments, 0);
    assert!(seen.reports.is_empty());
    assert_eq!(seen.run_loops, 1);
}

#[test]
fn setup_strategy_follows_platform() {
    assert_eq!(SetupStrategy::for_platform(PlatformClass::Desktop), SetupStrategy::DesktopSetup);
    assert_eq!(SetupStrategy::for_platform(PlatformClass::Mobile), SetupStrategy::MobileSetup);
}

#[test]
fn scenario_single_plugin_desktop_runs() {
    let mut b = builder_with(&["always-ok"], Some(PlatformClass::Desktop));
    let mut boot = b.build().unwrap();
    let seen = drive(&mut boot, &[], false);
    assert_eq!(seen.inits, vec!["always-ok".to_string()]);
    assert_eq!(seen.run_loops, 1);
    assert!(seen.reports.is_empty());
    assert_eq!(boot.phase(), Phase::Running);
}

#[test]
fn scenario_single_failing_plugin_fails() {
    let mut b = builder_with(&["always-fails"], Some(PlatformClass::Desktop));
    let mut boot = b.build().unwrap();
    let seen = drive(&mut boot, &["always-fails"], false);
    assert_eq!(boot.phase(), Phase::Failed);
    assert_eq!(seen.run_loops, 0);
    assert_eq!(seen.reports.len(), 1);
    assert!(seen.reports[0].contains("always-fails"));
    assert!(seen.reports[0].starts_with("build"));
}

#[test]
fn scenario_mobile_attachment_fails() {
    let mut b = builder_with(&["fs"], Some(PlatformClass::Mobile));
    let mut boot = b.build().unwrap();
    let seen = drive(&mut boot, &[], true);
    assert_eq!(seen.inits, vec!["fs".to_string()]);
    assert_eq!(boot.phase(), Phase::Failed);
    assert!(matches!(boot.failure(), Some(BootstrapError::Setup { .. })));
    assert_eq!(seen.run_loops, 0);
    assert_eq!(seen.reports.len(), 1);
    assert!(seen.reports[0].starts_with("setup"));
}

#[test]
fn second_build_fails() {
    let mut b = builder_with(&["fs"], None);
    assert!(b.build().is_ok());
    assert!(matches!(b.build(), Err(BootstrapError::AlreadyConsumed)));
    assert!(matches!(b.build(), Err(BootstrapError::AlreadyConsumed)));
    assert!(!b.is_registered(&"fs".to_string()));
}

#[test]
fn consumed_builder_refuses_changes() {
    let mut b = Builder::new();
    b.build().unwrap();
    assert!(matches!(b.register(descriptor("fs")), Err(BootstrapError::AlreadyConsumed)));
    assert!(matches!(b.setup(SetupStrategy::MobileSetup), Err(BootstrapError::AlreadyConsumed)));
    let e = BootstrapError::AlreadyConsumed;
    assert_eq!(e.stage(), FailureStage::Build);
    assert!(e.identity().is_none());
    assert!(e.cause().is_none());
}

#[test]
fn empty_registry_goes_straight_to_setup() {
    let mut desktop = builder_with(&[], Some(PlatformClass::Desktop));
    assert_eq!(desktop.build().unwrap().step(), Step::StartRunLoop);
    let mut mobile = builder_with(&[], Some(PlatformClass::Mobile));
    assert_eq!(mobile.build().unwrap().step(), Step::AttachMobilePlugin);
    let mut bare = Builder::new();
    assert_eq!(bare.build().unwrap().step(), Step::StartRunLoop);
}

#[test]
fn later_setup_replaces_earlier() {
    let mut b = builder_with(&["fs"], Some(PlatformClass::Mobile));
    b.setup(SetupStrategy::DesktopSetup).unwrap();
    let mut boot = b.build().unwrap();
    let seen = drive(&mut boot, &[], true);
    assert_eq!(seen.attachments, 0);
    assert_eq!(seen.run_loops, 1);
}
