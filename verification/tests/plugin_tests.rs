use energy_spy::plugin::{log_call, log_info_call, next_method, HostCall, Plugin, SetupPhase, INFO_LEVEL};
use energy_spy::InitResult;

fn s(x: &str) -> String {
    x.to_string()
}

#[test]
fn init_result_codes() {
    assert_eq!(InitResult::Error.code(), 0);
    assert_eq!(InitResult::Success.code(), 1);
}

#[test]
fn init_refuses_missing_vtable() {
    let mut p = Plugin::new();
    let (r, calls) = p.init(false, 5);
    assert_eq!(r, InitResult::Error);
    assert!(calls.is_empty());
    assert_eq!(p, Plugin::new());
}

#[test]
fn init_refuses_old_api_versions() {
    for v in [i32::MIN, -1, 0, 1] {
        let mut p = Plugin::new();
        let (r, calls) = p.init(true, v);
        assert_eq!(r, InitResult::Error);
        assert!(calls.is_empty());
        assert_eq!(p, Plugin::new());
        assert!(!p.vtable_installed());
    }
}

#[test]
fn first_init_starts_setup() {
    let mut p = Plugin::new();
    let (r, calls) = p.init(true, 2);
    assert_eq!(r, InitResult::Success);
    assert_eq!(calls, vec![HostCall::GetAssemblyImage { name: s("umamusume") }]);
    assert!(p.vtable_installed());
    assert_eq!(p.api_version(), 2);
    assert_eq!(p.phase, SetupPhase::AwaitingImage);
}

#[test]
fn setup_with_class_missing() {
    let mut p = Plugin::new();
    p.init(true, 3);
    let calls = p.resume(0x7ff6_1234_0000);
    assert_eq!(
        calls,
        vec![
            HostCall::AppendLog { message: s("img ptr: 0x7ff612340000") },
            HostCall::GetClass {
                image: 0x7ff6_1234_0000,
                namespace: s("Gallop"),
                class_name: s("SingleModeMainViewHpGauge"),
            },
        ]
    );
    let calls = p.resume(0);
    assert_eq!(
        calls,
        vec![
            HostCall::AppendLog { message: s("[-] SingleModeMainViewHpGauge") },
            HostCall::RegisterMenuItem { label: s("Example Plugin") },
            HostCall::RegisterMenuSection,
        ]
    );
    assert_eq!(p.phase, SetupPhase::Finished);
}

#[test]
fn setup_with_class_found() {
    let mut p = Plugin::new();
    p.init(true, 2);
    p.resume(0);
    let calls = p.resume(0xabc0);
    assert_eq!(
        calls,
        vec![
            HostCall::AppendLog { message: s("[+] FOUND CLASS: SingleModeMainViewHpGauge") },
            HostCall::GetMethodAddr { class: 0xabc0, method: s("get_Hp"), arg_count: 0 },
        ]
    );
    assert_eq!(p.phase, SetupPhase::AwaitingMethodAddr);
    let calls = p.resume(0);
    assert_eq!(
        calls,
        vec![
            HostCall::AppendLog { message: s("Please 0x0") },
            HostCall::RegisterMenuItem { label: s("Example Plugin") },
            HostCall::RegisterMenuSection,
        ]
    );
    assert_eq!(p.phase, SetupPhase::Finished);
}

#[test]
fn image_address_null_is_printed_as_zero() {
    let mut p = Plugin::new();
    p.init(true, 2);
    let calls = p.resume(0);
    assert_eq!(calls[0], HostCall::AppendLog { message: s("img ptr: 0x0") });
    assert_eq!(
        calls[1],
        HostCall::GetClass { image: 0, namespace: s("Gallop"), class_name: s("SingleModeMainViewHpGauge") }
    );
}

#[test]
fn setup_runs_only_once() {
    let mut p = Plugin::new();
    p.init(true, 2);
    let (r, calls) = p.init(true, 7);
    assert_eq!(r, InitResult::Success);
    assert!(calls.is_empty());
    assert_eq!(p.api_version(), 7);
    assert_eq!(p.phase, SetupPhase::AwaitingImage);
    p.resume(1);
    p.resume(0);
    assert_eq!(p.phase, SetupPhase::Finished);
    let (r, calls) = p.init(true, 9);
    assert_eq!(r, InitResult::Success);
    assert!(calls.is_empty());
    assert_eq!(p.phase, SetupPhase::Finished);
    assert_eq!(p.api_version(), 9);
}

#[test]
fn refused_init_after_accepted_keeps_state() {
    let mut p = Plugin::new();
    p.init(true, 4);
    let before = p;
    let (r, calls) = p.init(false, 4);
    assert_eq!(r, InitResult::Error);
    assert!(calls.is_empty());
    assert_eq!(p, before);
    assert_eq!(p.api_version(), 4);
}

#[test]
fn resume_without_pending_call_does_nothing() {
    let mut p = Plugin::new();
    assert!(p.resume(5).is_empty());
    assert_eq!(p, Plugin::new());
    p.init(true, 2);
    p.resume(1);
    p.resume(2);
    p.resume(3);
    let done = p;
    assert!(p.resume(4).is_empty());
    assert_eq!(p, done);
}

#[test]
fn setup_awaits_at_most_three_answers() {
    let mut p = Plugin::new();
    p.init(true, 2);
    let mut answers = 0;
    while p.phase != SetupPhase::Finished {
        p.resume(0x1000);
        answers += 1;
        assert!(answers <= 3);
    }
    assert_eq!(answers, 3);
}

#[test]
fn menu_click_needs_vtable() {
    let mut p = Plugin::new();
    assert!(p.menu_click().is_empty());
    p.init(true, 1);
    assert!(p.menu_click().is_empty());
    p.init(true, 2);
    assert_eq!(
        p.menu_click(),
        vec![HostCall::ShowNotification { message: s("Hello from the example plugin!") }]
    );
}

#[test]
fn menu_section_draws_heading_separator_label() {
    let mut p = Plugin::new();
    assert!(p.menu_section().is_empty());
    p.init(true, 2);
    assert_eq!(
        p.menu_section(),
        vec![
            HostCall::UiHeading { text: s("Example Plugin") },
            HostCall::UiSeparator,
            HostCall::UiLabel { text: s("This section is rendered by the plugin.") },
        ]
    );
}

#[test]
fn pending_query_is_always_last() {
    let mut p = Plugin::new();
    let (_, calls) = p.init(true, 2);
    assert!(matches!(calls.last(), Some(HostCall::GetAssemblyImage { .. })));
    let calls = p.resume(8);
    assert!(matches!(calls.last(), Some(HostCall::GetClass { .. })));
    assert!(matches!(calls[0], HostCall::AppendLog { .. }));
    let calls = p.resume(9);
    assert!(matches!(calls.last(), Some(HostCall::GetMethodAddr { .. })));
    let calls = p.resume(10);
    assert!(matches!(calls.last(), Some(HostCall::RegisterMenuSection)));
}

#[test]
fn log_info_uses_info_level() {
    assert_eq!(INFO_LEVEL, 3);
    assert_eq!(
        log_info_call("spy", "hello"),
        HostCall::Log { level: 3, target: s("spy"), message: s("hello") }
    );
    assert_eq!(log_info_call("a", "b"), log_call(3, "a", "b"));
    assert_eq!(
        log_call(5, "t", ""),
        HostCall::Log { level: 5, target: s("t"), message: s("") }
    );
}

#[test]
fn method_walk_stops_at_null() {
    assert_eq!(next_method(0), None);
    assert_eq!(next_method(0x40), Some(0x40));
    assert_eq!(next_method(u64::MAX), Some(u64::MAX));
}

#[test]
fn awaiting_phases() {
    assert!(!SetupPhase::NotStarted.is_awaiting_answer());
    assert!(SetupPhase::AwaitingImage.is_awaiting_answer());
    assert!(SetupPhase::AwaitingClass.is_awaiting_answer());
    assert!(SetupPhase::AwaitingMethodAddr.is_awaiting_answer());
    assert!(!SetupPhase::Finished.is_awaiting_answer());
}
