//! Tests of the configuration defaults, the cron-expression generator, the
//! update-pipeline retry flow, the session decisions, the account-range
//! logic, the apt source texts, and the spin-button arithmetic.

use pop_system_updater::accounts::{is_desktop_account, parse_u32, uid_min_max};
use pop_system_updater::appcenter::{
    appcenter_begin, appcenter_on_result, AppcenterAction, AppcenterState, STORE_RESTART_WAIT_SECS,
};
use pop_system_updater::config::{
    Cache, Config, Frequency, Interval, LocalCache, LocalConfig, ScheduleSpec,
};
use pop_system_updater::expr::cron_expression;
use pop_system_updater::pipeline::{
    extract_self_update, flow_begin, flow_step, parse_upgradable_line, updates_are_available,
    FlowState, PipelineAction,
};
use pop_system_updater::session::{check_for_updates, next_update, SessionDecision, SECONDS_IN_DAY};
use pop_system_updater::sources::{
    proprietary_sources, release_sources, should_regenerate, system_sources,
};
use pop_system_updater::spin::{as_12, format_number, BetterSpinButton};

#[test]
fn config_defaults() {
    let c = Config::default();
    assert!(!c.auto_update);
    assert_eq!(
        c.schedule,
        Some(ScheduleSpec { interval: Interval::Weekdays, hour: 22, minute: 0 })
    );
    assert_eq!(
        Config::default_schedule(),
        ScheduleSpec { interval: Interval::Weekdays, hour: 22, minute: 0 }
    );

    let lc = LocalConfig::default();
    assert!(lc.enabled);
    assert_eq!(lc.notification_frequency, Frequency::Weekly);

    assert_eq!(Cache::default().last_update, 0);
    assert_eq!(LocalCache::default().last_update, 0);
}

#[test]
fn cron_expression_day_tokens() {
    let at = |interval| cron_expression(&ScheduleSpec { interval, hour: 8, minute: 30 });
    assert_eq!(at(Interval::Sunday), "0 30 8 * * SUN");
    assert_eq!(at(Interval::Monday), "0 30 8 * * MON");
    assert_eq!(at(Interval::Tuesday), "0 30 8 * * TUE");
    assert_eq!(at(Interval::Wednesday), "0 30 8 * * WED");
    assert_eq!(at(Interval::Thursday), "0 30 8 * * THU");
    assert_eq!(at(Interval::Friday), "0 30 8 * * FRI");
    assert_eq!(at(Interval::Saturday), "0 30 8 * * SAT");
    assert_eq!(at(Interval::Weekdays), "0 30 8 * * 1-5");
}

#[test]
fn cron_expression_clamps_out_of_range_times() {
    let e = cron_expression(&ScheduleSpec { interval: Interval::Monday, hour: 25, minute: 70 });
    assert_eq!(e, "0 59 23 * * MON");
}

#[test]
fn generated_expressions_parse() {
    for interval in [
        Interval::Sunday,
        Interval::Monday,
        Interval::Weekdays,
    ] {
        let e = cron_expression(&ScheduleSpec { interval, hour: 22, minute: 0 });
        assert!(pop_system_updater::jobs::Job::cron(&e, 0).is_ok());
    }
}

#[test]
fn repair_flow_gives_up_after_three_attempts() {
    let (state, first) = flow_begin();
    assert_eq!(first, PipelineAction::RunUpdate);

    // The update fails, then every repair fails: three repair attempts,
    // then exactly one error report, and the flow ends unsuccessfully.
    let (state, action) = flow_step(state, false);
    assert_eq!(action, Some(PipelineAction::RunRepair));
    let (state, action) = flow_step(state, false);
    assert_eq!(action, Some(PipelineAction::RunRepair));
    let (state, action) = flow_step(state, false);
    assert_eq!(action, Some(PipelineAction::RunRepair));
    let (state, action) = flow_step(state, false);
    assert_eq!(action, Some(PipelineAction::ReportError));
    assert_eq!(state, FlowState::Done { success: false });
}

#[test]
fn repair_flow_retries_update_after_successful_repair() {
    let (state, _) = flow_begin();
    let (state, action) = flow_step(state, false);
    assert_eq!(action, Some(PipelineAction::RunRepair));
    let (state, action) = flow_step(state, true);
    assert_eq!(action, Some(PipelineAction::RunUpdate));
    let (state, action) = flow_step(state, true);
    assert_eq!(action, None);
    assert_eq!(state, FlowState::Done { success: true });
}

#[test]
fn immediate_update_success_needs_no_repair() {
    let (state, _) = flow_begin();
    let (state, action) = flow_step(state, true);
    assert_eq!(action, None);
    assert_eq!(state, FlowState::Done { success: true });
}

#[test]
fn parse_upgradable_lines() {
    assert_eq!(
        parse_upgradable_line("Inst libfoo (1.2-3 Ubuntu:21.10 [amd64])"),
        Some("libfoo".to_string())
    );
    assert_eq!(parse_upgradable_line("  Inst   pkg-name"), Some("pkg-name".to_string()));
    assert_eq!(parse_upgradable_line("Conf libfoo (1.2-3)"), None);
    assert_eq!(parse_upgradable_line("Inst"), None);
    assert_eq!(parse_upgradable_line("Inst   "), None);
    assert_eq!(parse_upgradable_line(""), None);
    assert_eq!(parse_upgradable_line("Installed things"), None);
}

#[test]
fn self_update_extraction() {
    let mut packages = vec![
        "libfoo".to_string(),
        "pop-system-updater".to_string(),
        "libbar".to_string(),
    ];
    assert!(extract_self_update(&mut packages));
    let mut rest = packages.clone();
    rest.sort();
    assert_eq!(rest, vec!["libbar".to_string(), "libfoo".to_string()]);

    let mut others = vec!["libfoo".to_string()];
    assert!(!extract_self_update(&mut others));
    assert_eq!(others, vec!["libfoo".to_string()]);
}

#[test]
fn availability_follows_package_list() {
    assert!(!updates_are_available(&vec![]));
    assert!(updates_are_available(&vec!["libfoo".to_string()]));
}

#[test]
fn session_wait_periods() {
    let cache = LocalCache { last_update: 100 };
    let daily = LocalConfig { enabled: true, notification_frequency: Frequency::Daily };
    let weekly = LocalConfig { enabled: true, notification_frequency: Frequency::Weekly };
    let monthly = LocalConfig { enabled: true, notification_frequency: Frequency::Monthly };
    assert_eq!(next_update(&daily, &cache), 100 + SECONDS_IN_DAY);
    assert_eq!(next_update(&weekly, &cache), 100 + 7 * SECONDS_IN_DAY);
    assert_eq!(next_update(&monthly, &cache), 100 + 30 * SECONDS_IN_DAY);
}

#[test]
fn session_decisions() {
    let cache = LocalCache { last_update: 1000 };
    let on = LocalConfig { enabled: true, notification_frequency: Frequency::Daily };
    let off = LocalConfig { enabled: false, notification_frequency: Frequency::Daily };

    assert_eq!(check_for_updates(&off, &cache, 5000), SessionDecision::Disabled);
    assert_eq!(
        check_for_updates(&on, &cache, 5000),
        SessionDecision::Wait(1000 + SECONDS_IN_DAY - 5000)
    );
    assert_eq!(
        check_for_updates(&on, &cache, 1000 + SECONDS_IN_DAY),
        SessionDecision::CheckNow {
            new_cache: LocalCache { last_update: 1000 + SECONDS_IN_DAY },
            recheck_secs: SECONDS_IN_DAY,
        }
    );
}

#[test]
fn parse_u32_accepts_digits_only() {
    assert_eq!(parse_u32("0"), Some(0));
    assert_eq!(parse_u32("1000"), Some(1000));
    assert_eq!(parse_u32("4294967295"), Some(u32::MAX));
    assert_eq!(parse_u32("4294967296"), None);
    assert_eq!(parse_u32(""), None);
    assert_eq!(parse_u32("12a"), None);
    assert_eq!(parse_u32("-5"), None);
}

#[test]
fn uid_bounds_from_login_defs() {
    let text = "# /etc/login.defs excerpt\nMAIL_DIR /var/mail\nUID_MIN 1000\nUID_MAX 60000\n";
    let bounds = uid_min_max(text);
    assert_eq!(bounds, Some((1000, 60000)));

    assert!(is_desktop_account(1000, bounds));
    assert!(is_desktop_account(60000, bounds));
    assert!(!is_desktop_account(999, bounds));
    assert!(!is_desktop_account(60001, bounds));
    assert!(!is_desktop_account(1000, None));

    assert_eq!(uid_min_max("UID_MIN 1000\n"), None);
    assert_eq!(uid_min_max("UID_MIN ten\nUID_MAX 60000\n"), None);
}

#[test]
fn uid_bounds_reject_multibyte_whitespace() {
    // The underlying splitter cannot divide a line at multi-byte
    // whitespace; such a text yields nothing instead of a panic.
    assert_eq!(uid_min_max("UID_MIN\u{a0}1000\nUID_MAX 60000\n"), None);
    assert_eq!(uid_min_max("UID_MIN\u{2003}1000\nUID_MAX 60000\n"), None);
}

#[test]
fn uid_bounds_accept_tab_separation() {
    assert_eq!(uid_min_max("UID_MIN\t1000\nUID_MAX\t60000\n"), Some((1000, 60000)));
}

#[test]
fn source_texts_name_the_release() {
    let sys = system_sources("impish");
    assert!(sys.starts_with("X-Repolib-Name: Pop_OS System Sources\n"));
    assert!(sys.contains("Suites: impish impish-security impish-updates impish-backports\n"));

    let apps = proprietary_sources("impish");
    assert!(apps.contains("URIs: http://apt.pop-os.org/proprietary\nSuites: impish\n"));

    let rel = release_sources("impish");
    assert!(rel.contains("URIs: http://apt.pop-os.org/release\nSuites: impish\n"));

    assert!(should_regenerate("impish"));
    assert!(!should_regenerate("jammy"));
}

#[test]
fn spin_button_arithmetic() {
    let b = BetterSpinButton::new(0, 59, 1, 10, 2);
    assert_eq!(b.increase(58, 1), 59);
    assert_eq!(b.increase(55, 10), 59);
    assert_eq!(b.decrease(1, 1), 0);
    assert_eq!(b.decrease(0, 10), 0);
    assert_eq!(b.increase(30, 10), 40);
    assert_eq!(b.decrease(30, 10), 20);
}

#[test]
fn spin_button_text() {
    let b = BetterSpinButton::new(0, 59, 1, 10, 2);
    assert_eq!(b.set_value(7), "07");
    assert_eq!(b.set_value(42), "42");
    assert_eq!(format_number(5, 4), "0005");
    assert_eq!(format_number(12345, 2), "12345");
    assert_eq!(b.value("07"), 7);
    assert_eq!(b.value("garbage"), 0);
    assert_eq!(b.normalize("99"), "59");
    assert_eq!(b.normalize(""), "00");
    assert_eq!(b.normalize("8"), "08");
}

#[test]
fn twelve_hour_rendering() {
    assert_eq!(as_12(0), (12, false));
    assert_eq!(as_12(5), (5, false));
    assert_eq!(as_12(11), (11, false));
    assert_eq!(as_12(12), (12, true));
    assert_eq!(as_12(13), (1, true));
    assert_eq!(as_12(22), (10, true));
}

#[test]
fn store_retry_flow() {
    let (state, first) = appcenter_begin();
    assert_eq!(first, AppcenterAction::ShowViaBus);

    // First failure: restart the store and ask again.
    let (state, actions) = appcenter_on_result(state, false);
    assert_eq!(
        actions,
        vec![
            AppcenterAction::RestartService { wait_secs: STORE_RESTART_WAIT_SECS },
            AppcenterAction::ShowViaBus,
        ]
    );
    assert_eq!(state, AppcenterState::TryShow { restarted: true });

    // Second failure: launch it directly and stop.
    let (state, actions) = appcenter_on_result(state, false);
    assert_eq!(actions, vec![AppcenterAction::SpawnDirect]);
    assert_eq!(state, AppcenterState::Done);

    // A success ends the flow quietly.
    let (state, _) = appcenter_begin();
    let (state, actions) = appcenter_on_result(state, true);
    assert!(actions.is_empty());
    assert_eq!(state, AppcenterState::Done);
}
