use resticpal::appcast::UpdateCheck;
use resticpal::protocol::{RequestCommand, ResponsePayload, UpdatePackage};
use resticpal::status::{
    BackupPhase, BackupProgress, BackupState, RepositoryMode, ServiceStatus, WaitingReason,
};
use resticpal::tray::{
    after_update_check, automatic_update_follow_up_interval, automatic_update_setting,
    available_update_action, backup_action_reply, backup_attempt_changed, copy_wide,
    handle_tray_event, is_accepted, is_launched, is_taskbar_created_message, menu_choice,
    menu_items, menu_request, menu_update, onboarding_ends, onboarding_marker_path,
    onboarding_step, should_launch_onboarding, silent_recheck_follow_up_required, status_tooltip,
    timer_action, tooltip, tray_callback_event, tray_icon_action, tray_left_click_is_distinct,
    ui_path, update_prompt_is_due, update_prompt_marker_path, user_update_action, wide_null,
    ActionReply, AutomaticUpdateSetting, AvailableUpdateAction, BackupAttemptBaseline,
    BackupMonitor, BackupNotice, BalloonRouteState, MenuItem, OnboardingStep, TimerAction,
    TrayIconAction, UiDestination, UpdateFollowUp, UserUpdateAction, BACKUP_FAST_POLL_TICKS,
    BACKUP_MONITOR_TIMEOUT_NS, NIN_BALLOONHIDE, NIN_BALLOONSHOW, NIN_BALLOONUSERCLICK,
    NIN_KEYSELECT_EVENT, NIN_SELECT, TRAY_ICON_ID, UPDATE_ACCEPTED_FOLLOW_UP_INTERVAL_MS,
    UPDATE_PROMPT_INTERVAL_NS, UPDATE_RETRY_INTERVAL_MS, WM_CONTEXTMENU, WM_LBUTTONDBLCLK,
    WM_LBUTTONUP, WM_RBUTTONUP,
};

fn status(state: BackupState, last_attempt: Option<i128>) -> ServiceStatus {
    ServiceStatus {
        state,
        state_since: 0,
        last_attempt,
        last_success: None,
        next_deadline: None,
        repository_display_name: None,
        repository_mode: RepositoryMode::Standard,
        managed_revision: None,
        progress: None,
    }
}

fn package() -> UpdatePackage {
    UpdatePackage {
        version: "9.0.0".to_owned(),
        url: "https://example.test/update.msi".to_owned(),
        signature: "signature".to_owned(),
        length: 1,
    }
}

#[test]
fn tray_left_clicks_open_once_per_system_double_click_window() {
    assert!(tray_left_click_is_distinct(None, 1_000, 500));
    assert!(!tray_left_click_is_distinct(Some(1_000), 1_200, 500));
    assert!(tray_left_click_is_distinct(Some(1_000), 1_501, 500));
    assert!(!tray_left_click_is_distinct(Some(u32::MAX - 100), 100, 500));
}

#[test]
fn tray_mouse_events_map_to_open_and_context_actions() {
    let version_four_left_click = isize::try_from(
        (usize::try_from(TRAY_ICON_ID).unwrap() << 16) | usize::try_from(WM_LBUTTONUP).unwrap(),
    )
    .unwrap();
    assert_eq!(tray_callback_event(version_four_left_click), WM_LBUTTONUP);
    assert_eq!(
        tray_icon_action(WM_LBUTTONUP, false),
        Some(TrayIconAction::OpenSettings)
    );
    assert_eq!(
        tray_icon_action(WM_LBUTTONDBLCLK, false),
        Some(TrayIconAction::OpenSettings)
    );
    assert_eq!(
        tray_icon_action(WM_RBUTTONUP, false),
        Some(TrayIconAction::ShowContextMenu)
    );
    assert_eq!(
        tray_icon_action(NIN_BALLOONUSERCLICK, false),
        Some(TrayIconAction::OpenSettings)
    );
    assert_eq!(
        tray_icon_action(NIN_BALLOONUSERCLICK, true),
        Some(TrayIconAction::OpenUpdates)
    );
    assert_eq!(
        tray_icon_action(NIN_SELECT, false),
        Some(TrayIconAction::OpenSettings)
    );
    assert_eq!(
        tray_icon_action(NIN_KEYSELECT_EVENT, false),
        Some(TrayIconAction::OpenSettings)
    );
    assert_eq!(
        tray_icon_action(WM_CONTEXTMENU, false),
        Some(TrayIconAction::ShowContextMenu)
    );
}

#[test]
fn balloon_clicks_follow_the_route_that_became_visible() {
    let mut routes = BalloonRouteState::default();
    assert!(routes.reserve(UiDestination::Updates));
    assert!(routes.reserve(UiDestination::Default));

    routes.shown();
    assert_eq!(routes.clicked(), UiDestination::Updates);
    routes.shown();
    assert_eq!(routes.clicked(), UiDestination::Default);
    assert_eq!(routes.clicked(), UiDestination::Default);
}

#[test]
fn explorer_restart_message_is_matched_only_after_registration() {
    assert!(!is_taskbar_created_message(0, 0));
    assert!(!is_taskbar_created_message(42, 0));
    assert!(is_taskbar_created_message(42, 42));
    assert!(!is_taskbar_created_message(41, 42));
}

#[test]
fn onboarding_is_offered_once_for_an_unconfigured_user() {
    assert!(should_launch_onboarding(false, &BackupState::Unconfigured));
    assert!(!should_launch_onboarding(true, &BackupState::Unconfigured));
    assert!(!should_launch_onboarding(false, &BackupState::Idle));
}

#[test]
fn backup_completion_requires_a_known_changed_attempt_or_observed_run() {
    assert!(!backup_attempt_changed(false, None, Some(1_000)));
    assert!(backup_attempt_changed(true, None, Some(1_000)));
    assert!(!backup_attempt_changed(true, Some(1_000), Some(1_000)));
    assert!(backup_attempt_changed(true, Some(1_000), Some(2_000)));
    assert!(!backup_attempt_changed(true, Some(1_000), None));
    let started = 5_000;
    let mut monitor = BackupMonitor::start(BackupAttemptBaseline::unknown(), false, started);
    assert!(!monitor.backup_monitor_timed_out(started + BACKUP_MONITOR_TIMEOUT_NS - 1_000_000));
    assert!(monitor.backup_monitor_timed_out(started + BACKUP_MONITOR_TIMEOUT_NS));
    monitor.started = None;
    assert!(!monitor.backup_monitor_timed_out(started + BACKUP_MONITOR_TIMEOUT_NS));
}

#[test]
fn update_prompt_is_bounded_to_once_per_day() {
    let second = 1_000_000_000;
    let now = 200_000 * second;
    assert!(update_prompt_is_due(now, None));
    assert!(!update_prompt_is_due(now, Some(now - 60 * 60 * second)));
    assert!(update_prompt_is_due(
        now,
        Some(now - UPDATE_PROMPT_INTERVAL_NS)
    ));
    assert!(!update_prompt_is_due(now, Some(now + 60 * second)));
}

#[test]
fn available_updates_follow_the_effective_automatic_update_setting() {
    assert_eq!(
        available_update_action(AutomaticUpdateSetting::Enabled),
        AvailableUpdateAction::RequestSilentInstall,
        "enabled policy must use the service-owned silent installer"
    );
    assert_eq!(
        available_update_action(AutomaticUpdateSetting::Disabled),
        AvailableUpdateAction::Prompt,
        "only an explicit disabled setting may notify the user"
    );
    assert_eq!(
        available_update_action(AutomaticUpdateSetting::Unavailable),
        AvailableUpdateAction::RetrySilently,
        "an unavailable service must not be mistaken for prompted mode"
    );
    assert_eq!(
        automatic_update_follow_up_interval(true),
        UPDATE_ACCEPTED_FOLLOW_UP_INTERVAL_MS
    );
    assert_eq!(
        automatic_update_follow_up_interval(false),
        UPDATE_RETRY_INTERVAL_MS
    );
    assert!(silent_recheck_follow_up_required(true));
    assert!(silent_recheck_follow_up_required(false));
    assert_eq!(
        user_update_action(AutomaticUpdateSetting::Disabled),
        UserUpdateAction::OpenManualUi
    );
    assert_eq!(
        user_update_action(AutomaticUpdateSetting::Enabled),
        UserUpdateAction::CheckSilently
    );
    assert_eq!(
        user_update_action(AutomaticUpdateSetting::Unavailable),
        UserUpdateAction::RetrySilently
    );
}

#[test]
fn at_most_sixteen_notifications_wait() {
    let mut routes = BalloonRouteState::default();
    for _ in 0..16 {
        assert!(routes.reserve(UiDestination::Default));
    }
    assert!(!routes.reserve(UiDestination::Updates));
    routes.cancel_latest();
    assert!(routes.reserve(UiDestination::Updates));
    assert_eq!(routes.pending.len(), 16);
    routes.clear();
    assert!(routes.pending.is_empty());
    assert!(routes.active.is_none());
}

#[test]
fn a_dismissed_notification_is_not_followed() {
    let mut routes = BalloonRouteState::default();
    assert!(routes.reserve(UiDestination::Updates));
    assert!(routes.reserve(UiDestination::Setup));
    routes.dismissed();
    assert_eq!(routes.clicked(), UiDestination::Setup);
}

#[test]
fn icon_events_keep_the_notifications_in_step() {
    let mut routes = BalloonRouteState::default();
    assert!(routes.reserve(UiDestination::Updates));
    assert!(routes.reserve(UiDestination::Default));
    assert_eq!(handle_tray_event(&mut routes, NIN_BALLOONSHOW), None);
    assert_eq!(
        handle_tray_event(&mut routes, NIN_BALLOONUSERCLICK),
        Some(TrayIconAction::OpenUpdates)
    );
    assert_eq!(handle_tray_event(&mut routes, NIN_BALLOONSHOW), None);
    assert_eq!(handle_tray_event(&mut routes, NIN_BALLOONHIDE), None);
    assert!(routes.active.is_none() && routes.pending.is_empty());
    assert_eq!(
        handle_tray_event(&mut routes, WM_RBUTTONUP),
        Some(TrayIconAction::ShowContextMenu)
    );
    assert_eq!(handle_tray_event(&mut routes, 0x200), None);
}

#[test]
fn the_settings_application_is_told_where_to_open() {
    assert_eq!(UiDestination::Default.argument(), "");
    assert_eq!(UiDestination::Setup.argument(), "--setup");
    assert_eq!(UiDestination::Updates.argument(), "--updates");
    assert_eq!(
        ui_path("C:\\Program Files\\resticpal\\resticpal-tray.exe"),
        "C:\\Program Files\\resticpal\\resticpal-ui.exe"
    );
    assert!(!is_launched(32));
    assert!(is_launched(33));
}

#[test]
fn every_timer_has_its_work() {
    assert_eq!(timer_action(2), Some(TimerAction::OfferSetup));
    assert_eq!(timer_action(3), Some(TimerAction::CheckForUpdate));
    assert_eq!(timer_action(4), Some(TimerAction::RepeatUpdateCheck));
    assert_eq!(timer_action(5), Some(TimerAction::PollBackup));
    assert_eq!(timer_action(6), None);
}

#[test]
fn the_setup_waits_for_a_service_that_is_not_ready() {
    let waiting = BackupState::Waiting {
        reason: WaitingReason::WakeGrace,
    };
    assert_eq!(
        onboarding_step(true, Some(&BackupState::Unconfigured)),
        OnboardingStep::Done
    );
    assert_eq!(onboarding_step(false, None), OnboardingStep::Retry);
    assert_eq!(onboarding_step(false, Some(&waiting)), OnboardingStep::Retry);
    assert_eq!(
        onboarding_step(false, Some(&BackupState::Unconfigured)),
        OnboardingStep::Launch
    );
    assert_eq!(
        onboarding_step(false, Some(&BackupState::Idle)),
        OnboardingStep::Done
    );
    assert!(!onboarding_ends(OnboardingStep::Retry, 119));
    assert!(onboarding_ends(OnboardingStep::Retry, 120));
    assert!(onboarding_ends(OnboardingStep::Launch, 1));
}

#[test]
fn markers_lie_in_the_users_data() {
    let root = || Some("C:\\Users\\ada\\AppData\\Local".to_owned());
    assert_eq!(
        onboarding_marker_path(root()).unwrap(),
        "C:\\Users\\ada\\AppData\\Local\\resticpal\\onboarding-shown-v1"
    );
    assert_eq!(
        update_prompt_marker_path(root()).unwrap(),
        "C:\\Users\\ada\\AppData\\Local\\resticpal\\update-prompted"
    );
    assert_eq!(onboarding_marker_path(None), None);
    assert_eq!(update_prompt_marker_path(None), None);
}

#[test]
fn the_tooltip_names_the_state() {
    let mut running = status(
        BackupState::Running {
            phase: BackupPhase::Uploading,
        },
        None,
    );
    assert_eq!(status_tooltip(&running), "resticpal: backup running");
    running.progress = Some(BackupProgress {
        percent_done: Some(42),
        files_done: 1,
        total_files: None,
        bytes_done: 1,
        total_bytes: None,
        error_count: 0,
    });
    assert_eq!(status_tooltip(&running), "resticpal: backup running (42%)");
    let waiting = |reason| status(BackupState::Waiting { reason }, None);
    assert_eq!(
        status_tooltip(&waiting(WaitingReason::Battery)),
        "resticpal: backup waiting for AC power"
    );
    assert_eq!(
        status_tooltip(&waiting(WaitingReason::Network)),
        "resticpal: backup waiting for network"
    );
    assert_eq!(
        status_tooltip(&waiting(WaitingReason::MeteredNetwork)),
        "resticpal: backup waiting for an unmetered network"
    );
    assert_eq!(
        status_tooltip(&waiting(WaitingReason::Update)),
        "resticpal: backup waiting"
    );
    assert_eq!(
        tooltip(Some(&status(BackupState::Succeeded, None)), true),
        "resticpal: protected"
    );
    assert_eq!(tooltip(None, true), "resticpal: unexpected service response");
    assert_eq!(
        tooltip(None, false),
        "resticpal: backup service unavailable"
    );
}

#[test]
fn the_menu_offers_what_can_be_done() {
    let labels = |items: Vec<MenuItem>| -> Vec<&'static str> {
        items.iter().map(|item| item.label()).collect()
    };
    assert_eq!(
        labels(menu_items(true, false)),
        vec![
            "Open resticpal",
            "Update available\u{2026}",
            "Run backup now",
            "Exit tray"
        ]
    );
    assert_eq!(
        labels(menu_items(false, true)),
        vec!["Open resticpal", "Cancel backup", "Exit tray"]
    );
    for item in menu_items(true, true) {
        assert_eq!(menu_choice(item.id(), true), Some(item));
    }
    assert_eq!(menu_choice(0, true), None);
    assert!(menu_request(MenuItem::RunBackup) == Some(RequestCommand::RunBackupNow));
    assert!(menu_request(MenuItem::CancelBackup) == Some(RequestCommand::CancelBackup));
    assert!(menu_request(MenuItem::Open).is_none());
    assert_eq!(
        menu_update(true, AutomaticUpdateSetting::Disabled),
        (true, None)
    );
    assert_eq!(
        menu_update(true, AutomaticUpdateSetting::Enabled),
        (false, Some(UserUpdateAction::CheckSilently))
    );
    assert_eq!(
        menu_update(true, AutomaticUpdateSetting::Unavailable),
        (false, Some(UserUpdateAction::RetrySilently))
    );
    assert_eq!(
        menu_update(false, AutomaticUpdateSetting::Disabled),
        (false, None)
    );
}

#[test]
fn a_check_for_updates_is_followed_by_the_setting() {
    let found = || Some(UpdateCheck::Available(package()));
    assert_eq!(
        after_update_check(found(), AutomaticUpdateSetting::Enabled),
        UpdateFollowUp::RequestInstall { package: package() }
    );
    assert_eq!(
        after_update_check(found(), AutomaticUpdateSetting::Disabled),
        UpdateFollowUp::Offer
    );
    assert_eq!(
        after_update_check(found(), AutomaticUpdateSetting::Unavailable),
        UpdateFollowUp::Retry
    );
    assert_eq!(
        after_update_check(Some(UpdateCheck::Current), AutomaticUpdateSetting::Enabled),
        UpdateFollowUp::Withdraw
    );
    assert_eq!(
        after_update_check(None, AutomaticUpdateSetting::Enabled),
        UpdateFollowUp::Keep
    );
    assert_eq!(
        automatic_update_setting(None),
        AutomaticUpdateSetting::Unavailable
    );
    let accepted = ResponsePayload::Accepted {
        message: "queued".to_owned(),
    };
    assert_eq!(
        automatic_update_setting(Some(&accepted)),
        AutomaticUpdateSetting::Unavailable
    );
    assert!(is_accepted(Some(&accepted)));
    assert!(!is_accepted(None));
}

#[test]
fn the_reply_to_a_backup_action_is_told_to_the_user() {
    let accepted = || {
        Ok(ResponsePayload::Accepted {
            message: "queued".to_owned(),
        })
    };
    assert_eq!(
        backup_action_reply(true, accepted()),
        ActionReply::Notify {
            title: "Backup requested",
            message: "queued".to_owned()
        }
    );
    assert_eq!(
        backup_action_reply(false, accepted()),
        ActionReply::Notify {
            title: "Cancellation requested",
            message: "queued".to_owned()
        }
    );
    assert_eq!(
        backup_action_reply(
            true,
            Ok(ResponsePayload::Rejected {
                code: "busy".to_owned(),
                message: "later".to_owned()
            })
        ),
        ActionReply::Error {
            message: "later".to_owned()
        }
    );
    assert_eq!(
        backup_action_reply(
            true,
            Ok(ResponsePayload::Status {
                status: status(BackupState::Idle, None)
            })
        ),
        ActionReply::Error {
            message: "The backup service returned an unexpected response.".to_owned()
        }
    );
    assert_eq!(
        backup_action_reply(true, Err("no pipe".to_owned())),
        ActionReply::Error {
            message: "The backup service could not be reached.\n\nno pipe".to_owned()
        }
    );
}

#[test]
fn an_earlier_success_is_not_taken_for_the_requested_backup() {
    let idle = status(BackupState::Succeeded, Some(1_000));
    let baseline = BackupAttemptBaseline::from_status(&idle);
    let mut monitor = BackupMonitor::start(baseline, false, 0);
    for tick in 1..BACKUP_FAST_POLL_TICKS {
        let step = monitor.poll_backup_status(Some(&idle), u128::from(tick) * 1_000_000_000);
        assert_eq!(step.finish, None);
        assert_eq!(step.notice, None);
    }
    let step = monitor.poll_backup_status(Some(&idle), 15_000_000_000);
    assert_eq!(step.notice, Some(BackupNotice::Waiting));
    assert!(step.slow_down);
    let done = status(BackupState::Succeeded, Some(2_000));
    let step = monitor.poll_backup_status(Some(&done), 16_000_000_000);
    assert_eq!(step.finish, Some(BackupNotice::Complete));
    assert_eq!(monitor.started, None);
}

#[test]
fn a_backup_that_is_seen_to_run_is_followed_to_its_end() {
    let mut monitor = BackupMonitor::start(BackupAttemptBaseline::unknown(), false, 0);
    let running = status(
        BackupState::Running {
            phase: BackupPhase::Uploading,
        },
        None,
    );
    assert_eq!(
        monitor.poll_backup_status(Some(&running), 1_000_000_000).notice,
        Some(BackupNotice::Started)
    );
    assert_eq!(monitor.poll_backup_status(Some(&running), 2_000_000_000).notice, None);
    let failed = status(
        BackupState::Failed {
            code: "restic_failed".to_owned(),
        },
        None,
    );
    let step = monitor.poll_backup_status(Some(&failed), 3_000_000_000);
    assert_eq!(step.finish, Some(BackupNotice::NeedsAttention));
    assert_eq!(step.finish.unwrap().title(), "Backup needs attention");
    assert_eq!(
        step.finish.unwrap().message(),
        "The backup did not complete. Open resticpal diagnostics for details."
    );
}

#[test]
fn the_watch_over_a_backup_is_given_up_after_two_hours() {
    let mut monitor = BackupMonitor::start(BackupAttemptBaseline::unknown(), true, 0);
    let late = BACKUP_MONITOR_TIMEOUT_NS;
    let mut unseen = monitor;
    assert_eq!(
        unseen.poll_backup_status(None, late).finish,
        Some(BackupNotice::StatusUnavailable)
    );
    let idle = status(BackupState::Idle, None);
    assert_eq!(
        monitor.poll_backup_status(Some(&idle), late).finish,
        Some(BackupNotice::StillPending)
    );
    let mut paused = BackupMonitor::start(BackupAttemptBaseline::unknown(), true, 0);
    assert_eq!(
        paused
            .poll_backup_status(Some(&status(BackupState::Paused, None)), 1)
            .finish,
        Some(BackupNotice::Stopped)
    );
}

#[test]
fn texts_are_cut_to_the_buffer_of_windows() {
    let mut buffer = vec![7_u16; 4];
    copy_wide("abcdef", &mut buffer);
    assert_eq!(buffer, vec![97, 98, 99, 7]);
    copy_wide("z", &mut buffer);
    assert_eq!(buffer, vec![122, 98, 99, 7]);
    let mut empty: Vec<u16> = Vec::new();
    copy_wide("z", &mut empty);
    assert!(empty.is_empty());
    assert_eq!(wide_null("a\u{1f600}"), vec![97, 0xd83d, 0xde00, 0]);
}
