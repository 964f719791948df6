//! What the notification icon says and does.
use crate::status::{BackupState, ServiceStatus, WaitingReason};
use crate::text;
use crate::tray::{
    action_on, attempt_changed, elapsed_ticks, items_of, on_available, on_request,
    onboarding_after, tooltip_of, without_first, AutomaticUpdateSetting, AvailableUpdateAction,
    BackupMonitor, BackupNotice, MenuItem, OnboardingStep, TrayIconAction, UiDestination,
    UserUpdateAction,
};
use vstd::prelude::*;

verus! {

/// Every way to click the icon does what it does elsewhere on the desktop: the
/// left button and the keyboard open the settings, the right button the menu,
/// and a notification what it was about.
pub proof fn what_a_click_does(event: u32, updates: bool)
    ensures
        event == 0x202u32 || event == 0x203u32 || event
            == 0x400u32 || event == 0x401u32 ==> action_on(
            event,
            updates,
        ) == Some(TrayIconAction::OpenSettings),
        event == 0x205u32 || event == 0x7bu32 ==> action_on(
            event,
            updates,
        ) == Some(TrayIconAction::ShowContextMenu),
        event == 0x405u32 ==> action_on(event, updates) == Some(
            if updates {
                TrayIconAction::OpenUpdates
            } else {
                TrayIconAction::OpenSettings
            },
        ),
        action_on(event, updates) == Some(TrayIconAction::OpenUpdates) ==> updates,
        action_on(event, updates) is Some ==> event == 0x202u32 || event
            == 0x203u32 || event == 0x400u32 || event
            == 0x401u32 || event == 0x205u32 || event
            == 0x7bu32 || event == 0x405u32,
{
}

/// Ticks of a clock that starts anew are counted on.
pub proof fn ticks_are_counted_over_the_turn(from: u32, to: u32)
    ensures
        0 <= elapsed_ticks(from, to) <= u32::MAX,
        to >= from ==> elapsed_ticks(from, to) == to - from,
        to < from ==> elapsed_ticks(from, to) + from == to + 0x1_0000_0000,
        from != to ==> elapsed_ticks(from, to) + elapsed_ticks(to, from) == 0x1_0000_0000,
{
}

/// An update is installed unasked only where that is known to be switched on,
/// the user is asked only where it is known to be off, and where it is not known
/// nothing happens but another try.
pub proof fn the_setting_decides_about_an_update(setting: AutomaticUpdateSetting)
    ensures
        on_available(setting) is RequestSilentInstall <==> setting is Enabled,
        on_available(setting) is Prompt <==> setting is Disabled,
        on_available(setting) is RetrySilently <==> setting is Unavailable,
        on_request(setting) is OpenManualUi <==> setting is Disabled,
        on_request(setting) is CheckSilently <==> setting is Enabled,
        on_request(setting) is RetrySilently <==> setting is Unavailable,
{
}

/// The settings open by themselves once, on a machine that is not set up; as
/// long as that is not known it is asked again.
pub proof fn when_the_settings_open_by_themselves(shown: bool, state: Option<BackupState>)
    ensures
        onboarding_after(shown, state) is Launch <==> !shown && state == Some(
            BackupState::Unconfigured,
        ),
        onboarding_after(shown, state) is Retry <==> !shown && (state is None || state->0
            is Waiting),
        shown ==> onboarding_after(shown, state) is Done,
{
}

/// The icon says what the service is doing.
pub proof fn the_icon_says_what_is_done(status: ServiceStatus)
    ensures
        status.state is Unconfigured ==> tooltip_of(status) == "resticpal: setup required"@,
        status.state is Idle || status.state is Succeeded ==> tooltip_of(status)
            == "resticpal: protected"@,
        status.state is SucceededWithWarnings ==> tooltip_of(status)
            == "resticpal: backup completed with warnings"@,
        status.state is Failed ==> tooltip_of(status) == "resticpal: backup needs attention"@,
        status.state is Cancelled ==> tooltip_of(status) == "resticpal: last backup cancelled"@,
        status.state is Paused ==> tooltip_of(status) == "resticpal: backups paused"@,
        status.state == (BackupState::Waiting { reason: WaitingReason::Battery }) ==> tooltip_of(
            status,
        ) == "resticpal: backup waiting for AC power"@,
        status.state == (BackupState::Waiting { reason: WaitingReason::Network }) ==> tooltip_of(
            status,
        ) == "resticpal: backup waiting for network"@,
        status.state == (BackupState::Waiting { reason: WaitingReason::MeteredNetwork })
            ==> tooltip_of(status) == "resticpal: backup waiting for an unmetered network"@,
        status.state is Waiting && !(status.state->reason is Battery || status.state->reason
            is Network || status.state->reason is MeteredNetwork) ==> tooltip_of(status)
            == "resticpal: backup waiting"@,
        status.state is Running && (status.progress is None || status.progress->0.percent_done
            is None) ==> tooltip_of(status) == "resticpal: backup running"@,
        status.state is Running && status.progress is Some && status.progress->0.percent_done
            is Some ==> tooltip_of(status) == "resticpal: backup running ("@ + text::decimal(
            status.progress->0.percent_done->0 as nat,
        ) + "%)"@,
{
}

/// The menu opens the settings first and ends the icon last. It starts a backup
/// where none runs and cancels the one that does, and shows updates where the
/// user installs them.
pub proof fn what_the_menu_offers(offers_update: bool, running: bool)
    ensures
        ({
            let items = items_of(offers_update, running);
            &&& items[0] is Open
            &&& items.last() is Exit
            &&& items.contains(MenuItem::CancelBackup) <==> running
            &&& items.contains(MenuItem::RunBackup) <==> !running
            &&& items.contains(MenuItem::Update) <==> offers_update
            &&& items.len() == (if offers_update {
                4int
            } else {
                3
            })
            &&& items.no_duplicates()
        }),
{
    let items = items_of(offers_update, running);
    let backup = if running {
        MenuItem::CancelBackup
    } else {
        MenuItem::RunBackup
    };
    if offers_update {
        assert(items[1] is Update && items[2] == backup && items[3] is Exit);
    } else {
        assert(items[1] == backup && items[2] is Exit);
    }
    assert(items.contains(backup));
    if offers_update {
        assert(items.contains(MenuItem::Update));
    }
}

/// An attempt is a new one where it is known what the last one was, and it is
/// another.
pub proof fn what_a_new_attempt_is(known: bool, baseline: Option<i128>, last: Option<i128>)
    ensures
        attempt_changed(known, baseline, last) <==> known && last is Some && baseline != last,
        !attempt_changed(false, baseline, last),
        !attempt_changed(known, last, last),
        !attempt_changed(known, baseline, None),
{
}

/// A backup is followed for two hours, by a clock that does not go back.
pub proof fn how_long_a_backup_is_followed(monitor: BackupMonitor, now: u128)
    ensures
        monitor.started is None ==> !monitor.has_timed_out(now),
        monitor.started is Some ==> (monitor.has_timed_out(now) <==> now >= monitor.started->0
            + 7_200_000_000_000),
{
}

/// The end of a backup is told only of the one that was asked for.
pub proof fn how_a_backup_is_said_to_end(monitor: BackupMonitor, status: ServiceStatus)
    ensures
        ({
            let begun = monitor.observed_running || (monitor.baseline.known && status.last_attempt
                is Some && status.last_attempt != monitor.baseline.attempt);
            &&& monitor.has_begun(status) <==> begun
            &&& monitor.ending(status) == Some(BackupNotice::Complete) <==> begun && status.state
                is Succeeded
            &&& monitor.ending(status) == Some(BackupNotice::CompleteWithWarnings) <==> begun
                && status.state is SucceededWithWarnings
            &&& monitor.ending(status) == Some(BackupNotice::NeedsAttention) <==> begun
                && status.state is Failed
            &&& monitor.ending(status) == Some(BackupNotice::Cancelled) <==> begun && status.state
                is Cancelled
            &&& monitor.ending(status) == Some(BackupNotice::Stopped) <==> status.state
                is Unconfigured || status.state is Paused
            &&& status.state is Running || status.state is Idle || status.state is Waiting
                ==> monitor.ending(status) is None
        }),
{
}

/// A look at the backup tells that it started once, tells that it waits once,
/// and tells how it ended; after two hours it is given up.
pub proof fn what_a_look_at_a_backup_tells(
    monitor: BackupMonitor,
    ticks: u64,
    status: ServiceStatus,
    now: u128,
)
    ensures
        ({
            let step = monitor.step_on(ticks, Some(status), now);
            let blind = monitor.step_on(ticks, None, now);
            let late = monitor.has_timed_out(now);
            &&& late ==> step.finish == Some(BackupNotice::StillPending) && step.notice is None
            &&& late ==> blind.finish == Some(BackupNotice::StatusUnavailable)
            &&& !late ==> step.finish == monitor.ending(status) && blind.finish is None
            &&& blind.notice is None
            &&& !late ==> (blind.slow_down <==> ticks == 15)
            &&& late ==> !blind.slow_down && !step.slow_down
            &&& step.notice == Some(BackupNotice::Waiting) <==> step.slow_down
            &&& step.slow_down <==> !late && ticks == 15 && !monitor.has_begun(status) && !(
            status.state is Running)
            &&& step.notice == Some(BackupNotice::Started) <==> !late && status.state is Running
                && !monitor.started_notification_shown
            &&& step.notice is Some ==> step.notice == Some(BackupNotice::Started) || step.notice
                == Some(BackupNotice::Waiting)
        }),
{
}

/// Notifications that wait come up in the order in which they were sent.
pub proof fn notifications_wait_in_line(pending: Seq<UiDestination>, last: UiDestination)
    ensures
        pending.len() == 0 ==> without_first(pending) == pending,
        pending.len() > 0 ==> without_first(pending).len() == pending.len() - 1,
        forall|i: int|
            0 <= i < pending.len() - 1 ==> #[trigger] without_first(pending)[i] == pending[i + 1],
        without_first(seq![last] + pending) == pending,
{
    assert(without_first(seq![last] + pending) =~= pending);
}

/// Every entry of the menu has a number of its own, and the two that concern the
/// backup share theirs: only one of them is shown.
pub proof fn entries_have_their_own_numbers(left: MenuItem, right: MenuItem)
    ensures
        left is Open <==> left.id_of() == 1,
        left is CancelBackup || left is RunBackup <==> left.id_of() == 2,
        left is Exit <==> left.id_of() == 3,
        left is Update <==> left.id_of() == 4,
{
}

/// A notification that is clicked leads to what it was about: the one that is
/// shown, else the first that waits, else the settings.
pub proof fn where_a_notification_leads(routes: crate::tray::BalloonRouteState)
    ensures
        routes.active is Some ==> routes.leads_to() == routes.active->0,
        routes.active is None && routes.pending@.len() > 0 ==> routes.leads_to()
            == routes.pending@[0],
        routes.active is None && routes.pending@.len() == 0 ==> routes.leads_to() is Default,
{
}

} // verus!
