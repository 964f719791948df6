//! The icon in the notification area: what a click does, what the user is told,
//! and how a backup that was asked for is followed.
use crate::appcast::UpdateCheck;
use crate::config::chars_of;
use crate::paths;
use crate::protocol::{RequestCommand, ResponsePayload, UpdatePackage};
use crate::status::{BackupState, ServiceStatus, WaitingReason};
use crate::text;
use std::collections::VecDeque;
use vstd::prelude::*;

verus! {

/// How many notifications may wait to be shown.
pub const MAX_PENDING_BALLOON_ROUTES: usize = 16;

/// How often the setup is offered at most.
pub const ONBOARDING_MAX_ATTEMPTS: u64 = 120;

/// The pause between two looks at a backup that was asked for.
pub const BACKUP_STATUS_INTERVAL_MS: u32 = 1_000;

/// The same once the backup has not started for a while.
pub const BACKUP_WAITING_INTERVAL_MS: u32 = 30_000;

/// After so many looks the pauses become longer.
pub const BACKUP_FAST_POLL_TICKS: u64 = 15;

/// For so long a backup that was asked for is followed: two hours.
pub const BACKUP_MONITOR_TIMEOUT_NS: u128 = 7_200_000_000_000;

/// The pause between two checks for updates: six hours.
pub const UPDATE_CHECK_INTERVAL_MS: u32 = 21_600_000;

/// The pause before a check is repeated: five minutes.
pub const UPDATE_RETRY_INTERVAL_MS: u32 = 300_000;

/// The pause after the service took an update on.
pub const UPDATE_ACCEPTED_FOLLOW_UP_INTERVAL_MS: u32 = UPDATE_CHECK_INTERVAL_MS;

/// The user is asked about an update once in this time: a day.
pub const UPDATE_PROMPT_INTERVAL_NS: u128 = 86_400_000_000_000;

pub const TRAY_ICON_ID: u32 = 1;

pub const MENU_OPEN: usize = 1;

pub const MENU_RUN_BACKUP: usize = 2;

pub const MENU_EXIT: usize = 3;

pub const MENU_UPDATE: usize = 4;

pub const ONBOARDING_TIMER_ID: usize = 2;

pub const UPDATE_TIMER_ID: usize = 3;

pub const UPDATE_RETRY_TIMER_ID: usize = 4;

pub const BACKUP_STATUS_TIMER_ID: usize = 5;

/// The messages of Windows that a tray icon sends.
pub const WM_CONTEXTMENU: u32 = 0x7b;

pub const WM_LBUTTONUP: u32 = 0x202;

pub const WM_LBUTTONDBLCLK: u32 = 0x203;

pub const WM_RBUTTONUP: u32 = 0x205;

pub const NIN_SELECT: u32 = 0x400;

pub const NIN_KEYSELECT_EVENT: u32 = 0x401;

pub const NIN_BALLOONSHOW: u32 = 0x402;

pub const NIN_BALLOONHIDE: u32 = 0x403;

pub const NIN_BALLOONTIMEOUT: u32 = 0x404;

pub const NIN_BALLOONUSERCLICK: u32 = 0x405;

/// Where the settings application opens.
#[derive(Debug, Clone, Copy, PartialEq, Eq, Structural)]
pub enum UiDestination {
    Default,
    Setup,
    Updates,
}

impl UiDestination {
    /// The argument that the settings application is started with.
    pub fn argument(&self) -> (argument: &'static str)
        ensures
            argument@ == (match self {
                UiDestination::Default => ""@,
                UiDestination::Setup => "--setup"@,
                UiDestination::Updates => "--updates"@,
            }),
    {
        match self {
            UiDestination::Default => "",
            UiDestination::Setup => "--setup",
            UiDestination::Updates => "--updates",
        }
    }
}

/// Where the notifications lead that wait to be shown, and where the one leads
/// that is shown.
pub struct BalloonRouteState {
    pub pending: VecDeque<UiDestination>,
    pub active: Option<UiDestination>,
}

impl Default for BalloonRouteState {
    fn default() -> (routes: BalloonRouteState)
        ensures
            routes.pending@.len() == 0,
            routes.active is None,
    {
        BalloonRouteState { pending: VecDeque::new(), active: None }
    }
}

/// The waiting destinations without the first.
pub open spec fn without_first(pending: Seq<UiDestination>) -> Seq<UiDestination> {
    if pending.len() == 0 {
        pending
    } else {
        pending.subrange(1, pending.len() as int)
    }
}

impl BalloonRouteState {
    /// Keeps a place for a notification, unless too many wait.
    pub fn reserve(&mut self, destination: UiDestination) -> (reserved: bool)
        ensures
            reserved == (old(self).pending@.len() < MAX_PENDING_BALLOON_ROUTES),
            final(self).pending@ == (if reserved {
                old(self).pending@.push(destination)
            } else {
                old(self).pending@
            }),
            final(self).active == old(self).active,
    {
        if self.pending.len() >= MAX_PENDING_BALLOON_ROUTES {
            return false;
        }
        self.pending.push_back(destination);
        true
    }

    /// Gives the latest place up.
    pub fn cancel_latest(&mut self)
        ensures
            final(self).pending@ == (if old(self).pending@.len() == 0 {
                old(self).pending@
            } else {
                old(self).pending@.drop_last()
            }),
            final(self).active == old(self).active,
    {
        let _ = self.pending.pop_back();
    }

    /// The next notification became visible.
    pub fn shown(&mut self)
        ensures
            final(self).pending@ == without_first(old(self).pending@),
            final(self).active == (if old(self).pending@.len() == 0 {
                old(self).active
            } else {
                Some(old(self).pending@[0])
            }),
    {
        if let Some(destination) = self.pending.pop_front() {
            self.active = Some(destination);
        }
    }

    /// A notification is gone: the visible one, or else the next.
    pub fn dismissed(&mut self)
        ensures
            final(self).active is None,
            final(self).pending@ == (if old(self).active is Some {
                old(self).pending@
            } else {
                without_first(old(self).pending@)
            }),
    {
        if self.active.take().is_none() {
            let _ = self.pending.pop_front();
        }
    }

    /// Where a click on a notification leads.
    pub open spec fn leads_to(self) -> UiDestination {
        match self.active {
            Some(destination) => destination,
            None => if self.pending@.len() == 0 {
                UiDestination::Default
            } else {
                self.pending@[0]
            },
        }
    }

    pub fn clicked(&mut self) -> (destination: UiDestination)
        ensures
            destination == old(self).leads_to(),
            final(self).active is None,
            final(self).pending@ == (if old(self).active is Some {
                old(self).pending@
            } else {
                without_first(old(self).pending@)
            }),
    {
        match self.active.take() {
            Some(destination) => destination,
            None => match self.pending.pop_front() {
                Some(destination) => destination,
                None => UiDestination::Default,
            },
        }
    }

    pub fn clear(&mut self)
        ensures
            final(self).pending@.len() == 0,
            final(self).active is None,
    {
        self.pending.clear();
        self.active = None;
    }
}

/// A click leads where the notification leads that became visible, however many
/// wait behind it.
pub proof fn a_click_follows_the_visible_notification(
    before: BalloonRouteState,
    after: BalloonRouteState,
)
    requires
        before.pending@.len() > 0,
        after.pending@ == without_first(before.pending@),
        after.active == Some(before.pending@[0]),
    ensures
        after.leads_to() == before.pending@[0],
{
}

/// What a click on the icon does.
#[derive(Debug, Clone, Copy, PartialEq, Eq, Structural)]
pub enum TrayIconAction {
    OpenSettings,
    OpenUpdates,
    ShowContextMenu,
}

/// The event of the icon: the lower half of what Windows hands over.
pub fn tray_callback_event(raw_lparam: isize) -> (event: u32)
    ensures
        event == (raw_lparam as usize) & 0xffff,
{
    let low: usize = (raw_lparam as usize) & 0xffff;
    assert(((raw_lparam as usize) & 0xffff) <= 0xffff) by (bit_vector);
    low as u32
}

pub open spec fn action_on(event: u32, balloon_opens_updates: bool) -> Option<TrayIconAction> {
    if event == WM_LBUTTONUP || event == WM_LBUTTONDBLCLK || event == NIN_SELECT || event
        == NIN_KEYSELECT_EVENT {
        Some(TrayIconAction::OpenSettings)
    } else if event == NIN_BALLOONUSERCLICK {
        Some(
            if balloon_opens_updates {
                TrayIconAction::OpenUpdates
            } else {
                TrayIconAction::OpenSettings
            },
        )
    } else if event == WM_RBUTTONUP || event == WM_CONTEXTMENU {
        Some(TrayIconAction::ShowContextMenu)
    } else {
        None
    }
}

pub fn tray_icon_action(event: u32, balloon_opens_updates: bool) -> (action: Option<TrayIconAction>)
    ensures
        action == action_on(event, balloon_opens_updates),
{
    if event == WM_LBUTTONUP || event == WM_LBUTTONDBLCLK || event == NIN_SELECT || event
        == NIN_KEYSELECT_EVENT {
        Some(TrayIconAction::OpenSettings)
    } else if event == NIN_BALLOONUSERCLICK {
        if balloon_opens_updates {
            Some(TrayIconAction::OpenUpdates)
        } else {
            Some(TrayIconAction::OpenSettings)
        }
    } else if event == WM_RBUTTONUP || event == WM_CONTEXTMENU {
        Some(TrayIconAction::ShowContextMenu)
    } else {
        None
    }
}

/// What an event of the icon comes to, with the notifications kept in step.
pub fn handle_tray_event(routes: &mut BalloonRouteState, event: u32) -> (action: Option<
    TrayIconAction,
>)
    ensures
        if event == NIN_BALLOONSHOW {
            &&& action is None
            &&& final(routes).pending@ == without_first(old(routes).pending@)
            &&& final(routes).active == (if old(routes).pending@.len() == 0 {
                old(routes).active
            } else {
                Some(old(routes).pending@[0])
            })
        } else if event == NIN_BALLOONHIDE || event == NIN_BALLOONTIMEOUT || event
            == NIN_BALLOONUSERCLICK {
            &&& action == (if event == NIN_BALLOONUSERCLICK {
                action_on(event, old(routes).leads_to() is Updates)
            } else {
                None
            })
            &&& final(routes).active is None
            &&& final(routes).pending@ == (if old(routes).active is Some {
                old(routes).pending@
            } else {
                without_first(old(routes).pending@)
            })
        } else {
            action == action_on(event, false) && *final(routes) == *old(routes)
        },
{
    if event == NIN_BALLOONSHOW {
        routes.shown();
        return None;
    }
    if event == NIN_BALLOONHIDE || event == NIN_BALLOONTIMEOUT {
        routes.dismissed();
        return None;
    }
    let opens_updates = event == NIN_BALLOONUSERCLICK && routes.clicked() == UiDestination::Updates;
    tray_icon_action(event, opens_updates)
}

/// The message with which Explorer says that it has a new taskbar, once it is
/// registered.
pub fn is_taskbar_created_message(message: u32, registered_message: u32) -> (created: bool)
    ensures
        created == (registered_message != 0 && message == registered_message),
{
    registered_message != 0 && message == registered_message
}

/// The time between two messages, on a clock that starts anew.
pub open spec fn elapsed_ticks(from: u32, to: u32) -> int {
    if to >= from {
        to - from
    } else {
        to - from + 0x1_0000_0000
    }
}

/// A click counts unless it belongs to a double click.
pub fn tray_left_click_is_distinct(
    previous_message_time: Option<u32>,
    message_time: u32,
    double_click_time: u32,
) -> (distinct: bool)
    ensures
        distinct == (previous_message_time is None || elapsed_ticks(
            previous_message_time->0,
            message_time,
        ) > double_click_time),
{
    match previous_message_time {
        Some(previous) => message_time.wrapping_sub(previous) > double_click_time,
        None => true,
    }
}

/// What a timer of the icon does.
#[derive(Debug, Clone, Copy, PartialEq, Eq, Structural)]
pub enum TimerAction {
    OfferSetup,
    CheckForUpdate,
    /// Stops the timer and checks for an update.
    RepeatUpdateCheck,
    PollBackup,
}

pub fn timer_action(timer: usize) -> (action: Option<TimerAction>)
    ensures
        action == (if timer == ONBOARDING_TIMER_ID {
            Some(TimerAction::OfferSetup)
        } else if timer == UPDATE_TIMER_ID {
            Some(TimerAction::CheckForUpdate)
        } else if timer == UPDATE_RETRY_TIMER_ID {
            Some(TimerAction::RepeatUpdateCheck)
        } else if timer == BACKUP_STATUS_TIMER_ID {
            Some(TimerAction::PollBackup)
        } else {
            None
        }),
{
    if timer == ONBOARDING_TIMER_ID {
        Some(TimerAction::OfferSetup)
    } else if timer == UPDATE_TIMER_ID {
        Some(TimerAction::CheckForUpdate)
    } else if timer == UPDATE_RETRY_TIMER_ID {
        Some(TimerAction::RepeatUpdateCheck)
    } else if timer == BACKUP_STATUS_TIMER_ID {
        Some(TimerAction::PollBackup)
    } else {
        None
    }
}

/// Whether the machine installs updates by itself, as far as the tray knows.
#[derive(Debug, Clone, Copy, PartialEq, Eq, Structural)]
pub enum AutomaticUpdateSetting {
    Enabled,
    Disabled,
    Unavailable,
}

/// What the reply to the question for the setting says; any other reply, or
/// none, says nothing.
pub fn automatic_update_setting(reply: Option<&ResponsePayload>) -> (setting: AutomaticUpdateSetting)
    ensures
        setting == (match reply {
            Some(ResponsePayload::UpdateSettings { configuration }) =>
                if configuration.automatic_install {
                AutomaticUpdateSetting::Enabled
            } else {
                AutomaticUpdateSetting::Disabled
            },
            _ => AutomaticUpdateSetting::Unavailable,
        }),
{
    match reply {
        Some(ResponsePayload::UpdateSettings { configuration }) =>
            if configuration.automatic_install {
            AutomaticUpdateSetting::Enabled
        } else {
            AutomaticUpdateSetting::Disabled
        },
        _ => AutomaticUpdateSetting::Unavailable,
    }
}

/// What is done about an update that was found.
#[derive(Debug, Clone, Copy, PartialEq, Eq, Structural)]
pub enum AvailableUpdateAction {
    RequestSilentInstall,
    Prompt,
    RetrySilently,
}

pub open spec fn on_available(setting: AutomaticUpdateSetting) -> AvailableUpdateAction {
    match setting {
        AutomaticUpdateSetting::Enabled => AvailableUpdateAction::RequestSilentInstall,
        AutomaticUpdateSetting::Disabled => AvailableUpdateAction::Prompt,
        AutomaticUpdateSetting::Unavailable => AvailableUpdateAction::RetrySilently,
    }
}

pub fn available_update_action(setting: AutomaticUpdateSetting) -> (action: AvailableUpdateAction)
    ensures
        action == on_available(setting),
{
    match setting {
        AutomaticUpdateSetting::Enabled => AvailableUpdateAction::RequestSilentInstall,
        AutomaticUpdateSetting::Disabled => AvailableUpdateAction::Prompt,
        AutomaticUpdateSetting::Unavailable => AvailableUpdateAction::RetrySilently,
    }
}

/// What is done where the user asks for an update.
#[derive(Debug, Clone, Copy, PartialEq, Eq, Structural)]
pub enum UserUpdateAction {
    OpenManualUi,
    CheckSilently,
    RetrySilently,
}

pub open spec fn on_request(setting: AutomaticUpdateSetting) -> UserUpdateAction {
    match setting {
        AutomaticUpdateSetting::Disabled => UserUpdateAction::OpenManualUi,
        AutomaticUpdateSetting::Enabled => UserUpdateAction::CheckSilently,
        AutomaticUpdateSetting::Unavailable => UserUpdateAction::RetrySilently,
    }
}

pub fn user_update_action(setting: AutomaticUpdateSetting) -> (action: UserUpdateAction)
    ensures
        action == on_request(setting),
{
    match setting {
        AutomaticUpdateSetting::Disabled => UserUpdateAction::OpenManualUi,
        AutomaticUpdateSetting::Enabled => UserUpdateAction::CheckSilently,
        AutomaticUpdateSetting::Unavailable => UserUpdateAction::RetrySilently,
    }
}

/// Only a machine on which the user installs updates bothers the user with them.
pub proof fn only_prompted_updates_reach_the_user(setting: AutomaticUpdateSetting)
    ensures
        on_available(setting) is Prompt <==> setting is Disabled,
        on_request(setting) is OpenManualUi <==> setting is Disabled,
{
}

/// The pause after the service was asked to install an update. One that it took
/// on can still fail, and is then not downloaded again before the next regular
/// check.
pub fn automatic_update_follow_up_interval(accepted: bool) -> (interval: u32)
    ensures
        interval == (if accepted {
            UPDATE_ACCEPTED_FOLLOW_UP_INTERVAL_MS
        } else {
            UPDATE_RETRY_INTERVAL_MS
        }),
{
    if accepted {
        UPDATE_ACCEPTED_FOLLOW_UP_INTERVAL_MS
    } else {
        UPDATE_RETRY_INTERVAL_MS
    }
}

/// A silent check is repeated whether or not it could be started: another one
/// may have been under way.
pub fn silent_recheck_follow_up_required(_check_started: bool) -> (required: bool)
    ensures
        required,
{
    true
}

/// What follows a check for updates.
#[derive(Debug, PartialEq, Eq)]
pub enum UpdateFollowUp {
    /// Asks the service to install; the menu offers nothing.
    RequestInstall { package: UpdatePackage },
    /// The menu offers the update, and the user is asked where it is time.
    Offer,
    /// The menu offers nothing, and the check is repeated soon.
    Retry,
    /// The menu offers nothing.
    Withdraw,
    /// Nothing is known anew.
    Keep,
}

pub fn after_update_check(check: Option<UpdateCheck>, setting: AutomaticUpdateSetting) -> (follow_up:
    UpdateFollowUp)
    ensures
        follow_up == (match check {
            Some(UpdateCheck::Available(package)) => match on_available(setting) {
                AvailableUpdateAction::RequestSilentInstall => UpdateFollowUp::RequestInstall {
                    package,
                },
                AvailableUpdateAction::Prompt => UpdateFollowUp::Offer,
                AvailableUpdateAction::RetrySilently => UpdateFollowUp::Retry,
            },
            Some(UpdateCheck::Current) => UpdateFollowUp::Withdraw,
            None => UpdateFollowUp::Keep,
        }),
{
    match check {
        Some(UpdateCheck::Available(package)) => match available_update_action(setting) {
            AvailableUpdateAction::RequestSilentInstall => UpdateFollowUp::RequestInstall {
                package,
            },
            AvailableUpdateAction::Prompt => UpdateFollowUp::Offer,
            AvailableUpdateAction::RetrySilently => UpdateFollowUp::Retry,
        },
        Some(UpdateCheck::Current) => UpdateFollowUp::Withdraw,
        None => UpdateFollowUp::Keep,
    }
}

/// Whether the service took a request on.
pub fn is_accepted(reply: Option<&ResponsePayload>) -> (taken: bool)
    ensures
        taken == (reply is Some && reply->0 is Accepted),
{
    match reply {
        Some(ResponsePayload::Accepted { .. }) => true,
        _ => false,
    }
}

/// Whether it is time to ask the user about an update: never asked, or a day
/// ago. Both times are nanoseconds of one calendar.
pub fn update_prompt_is_due(now: u128, last_prompt: Option<u128>) -> (due: bool)
    ensures
        due == (last_prompt is None || now - last_prompt->0 >= UPDATE_PROMPT_INTERVAL_NS),
{
    match last_prompt {
        Some(last) => now >= last && now - last >= UPDATE_PROMPT_INTERVAL_NS,
        None => true,
    }
}

/// Where it is noted that the user was asked about an update.
pub fn update_prompt_marker_path(local_data: Option<String>) -> (path: Option<String>)
    ensures
        chars_of(path) == (match local_data {
            Some(root) => Some(
                paths::below(paths::below(root@, "resticpal"@), "update-prompted"@),
            ),
            None => None,
        }),
{
    match local_data {
        Some(root) => {
            let directory = paths::join(root.as_str(), "resticpal");
            Some(paths::join(directory.as_str(), "update-prompted"))
        },
        None => None,
    }
}

/// Where it is noted that the setup was offered.
pub fn onboarding_marker_path(local_data: Option<String>) -> (path: Option<String>)
    ensures
        chars_of(path) == (match local_data {
            Some(root) => Some(
                paths::below(paths::below(root@, "resticpal"@), "onboarding-shown-v1"@),
            ),
            None => None,
        }),
{
    match local_data {
        Some(root) => {
            let directory = paths::join(root.as_str(), "resticpal");
            Some(paths::join(directory.as_str(), "onboarding-shown-v1"))
        },
        None => None,
    }
}

/// The setup is offered once, to a user of a machine without configuration.
pub fn should_launch_onboarding(marker_exists: bool, state: &BackupState) -> (launch: bool)
    ensures
        launch == (!marker_exists && state is Unconfigured),
{
    match state {
        BackupState::Unconfigured => !marker_exists,
        _ => false,
    }
}

/// What becomes of the offer of the setup.
#[derive(Debug, Clone, Copy, PartialEq, Eq, Structural)]
pub enum OnboardingStep {
    /// The service is not ready to be asked.
    Retry,
    /// Offers the setup, once.
    Launch,
    /// There is nothing to offer.
    Done,
}

pub open spec fn onboarding_after(marker_exists: bool, state: Option<BackupState>) -> OnboardingStep {
    if marker_exists {
        OnboardingStep::Done
    } else {
        match state {
            None => OnboardingStep::Retry,
            Some(BackupState::Unconfigured) => OnboardingStep::Launch,
            Some(BackupState::Waiting { .. }) => OnboardingStep::Retry,
            Some(_) => OnboardingStep::Done,
        }
    }
}

pub fn onboarding_step(marker_exists: bool, state: Option<&BackupState>) -> (step: OnboardingStep)
    ensures
        step == onboarding_after(
            marker_exists,
            match state {
                Some(state) => Some(*state),
                None => None,
            },
        ),
{
    if marker_exists {
        return OnboardingStep::Done;
    }
    match state {
        None => OnboardingStep::Retry,
        Some(state) => if should_launch_onboarding(marker_exists, state) {
            OnboardingStep::Launch
        } else {
            match state {
                BackupState::Waiting { .. } => OnboardingStep::Retry,
                _ => OnboardingStep::Done,
            }
        },
    }
}

/// Whether the setup is not offered again: it was, or often enough in vain.
pub fn onboarding_ends(step: OnboardingStep, attempts: u64) -> (ends: bool)
    ensures
        ends == (!(step is Retry) || attempts >= ONBOARDING_MAX_ATTEMPTS),
{
    step != OnboardingStep::Retry || attempts >= ONBOARDING_MAX_ATTEMPTS
}

/// What the icon says when the mouse is over it.
pub open spec fn tooltip_of(status: ServiceStatus) -> Seq<char> {
    match status.state {
        BackupState::Unconfigured => "resticpal: setup required"@,
        BackupState::Idle | BackupState::Succeeded => "resticpal: protected"@,
        BackupState::Waiting { reason } => match reason {
            WaitingReason::Battery => "resticpal: backup waiting for AC power"@,
            WaitingReason::Network => "resticpal: backup waiting for network"@,
            WaitingReason::MeteredNetwork => "resticpal: backup waiting for an unmetered network"@,
            _ => "resticpal: backup waiting"@,
        },
        BackupState::Running { .. } => match status.progress {
            Some(progress) => match progress.percent_done {
                Some(percent) => "resticpal: backup running ("@ + text::decimal(percent as nat)
                    + "%)"@,
                None => "resticpal: backup running"@,
            },
            None => "resticpal: backup running"@,
        },
        BackupState::SucceededWithWarnings => "resticpal: backup completed with warnings"@,
        BackupState::Failed { .. } => "resticpal: backup needs attention"@,
        BackupState::Cancelled => "resticpal: last backup cancelled"@,
        BackupState::Paused => "resticpal: backups paused"@,
    }
}

pub fn status_tooltip(status: &ServiceStatus) -> (tooltip: String)
    ensures
        tooltip@ == tooltip_of(*status),
{
    match &status.state {
        BackupState::Unconfigured => "resticpal: setup required".to_owned(),
        BackupState::Idle | BackupState::Succeeded => "resticpal: protected".to_owned(),
        BackupState::Waiting { reason } => match reason {
            WaitingReason::Battery => "resticpal: backup waiting for AC power".to_owned(),
            WaitingReason::Network => "resticpal: backup waiting for network".to_owned(),
            WaitingReason::MeteredNetwork =>
                "resticpal: backup waiting for an unmetered network".to_owned(),
            _ => "resticpal: backup waiting".to_owned(),
        },
        BackupState::Running { .. } => {
            let percent = match status.progress {
                Some(progress) => progress.percent_done,
                None => None,
            };
            match percent {
                Some(percent) => {
                    let number = text::decimal_text(percent as u64);
                    let front = text::joined("resticpal: backup running (", number.as_str());
                    text::joined(front.as_str(), "%)")
                },
                None => "resticpal: backup running".to_owned(),
            }
        },
        BackupState::SucceededWithWarnings =>
            "resticpal: backup completed with warnings".to_owned(),
        BackupState::Failed { .. } => "resticpal: backup needs attention".to_owned(),
        BackupState::Cancelled => "resticpal: last backup cancelled".to_owned(),
        BackupState::Paused => "resticpal: backups paused".to_owned(),
    }
}

/// What the icon says where the service answers nothing, or something else.
pub fn tooltip(status: Option<&ServiceStatus>, reachable: bool) -> (tip: String)
    ensures
        tip@ == (if !reachable {
            "resticpal: backup service unavailable"@
        } else {
            match status {
                Some(status) => tooltip_of(*status),
                None => "resticpal: unexpected service response"@,
            }
        }),
{
    if !reachable {
        return "resticpal: backup service unavailable".to_owned();
    }
    match status {
        Some(status) => status_tooltip(status),
        None => "resticpal: unexpected service response".to_owned(),
    }
}

/// An entry of the menu.
#[derive(Debug, Clone, Copy, PartialEq, Eq, Structural)]
pub enum MenuItem {
    Open,
    Update,
    CancelBackup,
    RunBackup,
    Exit,
}

impl MenuItem {
    pub open spec fn id_of(self) -> usize {
        match self {
            MenuItem::Open => MENU_OPEN,
            MenuItem::Update => MENU_UPDATE,
            MenuItem::CancelBackup | MenuItem::RunBackup => MENU_RUN_BACKUP,
            MenuItem::Exit => MENU_EXIT,
        }
    }

    pub fn id(&self) -> (id: usize)
        ensures
            id == self.id_of(),
    {
        match self {
            MenuItem::Open => MENU_OPEN,
            MenuItem::Update => MENU_UPDATE,
            MenuItem::CancelBackup | MenuItem::RunBackup => MENU_RUN_BACKUP,
            MenuItem::Exit => MENU_EXIT,
        }
    }

    pub fn label(&self) -> (label: &'static str)
        ensures
            label@ == (match self {
                MenuItem::Open => "Open resticpal"@,
                MenuItem::Update => "Update available\u{2026}"@,
                MenuItem::CancelBackup => "Cancel backup"@,
                MenuItem::RunBackup => "Run backup now"@,
                MenuItem::Exit => "Exit tray"@,
            }),
    {
        match self {
            MenuItem::Open => "Open resticpal",
            MenuItem::Update => "Update available\u{2026}",
            MenuItem::CancelBackup => "Cancel backup",
            MenuItem::RunBackup => "Run backup now",
            MenuItem::Exit => "Exit tray",
        }
    }
}

pub open spec fn items_of(offers_update: bool, backup_running: bool) -> Seq<MenuItem> {
    let backup = if backup_running {
        MenuItem::CancelBackup
    } else {
        MenuItem::RunBackup
    };
    if offers_update {
        seq![MenuItem::Open, MenuItem::Update, backup, MenuItem::Exit]
    } else {
        seq![MenuItem::Open, backup, MenuItem::Exit]
    }
}

pub fn menu_items(offers_update: bool, backup_running: bool) -> (items: Vec<MenuItem>)
    ensures
        items@ == items_of(offers_update, backup_running),
{
    let backup = if backup_running {
        MenuItem::CancelBackup
    } else {
        MenuItem::RunBackup
    };
    if offers_update {
        vec![MenuItem::Open, MenuItem::Update, backup, MenuItem::Exit]
    } else {
        vec![MenuItem::Open, backup, MenuItem::Exit]
    }
}

/// The entry that a command of the menu stands for.
pub fn menu_choice(command: usize, backup_running: bool) -> (choice: Option<MenuItem>)
    ensures
        choice == (if command == MENU_OPEN {
            Some(MenuItem::Open)
        } else if command == MENU_UPDATE {
            Some(MenuItem::Update)
        } else if command == MENU_RUN_BACKUP {
            Some(
                if backup_running {
                    MenuItem::CancelBackup
                } else {
                    MenuItem::RunBackup
                },
            )
        } else if command == MENU_EXIT {
            Some(MenuItem::Exit)
        } else {
            None
        }),
{
    if command == MENU_OPEN {
        Some(MenuItem::Open)
    } else if command == MENU_UPDATE {
        Some(MenuItem::Update)
    } else if command == MENU_RUN_BACKUP {
        if backup_running {
            Some(MenuItem::CancelBackup)
        } else {
            Some(MenuItem::RunBackup)
        }
    } else if command == MENU_EXIT {
        Some(MenuItem::Exit)
    } else {
        None
    }
}

/// Every entry of the menu is found again by its command.
pub proof fn menu_commands_are_distinct(offers_update: bool, backup_running: bool, i: int, j: int)
    requires
        0 <= i < j < items_of(offers_update, backup_running).len(),
    ensures
        items_of(offers_update, backup_running)[i].id_of() != items_of(
            offers_update,
            backup_running,
        )[j].id_of(),
{
}

/// Whether the menu offers an update that was found, and else what is done
/// about it: it may be that the service installs it by now.
pub fn menu_update(update_available: bool, setting: AutomaticUpdateSetting) -> (offered: (
    bool,
    Option<UserUpdateAction>,
))
    ensures
        offered.0 == (update_available && setting is Disabled),
        offered.1 == (if update_available && !(setting is Disabled) {
            Some(on_request(setting))
        } else {
            None
        }),
{
    if !update_available {
        return (false, None);
    }
    match user_update_action(setting) {
        UserUpdateAction::OpenManualUi => (true, None),
        action => (false, Some(action)),
    }
}

/// What the user is told after asking for a backup or its end.
#[derive(Debug, PartialEq, Eq)]
pub enum ActionReply {
    /// A notification; the backup is followed from now on.
    Notify { title: &'static str, message: String },
    Error { message: String },
}

/// What the user is told of the answer to a request; an error says why the
/// service could not be reached.
pub fn backup_action_reply(run_backup: bool, reply: Result<ResponsePayload, String>) -> (told:
    ActionReply)
    ensures
        match reply {
            Ok(ResponsePayload::Accepted { message }) => {
                &&& told matches ActionReply::Notify { title, message: said }
                &&& said == message
                &&& title@ == (if run_backup {
                    "Backup requested"@
                } else {
                    "Cancellation requested"@
                })
            },
            Ok(ResponsePayload::Rejected { message, .. }) => told == (ActionReply::Error {
                message,
            }),
            Ok(_) => told matches ActionReply::Error { message } && message@
                == "The backup service returned an unexpected response."@,
            Err(error) => told matches ActionReply::Error { message } && message@
                == "The backup service could not be reached.\n\n"@ + error@,
        },
{
    match reply {
        Ok(ResponsePayload::Accepted { message }) => ActionReply::Notify {
            title: if run_backup {
                "Backup requested"
            } else {
                "Cancellation requested"
            },
            message,
        },
        Ok(ResponsePayload::Rejected { message, .. }) => ActionReply::Error { message },
        Ok(_) => ActionReply::Error {
            message: "The backup service returned an unexpected response.".to_owned(),
        },
        Err(error) => ActionReply::Error {
            message: text::joined("The backup service could not be reached.\n\n", error.as_str()),
        },
    }
}

/// The request behind an entry of the menu.
pub fn menu_request(item: MenuItem) -> (command: Option<RequestCommand>)
    ensures
        command == (match item {
            MenuItem::RunBackup => Some(RequestCommand::RunBackupNow),
            MenuItem::CancelBackup => Some(RequestCommand::CancelBackup),
            _ => None,
        }),
{
    match item {
        MenuItem::RunBackup => Some(RequestCommand::RunBackupNow),
        MenuItem::CancelBackup => Some(RequestCommand::CancelBackup),
        _ => None,
    }
}

/// The last attempt before a backup was asked for, where it is known.
#[derive(Debug, Clone, Copy, PartialEq, Eq, Structural)]
pub struct BackupAttemptBaseline {
    pub known: bool,
    pub attempt: Option<i128>,
}

impl BackupAttemptBaseline {
    pub fn unknown() -> (baseline: BackupAttemptBaseline)
        ensures
            baseline == (BackupAttemptBaseline { known: false, attempt: None }),
    {
        BackupAttemptBaseline { known: false, attempt: None }
    }

    pub fn from_status(status: &ServiceStatus) -> (baseline: BackupAttemptBaseline)
        ensures
            baseline == (BackupAttemptBaseline { known: true, attempt: status.last_attempt }),
    {
        BackupAttemptBaseline { known: true, attempt: status.last_attempt }
    }
}

/// Whether there was an attempt since.
pub open spec fn attempt_changed(
    baseline_known: bool,
    baseline_attempt: Option<i128>,
    last_attempt: Option<i128>,
) -> bool {
    baseline_known && last_attempt is Some && last_attempt != baseline_attempt
}

pub fn backup_attempt_changed(
    baseline_known: bool,
    baseline_attempt: Option<i128>,
    last_attempt: Option<i128>,
) -> (changed: bool)
    ensures
        changed == attempt_changed(baseline_known, baseline_attempt, last_attempt),
{
    match (baseline_attempt, last_attempt) {
        (Some(before), Some(last)) => baseline_known && last != before,
        (None, Some(_)) => baseline_known,
        (_, None) => false,
    }
}

/// What the user is told of a backup that is followed.
#[derive(Debug, Clone, Copy, PartialEq, Eq, Structural)]
pub enum BackupNotice {
    StatusUnavailable,
    StillPending,
    Waiting,
    Started,
    Complete,
    CompleteWithWarnings,
    NeedsAttention,
    Cancelled,
    Stopped,
}

impl BackupNotice {
    pub fn title(&self) -> (title: &'static str)
        ensures
            title@ == (match self {
                BackupNotice::StatusUnavailable => "Backup status unavailable"@,
                BackupNotice::StillPending => "Backup still pending"@,
                BackupNotice::Waiting => "Backup waiting"@,
                BackupNotice::Started => "Backup started"@,
                BackupNotice::Complete => "Backup complete"@,
                BackupNotice::CompleteWithWarnings => "Backup completed with warnings"@,
                BackupNotice::NeedsAttention => "Backup needs attention"@,
                BackupNotice::Cancelled => "Backup cancelled"@,
                BackupNotice::Stopped => "Backup request stopped"@,
            }),
    {
        match self {
            BackupNotice::StatusUnavailable => "Backup status unavailable",
            BackupNotice::StillPending => "Backup still pending",
            BackupNotice::Waiting => "Backup waiting",
            BackupNotice::Started => "Backup started",
            BackupNotice::Complete => "Backup complete",
            BackupNotice::CompleteWithWarnings => "Backup completed with warnings",
            BackupNotice::NeedsAttention => "Backup needs attention",
            BackupNotice::Cancelled => "Backup cancelled",
            BackupNotice::Stopped => "Backup request stopped",
        }
    }

    pub fn message(&self) -> (message: &'static str)
        ensures
            message@ == (match self {
                BackupNotice::StatusUnavailable =>
                    "resticpal stopped the dedicated status watch. Open the app to review the service."@,
                BackupNotice::StillPending =>
                    "resticpal stopped the dedicated status watch after two hours. Open the app to review current conditions."@,
                BackupNotice::Waiting =>
                    "The request is still queued. resticpal will keep watching its power, network, and service conditions."@,
                BackupNotice::Started => "resticpal is now protecting this PC."@,
                BackupNotice::Complete => "The latest backup finished successfully."@,
                BackupNotice::CompleteWithWarnings =>
                    "The backup finished, but some files need attention. Open resticpal for details."@,
                BackupNotice::NeedsAttention =>
                    "The backup did not complete. Open resticpal diagnostics for details."@,
                BackupNotice::Cancelled => "The active backup was cancelled."@,
                BackupNotice::Stopped =>
                    "The service can no longer run the requested backup. Open resticpal to review its configuration."@,
            }),
    {
        match self {
            BackupNotice::StatusUnavailable =>
                "resticpal stopped the dedicated status watch. Open the app to review the service.",
            BackupNotice::StillPending =>
                "resticpal stopped the dedicated status watch after two hours. Open the app to review current conditions.",
            BackupNotice::Waiting =>
                "The request is still queued. resticpal will keep watching its power, network, and service conditions.",
            BackupNotice::Started => "resticpal is now protecting this PC.",
            BackupNotice::Complete => "The latest backup finished successfully.",
            BackupNotice::CompleteWithWarnings =>
                "The backup finished, but some files need attention. Open resticpal for details.",
            BackupNotice::NeedsAttention =>
                "The backup did not complete. Open resticpal diagnostics for details.",
            BackupNotice::Cancelled => "The active backup was cancelled.",
            BackupNotice::Stopped =>
                "The service can no longer run the requested backup. Open resticpal to review its configuration.",
        }
    }
}

/// What a look at a backup that is followed comes to.
#[derive(Debug, Clone, Copy, PartialEq, Eq, Structural)]
pub struct MonitorStep {
    /// From now on the backup is looked at less often.
    pub slow_down: bool,
    /// What the user is told while it goes on.
    pub notice: Option<BackupNotice>,
    /// What the user is told at its end: the backup is not followed any more.
    pub finish: Option<BackupNotice>,
}

/// Follows a backup that was asked for. Its times are nanoseconds of one clock.
#[derive(Debug, Clone, Copy, PartialEq, Eq, Structural)]
pub struct BackupMonitor {
    pub baseline: BackupAttemptBaseline,
    pub ticks: u64,
    pub started: Option<u128>,
    pub observed_running: bool,
    pub started_notification_shown: bool,
}

impl BackupMonitor {
    pub open spec fn has_timed_out(self, now: u128) -> bool {
        self.started is Some && now - self.started->0 >= BACKUP_MONITOR_TIMEOUT_NS
    }

    /// Whether the attempt that is followed has begun.
    pub open spec fn has_begun(self, status: ServiceStatus) -> bool {
        self.observed_running || attempt_changed(
            self.baseline.known,
            self.baseline.attempt,
            status.last_attempt,
        )
    }

    /// Begins to follow a backup. Where its end was asked for, it is known to run.
    pub fn start(baseline: BackupAttemptBaseline, observed_running: bool, now: u128) -> (monitor:
        BackupMonitor)
        ensures
            monitor == (BackupMonitor {
                baseline,
                ticks: 0,
                started: Some(now),
                observed_running,
                started_notification_shown: observed_running,
            }),
    {
        BackupMonitor {
            baseline,
            ticks: 0,
            started: Some(now),
            observed_running,
            started_notification_shown: observed_running,
        }
    }

    pub fn backup_monitor_timed_out(&self, now: u128) -> (timed_out: bool)
        ensures
            timed_out == self.has_timed_out(now),
    {
        match self.started {
            Some(started) => now >= started && now - started >= BACKUP_MONITOR_TIMEOUT_NS,
            None => false,
        }
    }

    /// How the backup ended, where it did.
    pub open spec fn ending(self, status: ServiceStatus) -> Option<BackupNotice> {
        match status.state {
            BackupState::Succeeded if self.has_begun(status) => Some(BackupNotice::Complete),
            BackupState::SucceededWithWarnings if self.has_begun(status) => Some(
                BackupNotice::CompleteWithWarnings,
            ),
            BackupState::Failed { .. } if self.has_begun(status) => Some(
                BackupNotice::NeedsAttention,
            ),
            BackupState::Cancelled if self.has_begun(status) => Some(BackupNotice::Cancelled),
            BackupState::Unconfigured | BackupState::Paused => Some(BackupNotice::Stopped),
            _ => None,
        }
    }

    /// What a look comes to, after so many looks.
    pub open spec fn step_on(self, ticks: u64, status: Option<ServiceStatus>, now: u128) -> MonitorStep {
        match status {
            None => if self.has_timed_out(now) {
                MonitorStep {
                    slow_down: false,
                    notice: None,
                    finish: Some(BackupNotice::StatusUnavailable),
                }
            } else {
                MonitorStep {
                    slow_down: ticks == BACKUP_FAST_POLL_TICKS,
                    notice: None,
                    finish: None,
                }
            },
            Some(status) => if self.has_timed_out(now) {
                MonitorStep {
                    slow_down: false,
                    notice: None,
                    finish: Some(BackupNotice::StillPending),
                }
            } else {
                let waits = ticks == BACKUP_FAST_POLL_TICKS && !self.has_begun(status) && !(
                status.state is Running);
                MonitorStep {
                    slow_down: waits,
                    notice: if waits {
                        Some(BackupNotice::Waiting)
                    } else if status.state is Running && !self.started_notification_shown {
                        Some(BackupNotice::Started)
                    } else {
                        None
                    },
                    finish: self.ending(status),
                }
            },
        }
    }

    /// Looks at the backup. `status` is what the service says, where it does.
    pub fn poll_backup_status(&mut self, status: Option<&ServiceStatus>, now: u128) -> (step:
        MonitorStep)
        ensures
            ({
                let ticks = old(self).ticks.wrapping_add(1);
                let said = match status {
                    Some(status) => Some(*status),
                    None => None,
                };
                let runs = said is Some && !old(self).has_timed_out(now) && said->0.state is Running;
                &&& step == old(self).step_on(ticks, said, now)
                &&& *final(self) == (BackupMonitor {
                    baseline: old(self).baseline,
                    ticks,
                    started: if step.finish is Some {
                        None
                    } else {
                        old(self).started
                    },
                    observed_running: old(self).observed_running || runs,
                    started_notification_shown: old(self).started_notification_shown || runs,
                })
            }),
    {
        self.ticks = self.ticks.wrapping_add(1);
        let ticks = self.ticks;
        let timed_out = self.backup_monitor_timed_out(now);
        let status = match status {
            Some(status) => status,
            None => {
                if timed_out {
                    self.started = None;
                    return MonitorStep {
                        slow_down: false,
                        notice: None,
                        finish: Some(BackupNotice::StatusUnavailable),
                    };
                }
                return MonitorStep {
                    slow_down: ticks == BACKUP_FAST_POLL_TICKS,
                    notice: None,
                    finish: None,
                };
            },
        };
        if timed_out {
            self.started = None;
            return MonitorStep {
                slow_down: false,
                notice: None,
                finish: Some(BackupNotice::StillPending),
            };
        }
        let begun = self.observed_running || backup_attempt_changed(
            self.baseline.known,
            self.baseline.attempt,
            status.last_attempt,
        );
        let runs = status.state.is_running();
        let waits = ticks == BACKUP_FAST_POLL_TICKS && !begun && !runs;
        let mut notice = if waits {
            Some(BackupNotice::Waiting)
        } else {
            None
        };
        let mut finish = None;
        match &status.state {
            BackupState::Running { .. } => {
                self.observed_running = true;
                if !self.started_notification_shown {
                    notice = Some(BackupNotice::Started);
                }
                self.started_notification_shown = true;
            },
            BackupState::Succeeded => if begun {
                finish = Some(BackupNotice::Complete);
            },
            BackupState::SucceededWithWarnings => if begun {
                finish = Some(BackupNotice::CompleteWithWarnings);
            },
            BackupState::Failed { .. } => if begun {
                finish = Some(BackupNotice::NeedsAttention);
            },
            BackupState::Cancelled => if begun {
                finish = Some(BackupNotice::Cancelled);
            },
            BackupState::Unconfigured | BackupState::Paused => {
                finish = Some(BackupNotice::Stopped);
            },
            _ => {},
        }
        if finish.is_some() {
            self.started = None;
        }
        MonitorStep { slow_down: waits, notice, finish }
    }
}

/// A backup is said to be complete only where it was seen to run, or where there
/// was an attempt since it was asked for.
pub proof fn an_old_success_is_not_announced(
    monitor: BackupMonitor,
    ticks: u64,
    status: ServiceStatus,
    now: u128,
)
    requires
        !monitor.has_begun(status),
    ensures
        ({
            let finish = monitor.step_on(ticks, Some(status), now).finish;
            &&& finish != Some(BackupNotice::Complete)
            &&& finish != Some(BackupNotice::CompleteWithWarnings)
            &&& finish != Some(BackupNotice::NeedsAttention)
            &&& finish != Some(BackupNotice::Cancelled)
        }),
{
}

/// No backup is followed for longer than two hours.
pub proof fn the_watch_ends_in_time(
    monitor: BackupMonitor,
    ticks: u64,
    status: Option<ServiceStatus>,
    now: u128,
)
    requires
        monitor.has_timed_out(now),
    ensures
        monitor.step_on(ticks, status, now).finish is Some,
{
}

/// Whether Windows opened an application: its answer says why not below this.
pub fn is_launched(result: isize) -> (launched: bool)
    ensures
        launched == (result > 32),
{
    result > 32
}

/// Where the settings application is: beside the tray.
pub fn ui_path(executable: &str) -> (path: String)
    ensures
        path@ == paths::beside(executable@, "resticpal-ui.exe"@),
{
    paths::with_file_name(executable, "resticpal-ui.exe")
}

/// Writes a text in UTF-16 over the front of a buffer, as much of it as leaves
/// one unit; what is behind it stays.
pub fn copy_wide(value: &str, destination: &mut Vec<u16>)
    ensures
        ({
            let units = text::utf16_units(value@);
            let room = old(destination)@.len() - 1;
            let count = if units.len() < room {
                units.len() as int
            } else if room < 0 {
                0
            } else {
                room
            };
            &&& final(destination)@.len() == old(destination)@.len()
            &&& forall|i: int|
                0 <= i < old(destination)@.len() ==> #[trigger] final(destination)@[i] == (if i
                    < count {
                    units[i]
                } else {
                    old(destination)@[i]
                })
        }),
{
    let units = text::encode_utf16(value);
    if destination.len() == 0 {
        return ;
    }
    let room: usize = destination.len() - 1;
    let count: usize = if units.len() < room {
        units.len()
    } else {
        room
    };
    let ghost before = destination@;
    let mut i: usize = 0;
    while i < count
        invariant
            i <= count <= units@.len(),
            count < destination@.len(),
            destination@.len() == before.len(),
            forall|j: int|
                0 <= j < before.len() ==> #[trigger] destination@[j] == (if j < i {
                    units@[j]
                } else {
                    before[j]
                }),
        decreases count - i,
    {
        destination.set(i, units[i]);
        i = i + 1;
    }
}

/// A text in UTF-16 with a zero at its end.
pub fn wide_null(value: &str) -> (units: Vec<u16>)
    ensures
        units@ == text::utf16_units(value@).push(0),
{
    let mut units = text::encode_utf16(value);
    units.push(0);
    units
}

} // verus!
