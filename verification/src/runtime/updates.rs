//! How the service makes room for an update of itself.
use super::lifecycle::released;
use super::state::{HeldStatus, RuntimeState, ServiceRuntime};
use crate::protocol::{accepted, rejected, ClientIdentity, ResponsePayload, UpdatePackage};
use crate::rejection::Rejection;
use crate::status::{transition_state, transitioned, BackupState, ServiceStatus, WaitingReason};
use crate::time::{move_or, moved_or};
use crate::updater::{package_error, validate_package, UPDATE_INSTALL_TIMEOUT_SECONDS};
use vstd::prelude::*;

verus! {

/// The shortest time for which backups are held for an update.
pub const MIN_UPDATE_HOLD_SECONDS: u32 = 60;

/// The longest time for which backups are held for an update.
pub const MAX_UPDATE_HOLD_SECONDS: u32 = UPDATE_INSTALL_TIMEOUT_SECONDS;

/// When a hold that starts now ends.
pub open spec fn hold_end(now: i128, seconds: u32) -> i128 {
    moved_or(now, seconds as i64, now)
}

/// The state while backups are held for an update. The status that the hold
/// covers up is remembered, once.
pub open spec fn held(
    state: RuntimeState,
    seconds: u32,
    installs: bool,
    now: i128,
) -> RuntimeState {
    let deadline = hold_end(now, seconds);
    RuntimeState {
        update_hold_previous_status: if state.update_hold_previous_status is None {
            Some(
                HeldStatus {
                    state: state.status.state,
                    next_deadline: state.status.next_deadline,
                },
            )
        } else {
            state.update_hold_previous_status
        },
        update_install_active: installs || state.update_install_active,
        update_hold_until: Some(deadline),
        manual_requested: false,
        resumed_at: None,
        status: ServiceStatus {
            next_deadline: Some(deadline),
            ..transitioned(
                state.status,
                BackupState::Waiting { reason: WaitingReason::Update },
                now,
            )
        },
        ..state
    }
}

fn hold(state: &mut RuntimeState, seconds: u32, installs: bool, now: i128)
    ensures
        *final(state) == held(*old(state), seconds, installs, now),
{
    let deadline = move_or(now, seconds as i64, now);
    if state.update_hold_previous_status.is_none() {
        state.update_hold_previous_status = Some(
            HeldStatus {
                state: state.status.state.clone(),
                next_deadline: state.status.next_deadline,
            },
        );
    }
    if installs {
        state.update_install_active = true;
    }
    state.update_hold_until = Some(deadline);
    state.manual_requested = false;
    state.resumed_at = None;
    transition_state(
        &mut state.status,
        BackupState::Waiting { reason: WaitingReason::Update },
        now,
    );
    state.status.next_deadline = Some(deadline);
}

/// Some other operation of the service would be cut off by an update.
pub open spec fn operation_runs(state: RuntimeState) -> bool {
    state.repository_operation is Running || state.management_operation_active
}

impl ServiceRuntime {
    /// Why backups are not held for an update that a user starts.
    pub open spec fn hold_refusal(
        self,
        hold_seconds: u32,
        identity: ClientIdentity,
        now: i128,
    ) -> Option<Rejection> {
        if !identity.is_elevated_administrator {
            Some(Rejection::AdministratorRequired)
        } else if self.config.updates.automatic_install {
            Some(Rejection::AutomaticUpdatesEnabled)
        } else if hold_seconds < MIN_UPDATE_HOLD_SECONDS || hold_seconds
            > MAX_UPDATE_HOLD_SECONDS {
            Some(Rejection::InvalidUpdateHold)
        } else if self.state.update_install_active {
            Some(Rejection::ServiceInstallingUpdate)
        } else if self.state.update_pending(now) {
            Some(Rejection::UpdateAlreadyHeld)
        } else if self.state.status.state is Running {
            Some(Rejection::BackupRunningAtUpdate)
        } else if operation_runs(self.state) {
            Some(Rejection::OperationRunning)
        } else {
            None
        }
    }

    /// Holds backups while a user installs an update.
    pub fn prepare_for_update(&mut self, hold_seconds: u32, identity: ClientIdentity, now: i128) -> (payload:
        ResponsePayload)
        ensures
            final(self).only_state_changed(*old(self)),
            match old(self).hold_refusal(hold_seconds, identity, now) {
                Some(rejection) => payload.rejects(rejection) && *final(self) == *old(self),
                None => {
                    &&& payload.accepts("Backups are held briefly while the update starts."@)
                    &&& final(self).state == held(old(self).state, hold_seconds, false, now)
                },
            },
    {
        if !identity.is_elevated_administrator {
            return rejected(Rejection::AdministratorRequired);
        }
        if self.config.updates.automatic_install {
            return rejected(Rejection::AutomaticUpdatesEnabled);
        }
        if hold_seconds < MIN_UPDATE_HOLD_SECONDS || hold_seconds > MAX_UPDATE_HOLD_SECONDS {
            return rejected(Rejection::InvalidUpdateHold);
        }
        if self.state.update_install_active {
            return rejected(Rejection::ServiceInstallingUpdate);
        }
        if self.state.has_pending_update(now) {
            return rejected(Rejection::UpdateAlreadyHeld);
        }
        if self.state.status.state.is_running() {
            return rejected(Rejection::BackupRunningAtUpdate);
        }
        if self.state.repository_operation.is_running() || self.state.management_operation_active {
            return rejected(Rejection::OperationRunning);
        }
        hold(&mut self.state, hold_seconds, false, now);
        accepted("Backups are held briefly while the update starts.")
    }

    /// Why the service does not install an update by itself.
    pub open spec fn install_refusal(self, package_is_valid: bool, now: i128) -> Option<Rejection> {
        if !self.config.updates.automatic_install {
            Some(Rejection::AutomaticUpdatesDisabled)
        } else if !package_is_valid {
            Some(Rejection::UpdateMetadataInvalid)
        } else if self.state.update_install_active {
            Some(Rejection::UpdateAlreadyInstalling)
        } else if self.state.update_pending(now) {
            Some(Rejection::PromptedUpdateHeld)
        } else if self.state.status.state is Running {
            Some(Rejection::InstallWaitsForBackup)
        } else if operation_runs(self.state) {
            Some(Rejection::InstallWaitsForOperation)
        } else {
            None
        }
    }

    /// Takes the installation of a package on whose validity is known, or says
    /// why not. Who asks does not matter: the package is signed.
    pub fn admit_update_install(&mut self, package_is_valid: bool, now: i128) -> (refused: Option<
        ResponsePayload,
    >)
        ensures
            final(self).only_state_changed(*old(self)),
            match old(self).install_refusal(package_is_valid, now) {
                Some(rejection) => {
                    &&& refused is Some
                    &&& refused->0.rejects(rejection)
                    &&& *final(self) == *old(self)
                },
                None => {
                    &&& refused is None
                    &&& final(self).state == held(
                        old(self).state,
                        MAX_UPDATE_HOLD_SECONDS,
                        true,
                        now,
                    )
                },
            },
    {
        if !self.config.updates.automatic_install {
            return Some(rejected(Rejection::AutomaticUpdatesDisabled));
        }
        if !package_is_valid {
            return Some(rejected(Rejection::UpdateMetadataInvalid));
        }
        if self.state.update_install_active {
            return Some(rejected(Rejection::UpdateAlreadyInstalling));
        }
        if self.state.has_pending_update(now) {
            return Some(rejected(Rejection::PromptedUpdateHeld));
        }
        if self.state.status.state.is_running() {
            return Some(rejected(Rejection::InstallWaitsForBackup));
        }
        if self.state.repository_operation.is_running() || self.state.management_operation_active {
            return Some(rejected(Rejection::InstallWaitsForOperation));
        }
        hold(&mut self.state, MAX_UPDATE_HOLD_SECONDS, true, now);
        None
    }

    /// Takes the installation of a package on, or says why not.
    pub fn begin_update_install(&mut self, package: &UpdatePackage, now: i128) -> (refused: Option<
        ResponsePayload,
    >)
        ensures
            final(self).only_state_changed(*old(self)),
            match old(self).install_refusal(package_error(*package) is None, now) {
                Some(rejection) => {
                    &&& refused is Some
                    &&& refused->0.rejects(rejection)
                    &&& *final(self) == *old(self)
                },
                None => {
                    &&& refused is None
                    &&& final(self).state == held(
                        old(self).state,
                        MAX_UPDATE_HOLD_SECONDS,
                        true,
                        now,
                    )
                },
            },
    {
        if !self.config.updates.automatic_install {
            return Some(rejected(Rejection::AutomaticUpdatesDisabled));
        }
        let valid = validate_package(package).is_ok();
        self.admit_update_install(valid, now)
    }
}

/// A hold that was refused its installer gives the status back that it covered.
pub proof fn an_undelivered_update_restores_the_status(state: RuntimeState, now: i128)
    requires
        state.update_hold_previous_status is None,
    ensures
        ({
            let after = released(held(state, MAX_UPDATE_HOLD_SECONDS, true, now), now);
            &&& after.status.state == state.status.state
            &&& after.status.next_deadline == state.status.next_deadline
            &&& !after.update_pending(now)
        }),
{
}

/// While backups are held no second hold and no installation starts.
pub proof fn one_update_at_a_time(
    runtime: ServiceRuntime,
    hold_seconds: u32,
    identity: ClientIdentity,
    package_is_valid: bool,
    now: i128,
)
    requires
        runtime.state.update_pending(now),
    ensures
        runtime.hold_refusal(hold_seconds, identity, now) is Some,
        runtime.install_refusal(package_is_valid, now) is Some,
{
}

/// Either the service installs updates or a user does: never is one of the two
/// taken on where the policy wants the other.
pub proof fn the_policy_says_who_installs(
    runtime: ServiceRuntime,
    hold_seconds: u32,
    identity: ClientIdentity,
    package_is_valid: bool,
    now: i128,
)
    ensures
        runtime.config.updates.automatic_install ==> runtime.hold_refusal(
            hold_seconds,
            identity,
            now,
        ) is Some,
        !runtime.config.updates.automatic_install ==> runtime.install_refusal(
            package_is_valid,
            now,
        ) is Some,
{
}

} // verus!
