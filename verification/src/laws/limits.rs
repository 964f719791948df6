//! What the service is bounded by.
use crate::appcast::{MAX_UPDATE_APPCAST_BYTES, MAX_UPDATE_SIGNATURE_BYTES};
use crate::diagnostics::{MAX_ARCHIVES, MAX_DIAGNOSTIC_RESULTS, MAX_LOG_BYTES};
use crate::executor::{
    PROCESS_TERMINATION_GRACE, REPOSITORY_OPERATION_TIMEOUT, STALE_LOCK_CLEANUP_TIMEOUT,
};
use crate::history::{HISTORY_SCHEMA_VERSION, MAX_HISTORY_RESULTS, MAX_STORED_RUNS};
use crate::management::{CACHE_SCHEMA_VERSION, MAX_CACHE_BYTES};
use crate::outcome::{MAX_BACKUP_FAILED_ITEMS, MAX_BACKUP_FAILED_ITEM_BYTES};
use crate::output::{MAX_JSON_LINE_BYTES, MAX_PENDING_PROGRESS_EVENTS, MAX_STDERR_BYTES};
use crate::runtime::repository::MAX_SECRET_UPDATES;
use crate::runtime::requests::MAX_DEFERRAL_MINUTES;
use crate::runtime::restore::{MAX_RESTORE_QUERY_PAGE_SIZE, RESPONSE_RESERVE_BYTES};
use crate::service::{
    IDLE_REPORT_CADENCE, MANAGEMENT_BUSY_RETRY, MANAGEMENT_PASS, MAX_STAGED_URL_BYTES,
    RUNNING_REPORT_CADENCE, SHUTDOWN_DRAIN_TIMEOUT,
};
use crate::tray::{
    BACKUP_STATUS_INTERVAL_MS, BACKUP_WAITING_INTERVAL_MS, MAX_PENDING_BALLOON_ROUTES,
    ONBOARDING_MAX_ATTEMPTS, UPDATE_ACCEPTED_FOLLOW_UP_INTERVAL_MS, UPDATE_CHECK_INTERVAL_MS,
    UPDATE_PROMPT_INTERVAL_NS, UPDATE_RETRY_INTERVAL_MS,
};
use crate::updater::UPDATE_INSTALL_TIMEOUT_SECONDS;
use vstd::prelude::*;

verus! {

/// What is read of restic is bounded: a line to a megabyte, its diagnostics to
/// sixty-four kilobytes, what failed to a hundred names of four kilobytes.
pub proof fn what_is_read_of_restic_is_bounded()
    ensures
        MAX_JSON_LINE_BYTES == 1024 * 1024,
        MAX_STDERR_BYTES == 64 * 1024,
        MAX_PENDING_PROGRESS_EVENTS == 16,
        MAX_BACKUP_FAILED_ITEMS == 100,
        MAX_BACKUP_FAILED_ITEM_BYTES == 4 * 1024,
{
}

/// What is kept is bounded: two hundred runs, a log of a megabyte with three
/// archives, a cached policy of two megabytes.
pub proof fn what_is_kept_is_bounded()
    ensures
        MAX_STORED_RUNS == 200,
        MAX_HISTORY_RESULTS == 100,
        HISTORY_SCHEMA_VERSION == 2,
        MAX_LOG_BYTES == 1024 * 1024,
        MAX_ARCHIVES == 3,
        MAX_DIAGNOSTIC_RESULTS == 200,
        MAX_CACHE_BYTES == 2 * 1024 * 1024,
        CACHE_SCHEMA_VERSION == 1,
{
}

/// What is waited for is bounded: two minutes for an operation and for stale
/// locks, five seconds for a child to end, ten for the service to stop, half an
/// hour for an installer.
pub proof fn what_is_waited_for_is_bounded()
    ensures
        REPOSITORY_OPERATION_TIMEOUT == 2 * 60 * 1000,
        STALE_LOCK_CLEANUP_TIMEOUT == 2 * 60 * 1000,
        PROCESS_TERMINATION_GRACE == 5 * 1000,
        SHUTDOWN_DRAIN_TIMEOUT == 10,
        UPDATE_INSTALL_TIMEOUT_SECONDS == 30 * 60,
        MANAGEMENT_BUSY_RETRY == 30,
        MANAGEMENT_PASS == 30,
        RUNNING_REPORT_CADENCE == 5 * 60,
        IDLE_REPORT_CADENCE == 6 * 60 * 60,
{
}

/// What clients and servers send is bounded.
pub proof fn what_is_sent_is_bounded()
    ensures
        MAX_SECRET_UPDATES == 16,
        MAX_DEFERRAL_MINUTES == 24 * 60,
        MAX_RESTORE_QUERY_PAGE_SIZE == 100,
        RESPONSE_RESERVE_BYTES == 16 * 1024,
        MAX_STAGED_URL_BYTES == 64 * 1024,
        MAX_UPDATE_APPCAST_BYTES == 256 * 1024,
        MAX_UPDATE_SIGNATURE_BYTES == 1024,
{
}

/// The icon looks again every second at first and every half minute then, checks
/// for updates every six hours and five minutes after a failure, and asks about
/// one once a day.
pub proof fn how_often_the_icon_looks()
    ensures
        BACKUP_STATUS_INTERVAL_MS == 1000,
        BACKUP_WAITING_INTERVAL_MS == 30 * 1000,
        UPDATE_CHECK_INTERVAL_MS == 6 * 60 * 60 * 1000,
        UPDATE_RETRY_INTERVAL_MS == 5 * 60 * 1000,
        UPDATE_ACCEPTED_FOLLOW_UP_INTERVAL_MS == UPDATE_CHECK_INTERVAL_MS,
        UPDATE_PROMPT_INTERVAL_NS == 24 * 60 * 60 * 1_000_000_000,
        ONBOARDING_MAX_ATTEMPTS == 120,
        MAX_PENDING_BALLOON_ROUTES == 16,
{
}

} // verus!
