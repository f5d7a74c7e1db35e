use std::sync::mpsc::{sync_channel, SyncSender, TrySendError};

use serde_json::Value;
use welog_rs::json::LogFields;
use welog_rs::logger::Logger;
use welog_rs::queue::{Drops, Notice, Offer};

fn fields(event: &str) -> LogFields {
    let mut fields = LogFields::new();
    fields.insert("event".to_string(), Value::String(event.to_string()));
    fields
}

fn offer(sender: &SyncSender<LogFields>, record: LogFields) -> Offer {
    match sender.try_send(record) {
        Ok(()) => Offer::Queued,
        Err(TrySendError::Full(_)) => Offer::Full,
        Err(TrySendError::Disconnected(_)) => Offer::Disconnected,
    }
}

#[test]
fn log_handles_disconnected_channel() {
    let (sender, receiver) = sync_channel(1);
    drop(receiver);
    let logger = Logger::new_from_env(&[]);
    let mut drops = Drops::new();

    let entry = logger.log(fields("test"));
    assert_eq!(drops.record(offer(&sender, entry.record)), Notice::NoWorker);
    assert_eq!(drops.count, 0);
}

#[test]
fn log_drops_when_channel_full() {
    let (sender, receiver) = sync_channel(0);
    let logger = Logger::new_from_env(&[]);
    let mut drops = Drops::new();

    let entry = logger.log(fields("test"));
    assert_eq!(drops.record(offer(&sender, entry.record)), Notice::Nothing);
    assert_eq!(drops.count, 1);

    drop(receiver);
}

#[test]
fn log_drops_reports_every_1000() {
    let (sender, receiver) = sync_channel(0);
    let logger = Logger::new_from_env(&[]);
    let mut drops = Drops::new();
    let mut reports = Vec::new();

    for _ in 0..2500 {
        let entry = logger.log(fields("burst"));
        match drops.record(offer(&sender, entry.record)) {
            Notice::Nothing => {}
            notice => reports.push(notice),
        }
    }
    assert_eq!(reports, vec![Notice::Dropped(1000), Notice::Dropped(2000)]);

    drop(receiver);
}

#[test]
fn logger_reports_channel_disconnected() {
    assert_eq!(Drops { count: 999 }.record(Offer::Disconnected), Notice::NoWorker);
}

#[test]
fn logger_reports_channel_full() {
    assert_eq!(Drops { count: 999 }.record(Offer::Full), Notice::Dropped(1000));
}

#[test]
fn logger_forced_try_send_modes() {
    let mut drops = Drops::new();
    assert_eq!(drops.record(Offer::Disconnected), Notice::NoWorker);
    assert_eq!(drops.record(Offer::Full), Notice::Nothing);
    assert_eq!(drops.record(Offer::Queued), Notice::Nothing);
    assert_eq!(drops.count, 1);
}

#[test]
fn logger_queue_full_non_threshold_drop() {
    let mut drops = Drops::new();
    assert_eq!(drops.record(Offer::Full), Notice::Nothing);
    assert_eq!(drops.record(Offer::Full), Notice::Nothing);
    assert_eq!(drops.count, 2);
}

#[test]
fn the_count_of_drops_wraps_around() {
    let mut drops = Drops { count: u64::MAX };
    assert_eq!(drops.record(Offer::Full), Notice::Dropped(0));
}
