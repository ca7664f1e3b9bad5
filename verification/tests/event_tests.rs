use pd2lcp::error::Error;
use pd2lcp::event::{Event, EventQueue, error_event, split_fallible};

#[test]
fn events_come_out_in_order() {
    let mut q = EventQueue::new();
    q.notify(Event::DownloadingWine);
    q.notify(Event::UpdatingPD2 { done: 1, total: 3 });
    assert_eq!(q.len(), 2);
    q.notify(Event::DoneUpdating);
    let taken = q.take_all();
    assert_eq!(
        taken,
        vec![
            Event::DownloadingWine,
            Event::UpdatingPD2 { done: 1, total: 3 },
            Event::DoneUpdating
        ]
    );
    assert_eq!(q.len(), 0);
    assert!(q.take_all().is_empty());
    q.notify(Event::InitPrefix);
    assert_eq!(q.take_all(), vec![Event::InitPrefix]);
}

#[test]
fn failures_become_error_events() {
    let (v, e) = split_fallible::<u8>(Err(Error::WineInitFailed));
    assert!(v.is_none());
    assert_eq!(e, Some(Event::Error("Wine initialisation failed".to_string())));
    let (v, e) = split_fallible(Ok(5u8));
    assert_eq!(v, Some(5));
    assert!(e.is_none());
    assert_eq!(
        error_event(&Error::IoError("gone".to_string())),
        Event::Error("gone".to_string())
    );
}
