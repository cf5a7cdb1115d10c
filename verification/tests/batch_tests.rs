use rkomga::batch::{Batch, Dispatch};
use rkomga::komga::{Link, Metadata, Series};
use rkomga::sync::Phase;

fn unlinked(name: &str) -> Series {
    Series {
        id: name.to_string(),
        name: name.to_string(),
        library_id: "L1".to_string(),
        metadata: Metadata::new(),
    }
}

fn linked(name: &str) -> Series {
    let mut series = unlinked(name);
    series.metadata.links = vec![Link {
        label: "Bangumi".to_string(),
        url: "https://bgm.tv/subject/1".to_string(),
    }];
    series
}

#[test]
fn empty_catalog_finishes_both_phases_at_once() {
    for phase in [Phase::Link, Phase::Enrich] {
        let mut batch = Batch::new(phase, &vec![]);
        assert!(batch.is_done());
        assert_eq!(batch.total(), 0);
        assert_eq!(batch.progress(), 0);
        assert_eq!(batch.next(), Dispatch::Finished);
        assert_eq!(batch.in_flight(), 0);
    }
}

#[test]
fn link_phase_runs_two_at_a_time() {
    let catalog = vec![unlinked("a"), linked("b"), unlinked("c"), unlinked("d")];
    let mut batch = Batch::new(Phase::Link, &catalog);
    assert_eq!(batch.total(), 4);
    assert_eq!(batch.progress(), 1);
    assert_eq!(batch.next(), Dispatch::Start(0));
    assert_eq!(batch.next(), Dispatch::Start(2));
    assert_eq!(batch.in_flight(), 2);
    assert_eq!(batch.next(), Dispatch::Wait);
    assert_eq!(batch.in_flight(), 2);
    assert!(batch.complete());
    assert_eq!(batch.progress(), 2);
    assert_eq!(batch.next(), Dispatch::Start(3));
    assert_eq!(batch.next(), Dispatch::Wait);
    assert!(batch.complete());
    assert!(!batch.is_done());
    assert_eq!(batch.next(), Dispatch::Wait);
    assert!(batch.complete());
    assert!(batch.is_done());
    assert_eq!(batch.progress(), 4);
    assert_eq!(batch.next(), Dispatch::Finished);
}

#[test]
fn enrich_phase_runs_three_at_a_time() {
    let catalog = vec![linked("a"), linked("b"), linked("c"), linked("d"), unlinked("e")];
    let mut batch = Batch::new(Phase::Enrich, &catalog);
    assert_eq!(batch.progress(), 1);
    assert_eq!(batch.next(), Dispatch::Start(0));
    assert_eq!(batch.next(), Dispatch::Start(1));
    assert_eq!(batch.next(), Dispatch::Start(2));
    assert_eq!(batch.next(), Dispatch::Wait);
    assert_eq!(batch.in_flight(), 3);
    assert!(batch.complete());
    assert_eq!(batch.next(), Dispatch::Start(3));
    assert_eq!(batch.next(), Dispatch::Wait);
    assert!(batch.complete());
    assert!(batch.complete());
    assert!(batch.complete());
    assert_eq!(batch.next(), Dispatch::Finished);
    assert_eq!(batch.progress(), 5);
}

#[test]
fn completion_with_nothing_in_flight_is_not_counted() {
    let catalog = vec![unlinked("a")];
    let mut batch = Batch::new(Phase::Link, &catalog);
    assert!(!batch.complete());
    assert_eq!(batch.progress(), 0);
    assert_eq!(batch.next(), Dispatch::Start(0));
    assert!(batch.complete());
    assert!(!batch.complete());
    assert_eq!(batch.progress(), 1);
    assert_eq!(batch.next(), Dispatch::Finished);
}

#[test]
fn phase_without_eligible_series_finishes_at_once() {
    let catalog = vec![linked("a"), linked("b")];
    let mut batch = Batch::new(Phase::Link, &catalog);
    assert_eq!(batch.next(), Dispatch::Finished);
    assert_eq!(batch.progress(), 2);
    assert_eq!(batch.total(), 2);
}
