use rkomga::bgm::{Candidate, Images, Infobox, Subject, Tag, ValueUnion};
use rkomga::fault::{Fault, SyncError};
use rkomga::komga::{Komga, Link, Metadata, Series};
use rkomga::unit::{
    enrich_step, link_step, EnrichAction, EnrichEvent, EnrichState, LinkAction, LinkEvent,
    LinkState,
};

const BASE: &str = "http://localhost:25600";

fn komga() -> Komga {
    Komga { url: BASE.to_string(), user: "user".to_string(), password: "pass".to_string() }
}

fn link(label: &str, url: &str) -> Link {
    Link { label: label.to_string(), url: url.to_string() }
}

fn series(tags: &[&str], links: Vec<Link>) -> Series {
    let mut metadata = Metadata::new();
    metadata.tags = tags.iter().map(|t| t.to_string()).collect();
    metadata.links = links;
    Series {
        id: "S1".to_string(),
        name: "Foo".to_string(),
        library_id: "L1".to_string(),
        metadata,
    }
}

fn record() -> Subject {
    Subject {
        images: Images { large: "https://lain.bgm.tv/pic/cover/l/42.jpg".to_string() },
        summary: "s".to_string(),
        tags: vec![Tag { name: "t".to_string() }],
        infobox: vec![Infobox {
            key: "出版社".to_string(),
            value: ValueUnion::String("Pub".to_string()),
        }],
    }
}

fn found(id: i64) -> Vec<Candidate> {
    vec![Candidate { id, name: "Foo".to_string(), name_cn: "".to_string() }]
}

fn bangumi() -> Link {
    link("Bangumi", "https://bgm.tv/subject/42")
}

#[test]
fn link_unit_searches_reads_and_writes() {
    let komga = komga();
    let entry = series(&[], vec![link("A", "urlA")]);

    let (state, action) = link_step(&komga, &entry, LinkState::Fresh, LinkEvent::Begin);
    assert_eq!(state, LinkState::Searching);
    assert_eq!(
        action,
        LinkAction::Search { url: "https://api.bgm.tv/search/subject/\"Foo\"?type=1".to_string() }
    );

    let (state, action) = link_step(&komga, &entry, state, LinkEvent::Candidates(Ok(found(42))));
    assert_eq!(state, LinkState::Checking { bgmid: "42".to_string() });
    assert_eq!(action, LinkAction::ReadSeries { url: format!("{}/api/v1/series/S1", BASE) });

    let current = entry.metadata.clone();
    let (state, action) = link_step(&komga, &entry, state, LinkEvent::Current(Ok(current)));
    assert_eq!(state, LinkState::Writing);
    assert_eq!(
        action,
        LinkAction::WriteLinks {
            url: format!("{}/api/v1/series/S1/metadata", BASE),
            links: vec![link("A", "urlA"), bangumi()],
        }
    );

    let (state, action) = link_step(&komga, &entry, state, LinkEvent::Sent(Ok(())));
    assert_eq!(state, LinkState::Done);
    assert_eq!(action, LinkAction::Finish(Ok(())));
}

#[test]
fn link_unit_skips_a_series_outside_the_phase() {
    let komga = komga();
    for entry in [series(&["已挂削"], vec![]), series(&[], vec![bangumi()])] {
        let (state, action) = link_step(&komga, &entry, LinkState::Fresh, LinkEvent::Begin);
        assert_eq!(state, LinkState::Done);
        assert_eq!(action, LinkAction::Finish(Ok(())));
    }
}

#[test]
fn link_unit_ends_where_nothing_is_found() {
    let komga = komga();
    let entry = series(&[], vec![]);
    let events = vec![
        LinkEvent::Candidates(Ok(vec![])),
        LinkEvent::Candidates(Err(Fault::Transport)),
        LinkEvent::Candidates(Err(Fault::Decode)),
    ];
    for event in events {
        let (state, action) = link_step(&komga, &entry, LinkState::Searching, event);
        assert_eq!(state, LinkState::Done);
        assert_eq!(action, LinkAction::Finish(Err(SyncError::NotFound)));
    }
}

#[test]
fn link_unit_loses_the_race_to_another_writer() {
    let komga = komga();
    let entry = series(&[], vec![]);
    let mut current = Metadata::new();
    current.links = vec![link("Bangumi", "https://bgm.tv/subject/9")];
    let state = LinkState::Checking { bgmid: "42".to_string() };
    let (state, action) = link_step(&komga, &entry, state, LinkEvent::Current(Ok(current)));
    assert_eq!(state, LinkState::Done);
    assert_eq!(action, LinkAction::Finish(Err(SyncError::RaceLost)));
}

#[test]
fn link_unit_ends_on_each_failure() {
    let komga = komga();
    let entry = series(&[], vec![]);
    let checking = LinkState::Checking { bgmid: "42".to_string() };
    let (state, action) =
        link_step(&komga, &entry, checking, LinkEvent::Current(Err(Fault::Decode)));
    assert_eq!(state, LinkState::Done);
    assert_eq!(action, LinkAction::Finish(Err(SyncError::Decode)));

    let (state, action) =
        link_step(&komga, &entry, LinkState::Writing, LinkEvent::Sent(Err(Fault::Transport)));
    assert_eq!(state, LinkState::Done);
    assert_eq!(action, LinkAction::Finish(Err(SyncError::Transport)));
}

#[test]
fn link_unit_refuses_what_it_does_not_wait_for() {
    let komga = komga();
    let entry = series(&[], vec![]);
    let (state, action) = link_step(&komga, &entry, LinkState::Fresh, LinkEvent::Sent(Ok(())));
    assert_eq!(state, LinkState::Done);
    assert_eq!(action, LinkAction::Finish(Err(SyncError::Decode)));
    let (state, action) = link_step(&komga, &entry, LinkState::Done, LinkEvent::Begin);
    assert_eq!(state, LinkState::Done);
    assert_eq!(action, LinkAction::Finish(Err(SyncError::Decode)));
    let (state, _) = link_step(&komga, &entry, LinkState::Writing, LinkEvent::Begin);
    assert_eq!(state, LinkState::Done);
}

#[test]
fn enrich_unit_writes_metadata_then_replaces_the_covers() {
    let komga = komga();
    let entry = series(&[], vec![link("A", "urlA"), bangumi()]);

    let (state, action) = enrich_step(&komga, &entry, EnrichState::Fresh, EnrichEvent::Begin);
    assert_eq!(state, EnrichState::Reading);
    assert_eq!(
        action,
        EnrichAction::ReadDetail { url: "https://api.bgm.tv/v0/subjects/42".to_string() }
    );

    let (state, action) = enrich_step(&komga, &entry, state, EnrichEvent::Detail(Ok(record())));
    assert_eq!(
        state,
        EnrichState::Writing { cover: "https://lain.bgm.tv/pic/cover/l/42.jpg".to_string() }
    );
    match action {
        EnrichAction::WriteMetadata { url, metadata } => {
            assert_eq!(url, format!("{}/api/v1/series/S1/metadata", BASE));
            assert_eq!(metadata.status, "ONGOING");
            assert_eq!(metadata.summary, "s");
            assert_eq!(metadata.publisher, "Pub");
            assert_eq!(metadata.tags, vec!["t".to_string(), "已挂削".to_string()]);
            assert_eq!(metadata.links, vec![link("A", "urlA"), bangumi()]);
        }
        other => panic!("unexpected action {:?}", other),
    }

    let (state, action) = enrich_step(&komga, &entry, state, EnrichEvent::Sent(Ok(())));
    assert_eq!(
        state,
        EnrichState::Listing { cover: "https://lain.bgm.tv/pic/cover/l/42.jpg".to_string() }
    );
    assert_eq!(
        action,
        EnrichAction::ListCovers { url: format!("{}/api/v1/series/S1/thumbnails", BASE) }
    );

    let covers = vec!["c1".to_string(), "c2".to_string()];
    let (state, action) = enrich_step(&komga, &entry, state, EnrichEvent::Covers(Ok(covers)));
    assert_eq!(state, EnrichState::Fetching { covers: vec!["c1".to_string(), "c2".to_string()] });
    assert_eq!(
        action,
        EnrichAction::Download { url: "https://lain.bgm.tv/pic/cover/l/42.jpg".to_string() }
    );

    let (state, action) = enrich_step(&komga, &entry, state, EnrichEvent::Image(Ok(vec![7, 8])));
    assert_eq!(
        action,
        EnrichAction::DeleteCover { url: format!("{}/api/v1/series/S1/thumbnails/c1", BASE) }
    );
    let (state, action) = enrich_step(&komga, &entry, state, EnrichEvent::Sent(Ok(())));
    assert_eq!(
        action,
        EnrichAction::DeleteCover { url: format!("{}/api/v1/series/S1/thumbnails/c2", BASE) }
    );
    let (state, action) = enrich_step(&komga, &entry, state, EnrichEvent::Sent(Ok(())));
    assert_eq!(state, EnrichState::Uploading);
    match action {
        EnrichAction::UploadCover(upload) => {
            assert_eq!(upload.url, format!("{}/api/v1/series/S1/thumbnails", BASE));
            assert_eq!(upload.image, vec![7, 8]);
            assert_eq!(upload.file_name, "cover.jpg");
            assert_eq!(upload.mime, "image/jpeg");
            assert!(upload.selected);
        }
        other => panic!("unexpected action {:?}", other),
    }
    let (state, action) = enrich_step(&komga, &entry, state, EnrichEvent::Sent(Ok(())));
    assert_eq!(state, EnrichState::Done);
    assert_eq!(action, EnrichAction::Finish(Ok(())));
}

#[test]
fn enrich_unit_skips_a_series_outside_the_phase() {
    let komga = komga();
    for entry in [series(&["已挂削"], vec![bangumi()]), series(&[], vec![link("A", "urlA")])] {
        let (state, action) = enrich_step(&komga, &entry, EnrichState::Fresh, EnrichEvent::Begin);
        assert_eq!(state, EnrichState::Done);
        assert_eq!(action, EnrichAction::Finish(Ok(())));
    }
}

#[test]
fn enrich_unit_keeps_the_covers_where_the_image_is_missing() {
    let komga = komga();
    let entry = series(&[], vec![bangumi()]);
    let state = EnrichState::Fetching { covers: vec!["c1".to_string()] };
    let (state, action) =
        enrich_step(&komga, &entry, state, EnrichEvent::Image(Err(Fault::Transport)));
    assert_eq!(state, EnrichState::Done);
    assert_eq!(action, EnrichAction::Finish(Err(SyncError::Transport)));
}

#[test]
fn enrich_unit_uploads_without_deleting_where_the_listing_failed() {
    let komga = komga();
    let entry = series(&[], vec![bangumi()]);
    let state = EnrichState::Listing { cover: "https://img/1.jpg".to_string() };
    let (state, action) =
        enrich_step(&komga, &entry, state, EnrichEvent::Covers(Err(Fault::Decode)));
    assert_eq!(state, EnrichState::Fetching { covers: vec![] });
    assert_eq!(action, EnrichAction::Download { url: "https://img/1.jpg".to_string() });
    let (state, action) = enrich_step(&komga, &entry, state, EnrichEvent::Image(Ok(vec![1])));
    assert_eq!(state, EnrichState::Uploading);
    assert!(matches!(action, EnrichAction::UploadCover(_)));
}

#[test]
fn enrich_unit_writes_nothing_after_a_failure() {
    let komga = komga();
    let entry = series(&[], vec![bangumi()]);

    let (state, action) =
        enrich_step(&komga, &entry, EnrichState::Reading, EnrichEvent::Detail(Err(Fault::Decode)));
    assert_eq!(state, EnrichState::Done);
    assert_eq!(action, EnrichAction::Finish(Err(SyncError::Decode)));

    let writing = EnrichState::Writing { cover: "https://img/1.jpg".to_string() };
    let (state, action) =
        enrich_step(&komga, &entry, writing, EnrichEvent::Sent(Err(Fault::Transport)));
    assert_eq!(state, EnrichState::Done);
    assert_eq!(action, EnrichAction::Finish(Err(SyncError::Transport)));

    let (removals, upload) = komga.update_cover("S1", Ok(vec!["c1".to_string()]), Ok(vec![1]));
    let removing = EnrichState::Removing { removals, at: 0, upload: upload.unwrap() };
    let (state, action) =
        enrich_step(&komga, &entry, removing, EnrichEvent::Sent(Err(Fault::Transport)));
    assert_eq!(state, EnrichState::Done);
    assert_eq!(action, EnrichAction::Finish(Err(SyncError::Transport)));

    let (state, action) =
        enrich_step(&komga, &entry, EnrichState::Uploading, EnrichEvent::Sent(Err(Fault::Transport)));
    assert_eq!(state, EnrichState::Done);
    assert_eq!(action, EnrichAction::Finish(Err(SyncError::Transport)));

    let (state, action) = enrich_step(&komga, &entry, state, EnrichEvent::Sent(Ok(())));
    assert_eq!(state, EnrichState::Done);
    assert_eq!(action, EnrichAction::Finish(Err(SyncError::Decode)));
}

#[test]
fn enrich_unit_refuses_what_it_does_not_wait_for() {
    let komga = komga();
    let entry = series(&[], vec![bangumi()]);
    let (state, action) =
        enrich_step(&komga, &entry, EnrichState::Fresh, EnrichEvent::Image(Ok(vec![1])));
    assert_eq!(state, EnrichState::Done);
    assert_eq!(action, EnrichAction::Finish(Err(SyncError::Decode)));
    let (state, action) =
        enrich_step(&komga, &entry, EnrichState::Reading, EnrichEvent::Sent(Ok(())));
    assert_eq!(state, EnrichState::Done);
    assert_eq!(action, EnrichAction::Finish(Err(SyncError::Decode)));
}
