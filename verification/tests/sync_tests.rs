use rkomga::bgm::{Bgm, Candidate, Images, Infobox, Subject, Tag, ValueUnion};
use rkomga::config::Config;
use rkomga::fault::Fault;
use rkomga::komga::{Komga, Libraries, Link, Metadata, Series};
use rkomga::sync::{
    enrich, holds_link, link_request, merge_links, push_missing, selected_libraries,
    series_listings, subject_id, Phase, ENRICH_LIMIT, LINK_LIMIT,
};

fn link(label: &str, url: &str) -> Link {
    Link { label: label.to_string(), url: url.to_string() }
}

fn series(name: &str, tags: &[&str], links: Vec<Link>) -> Series {
    let mut metadata = Metadata::new();
    metadata.tags = tags.iter().map(|t| t.to_string()).collect();
    metadata.links = links;
    Series {
        id: format!("id-{}", name),
        name: name.to_string(),
        library_id: "L1".to_string(),
        metadata,
    }
}

fn config(libraries: &[&str]) -> Config {
    Config {
        komga_url: "http://localhost:25600".to_string(),
        komga_username: "user".to_string(),
        komga_password: "pass".to_string(),
        libraries: libraries.iter().map(|l| l.to_string()).collect(),
        bgm_key: "abc".to_string(),
    }
}

fn libraries() -> Vec<Libraries> {
    vec![
        Libraries { id: "L1".to_string(), name: "Manga".to_string() },
        Libraries { id: "L2".to_string(), name: "Novels".to_string() },
        Libraries { id: "L3".to_string(), name: "Comics".to_string() },
    ]
}

fn record() -> Subject {
    Subject {
        images: Images { large: "https://lain.bgm.tv/pic/cover/l/42.jpg".to_string() },
        summary: "s".to_string(),
        tags: vec![Tag { name: "t".to_string() }],
        infobox: vec![Infobox {
            key: "出版社".to_string(),
            value: ValueUnion::String("Pub".to_string()),
        }],
    }
}

#[test]
fn linking_comes_first_and_enriching_last() {
    assert_eq!(Phase::first(), Phase::Link);
    assert_eq!(Phase::Link.following(), Some(Phase::Enrich));
    assert_eq!(Phase::Enrich.following(), None);
}

#[test]
fn phase_limits() {
    assert_eq!(LINK_LIMIT, 2);
    assert_eq!(ENRICH_LIMIT, 3);
    assert_eq!(Phase::Link.limit(), 2);
    assert_eq!(Phase::Enrich.limit(), 3);
}

#[test]
fn named_libraries_are_selected_in_catalog_order() {
    let ids = selected_libraries(&config(&["Comics", "Manga"]), &libraries());
    assert_eq!(ids, vec!["L1".to_string(), "L3".to_string()]);
}

#[test]
fn unknown_library_names_select_nothing() {
    assert!(selected_libraries(&config(&["Films"]), &libraries()).is_empty());
}

#[test]
fn whole_catalog_is_listed_where_no_library_is_named() {
    let komga = Komga::new(&config(&[]));
    let urls = series_listings(&komga, &config(&[]), &libraries());
    assert_eq!(urls, vec!["http://localhost:25600/api/v1/series?size=100000".to_string()]);
}

#[test]
fn named_libraries_are_listed_one_by_one() {
    let settings = config(&["Novels", "Manga"]);
    let komga = Komga::new(&settings);
    let urls = series_listings(&komga, &settings, &libraries());
    assert_eq!(
        urls,
        vec![
            "http://localhost:25600/api/v1/series?library_id=L1&size=100000".to_string(),
            "http://localhost:25600/api/v1/series?library_id=L2&size=100000".to_string(),
        ]
    );
}

#[test]
fn unknown_library_names_list_nothing() {
    let settings = config(&["Films"]);
    let komga = Komga::new(&settings);
    assert!(series_listings(&komga, &settings, &libraries()).is_empty());
}

#[test]
fn unlinked_series_is_linked_not_enriched() {
    let fresh = series("Foo", &[], vec![]);
    assert!(Phase::Link.is_eligible(&fresh));
    assert!(!Phase::Enrich.is_eligible(&fresh));
}

#[test]
fn linked_series_is_enriched_not_linked() {
    let linked = series("Foo", &["x"], vec![link("Bangumi", "https://bgm.tv/subject/42")]);
    assert!(!Phase::Link.is_eligible(&linked));
    assert!(Phase::Enrich.is_eligible(&linked));
}

#[test]
fn processed_series_is_skipped_whatever_its_links() {
    let unlinked = series("Foo", &["已挂削"], vec![]);
    let linked = series("Bar", &["a", "已挂削"], vec![link("Bangumi", "https://bgm.tv/subject/1")]);
    let other = series("Baz", &["已挂削", "b"], vec![link("A", "urlA")]);
    for entry in [unlinked, linked, other] {
        assert!(!Phase::Link.is_eligible(&entry));
        assert!(!Phase::Enrich.is_eligible(&entry));
        assert_eq!(link_request(&entry), None);
        assert_eq!(subject_id(&entry), None);
    }
}

#[test]
fn queue_holds_the_eligible_positions_in_order() {
    let catalog = vec![
        series("a", &[], vec![]),
        series("b", &[], vec![link("Bangumi", "https://bgm.tv/subject/1")]),
        series("c", &["已挂削"], vec![]),
        series("d", &[], vec![link("A", "urlA")]),
        series("e", &["已挂削"], vec![link("Bangumi", "https://bgm.tv/subject/2")]),
        series("f", &[], vec![link("Bangumi", "https://bgm.tv/subject/3")]),
    ];
    assert_eq!(Phase::Link.queue(&catalog), vec![0, 3]);
    assert_eq!(Phase::Enrich.queue(&catalog), vec![1, 5]);
}

#[test]
fn queue_of_an_empty_catalog_is_empty() {
    assert!(Phase::Link.queue(&vec![]).is_empty());
    assert!(Phase::Enrich.queue(&vec![]).is_empty());
}

#[test]
fn link_request_searches_for_the_name() {
    let fresh = series("Foo", &[], vec![]);
    assert_eq!(
        link_request(&fresh),
        Some("https://api.bgm.tv/search/subject/\"Foo\"?type=1".to_string())
    );
    let linked = series("Foo", &[], vec![link("Bangumi", "https://bgm.tv/subject/42")]);
    assert_eq!(link_request(&linked), None);
}

#[test]
fn subject_id_is_the_end_of_the_first_bangumi_link() {
    let linked = series(
        "Foo",
        &[],
        vec![
            link("A", "https://example.org/9"),
            link("Bangumi", "https://bgm.tv/subject/42"),
            link("Bangumi", "https://bgm.tv/subject/43"),
        ],
    );
    assert_eq!(subject_id(&linked), Some("42".to_string()));
    assert_eq!(subject_id(&series("Foo", &[], vec![link("A", "urlA")])), None);
}

#[test]
fn subject_id_of_an_address_without_separator_is_the_address() {
    let linked = series("Foo", &[], vec![link("Bangumi", "42")]);
    assert_eq!(subject_id(&linked), Some("42".to_string()));
}

#[test]
fn holds_link_compares_label_and_address() {
    let links = vec![link("A", "urlA"), link("B", "urlB")];
    assert!(holds_link(&links, &link("A", "urlA")));
    assert!(!holds_link(&links, &link("A", "urlB")));
    assert!(!holds_link(&links, &link("C", "urlA")));
}

#[test]
fn push_missing_adds_each_new_link_once() {
    let mut links = vec![link("A", "urlA")];
    push_missing(&mut links, &vec![link("B", "urlB"), link("A", "urlA"), link("B", "urlB")]);
    assert_eq!(links, vec![link("A", "urlA"), link("B", "urlB")]);
}

#[test]
fn merged_links_keep_existing_links_without_duplicates() {
    let kept = vec![link("A", "urlA"), link("Bangumi", "https://bgm.tv/subject/42")];
    let merged = merge_links(&vec![], &kept);
    assert_eq!(merged, kept);
}

#[test]
fn merged_links_put_new_links_first_and_drop_repeats() {
    let fresh = vec![link("Bangumi", "https://bgm.tv/subject/42"), link("N", "urlN")];
    let kept = vec![
        link("A", "urlA"),
        link("Bangumi", "https://bgm.tv/subject/42"),
        link("A", "urlA"),
    ];
    let merged = merge_links(&fresh, &kept);
    assert_eq!(
        merged,
        vec![link("Bangumi", "https://bgm.tv/subject/42"), link("N", "urlN"), link("A", "urlA")]
    );
}

#[test]
fn enrichment_keeps_the_links_of_the_series() {
    let existing = series(
        "Foo",
        &[],
        vec![link("A", "urlA"), link("Bangumi", "https://bgm.tv/subject/42")],
    );
    let (metadata, cover) = enrich(&existing.metadata, Ok(record())).unwrap();
    assert_eq!(
        metadata.links,
        vec![link("A", "urlA"), link("Bangumi", "https://bgm.tv/subject/42")]
    );
    assert_eq!(cover, "https://lain.bgm.tv/pic/cover/l/42.jpg");
}

#[test]
fn failed_enrichment_writes_nothing() {
    let existing = series("Foo", &[], vec![link("Bangumi", "https://bgm.tv/subject/42")]);
    assert!(enrich(&existing.metadata, Err(Fault::Transport)).is_err());
    assert!(enrich(&existing.metadata, Err(Fault::Decode)).is_err());
}

#[test]
fn series_is_linked_then_enriched() {
    let mut entry = series("Foo", &[], vec![]);

    assert!(link_request(&entry).is_some());
    let found = vec![Candidate { id: 42, name: "Foo".to_string(), name_cn: "".to_string() }];
    let id = Bgm::search_subject(Ok(found)).unwrap();
    assert_eq!(id, "42");
    let written = Komga::insert_bgmurl(Ok(entry.metadata.clone()), &id).unwrap();
    entry.metadata.links = written;
    assert_eq!(entry.metadata.links, vec![link("Bangumi", "https://bgm.tv/subject/42")]);

    assert_eq!(subject_id(&entry), Some("42".to_string()));
    let (metadata, _) = enrich(&entry.metadata, Ok(record())).unwrap();
    assert_eq!(metadata.status, "ONGOING");
    assert_eq!(metadata.summary, "s");
    assert_eq!(metadata.publisher, "Pub");
    assert_eq!(metadata.tags, vec!["t".to_string(), "已挂削".to_string()]);
    assert_eq!(metadata.links, vec![link("Bangumi", "https://bgm.tv/subject/42")]);
}

#[test]
fn series_with_another_link_keeps_it_through_both_phases() {
    let mut entry = series("Foo", &[], vec![link("A", "urlA")]);

    assert!(Phase::Link.is_eligible(&entry));
    let found = vec![Candidate { id: 42, name: "Foo".to_string(), name_cn: "".to_string() }];
    let id = Bgm::search_subject(Ok(found)).unwrap();
    let written = Komga::insert_bgmurl(Ok(entry.metadata.clone()), &id).unwrap();
    assert_eq!(
        written,
        vec![link("A", "urlA"), link("Bangumi", "https://bgm.tv/subject/42")]
    );
    entry.metadata.links = written;

    assert_eq!(subject_id(&entry), Some("42".to_string()));
    let (metadata, _) = enrich(&entry.metadata, Ok(record())).unwrap();
    assert_eq!(
        metadata.links,
        vec![link("A", "urlA"), link("Bangumi", "https://bgm.tv/subject/42")]
    );
    assert!(metadata.tags.contains(&"已挂削".to_string()));
}

#[test]
fn second_run_finds_nothing_to_do() {
    let mut entry = series("Foo", &[], vec![link("Bangumi", "https://bgm.tv/subject/42")]);
    let (metadata, _) = enrich(&entry.metadata, Ok(record())).unwrap();
    entry.metadata = metadata;
    let catalog = vec![entry];
    assert!(Phase::Link.queue(&catalog).is_empty());
    assert!(Phase::Enrich.queue(&catalog).is_empty());
}

#[test]
fn unresolved_series_stays_eligible() {
    let entry = series("Foo", &[], vec![]);
    assert!(Bgm::search_subject(Ok(vec![])).is_err());
    assert!(Phase::Link.is_eligible(&entry));
    assert!(!Phase::Enrich.is_eligible(&entry));
}
