//! The two phases of a run: which series each works on, what a unit of work
//! does with what its requests came back with, and how many units may be in
//! flight at once.

use vstd::prelude::*;
use vstd::string::*;

use crate::bgm::{Bgm, Subject, SubjectView};
use crate::config::Config;
use crate::fault::Fault;
use crate::komga::{
    first_with_label, lemma_first_with_label, link_views, subject_link, Komga, Libraries, Link,
    LinkView, Metadata, MetadataView, Series, SeriesView, BANGUMI_LABEL,
};
use crate::text::{contains_text, last_segment, texts, trailing_segment};

verus! {

/// How many units of the linking phase may be in flight at once.
pub const LINK_LIMIT: usize = 2;

/// How many units of the enriching phase may be in flight at once.
pub const ENRICH_LIMIT: usize = 3;

/// The identifiers of those of `libraries` whose name is one of `names`, in
/// the order of `libraries`.
pub open spec fn selected_ids(libraries: Seq<Libraries>, names: Seq<Seq<char>>) -> Seq<Seq<char>>
    decreases libraries.len(),
{
    if libraries.len() == 0 {
        Seq::empty()
    } else {
        let front = selected_ids(libraries.drop_last(), names);
        if names.contains(libraries.last().name@) {
            front.push(libraries.last().id@)
        } else {
            front
        }
    }
}

/// The addresses from which a phase reads its series: that of the whole
/// catalog where no library is named, else that of each named library.
pub open spec fn listing_addresses(
    base: Seq<char>,
    libraries: Seq<Libraries>,
    names: Seq<Seq<char>>,
) -> Seq<Seq<char>> {
    if names.len() == 0 {
        seq![base + crate::komga::ALL_SERIES_PATH@]
    } else {
        selected_ids(libraries, names).map_values(
            |id: Seq<char>|
                base + crate::komga::LIBRARY_SERIES_PATH@ + id + crate::komga::PAGE_SIZE_SUFFIX@,
        )
    }
}

/// The identifiers of the libraries that `config` names, in the catalog's order.
pub fn selected_libraries(config: &Config, libraries: &Vec<Libraries>) -> (ids: Vec<String>)
    ensures
        texts(ids@) == selected_ids(libraries@, texts(config.libraries@)),
{
    let mut ids: Vec<String> = Vec::new();
    let mut i: usize = 0;
    while i < libraries.len()
        invariant
            i <= libraries.len(),
            texts(ids@) == selected_ids(libraries@.take(i as int), texts(config.libraries@)),
        decreases libraries.len() - i,
    {
        proof {
            assert(libraries@.take(i + 1).drop_last() =~= libraries@.take(i as int));
        }
        let ghost before = texts(ids@);
        if contains_text(&config.libraries, libraries[i].name.as_str()) {
            ids.push(libraries[i].id.clone());
            assert(texts(ids@) =~= before.push(libraries@[i as int].id@));
        }
        i = i + 1;
    }
    proof {
        assert(libraries@.take(libraries.len() as int) =~= libraries@);
    }
    ids
}

/// The addresses from which a phase reads its series. Both phases read from
/// the same ones, each for itself.
pub fn series_listings(komga: &Komga, config: &Config, libraries: &Vec<Libraries>) -> (urls: Vec<
    String,
>)
    ensures
        texts(urls@) == listing_addresses(komga.url@, libraries@, texts(config.libraries@)),
{
    let mut urls: Vec<String> = Vec::new();
    if config.libraries.len() == 0 {
        urls.push(komga.all_series_url());
        assert(texts(urls@) =~= listing_addresses(
            komga.url@,
            libraries@,
            texts(config.libraries@),
        ));
    } else {
        let ids = selected_libraries(config, libraries);
        let mut i: usize = 0;
        while i < ids.len()
            invariant
                i <= ids.len(),
                urls@.len() == i,
                forall|k: int|
                    0 <= k < i ==> urls@[k]@ == komga.url@ + crate::komga::LIBRARY_SERIES_PATH@
                        + ids@[k]@ + crate::komga::PAGE_SIZE_SUFFIX@,
            decreases ids.len() - i,
        {
            urls.push(komga.library_series_url(ids[i].as_str()));
            i = i + 1;
        }
        assert(texts(urls@) =~= listing_addresses(
            komga.url@,
            libraries@,
            texts(config.libraries@),
        ));
    }
    urls
}

/// One of the two phases of a run.
#[derive(Debug, Clone, Copy, PartialEq, Eq, Structural)]
pub enum Phase {
    /// Resolves each unlinked series to a provider record and links it.
    Link,
    /// Reads each linked series' record and writes its metadata and cover.
    Enrich,
}

impl Phase {
    /// How many units of the phase may be in flight at once.
    pub open spec fn spec_limit(self) -> nat {
        match self {
            Phase::Link => LINK_LIMIT as nat,
            Phase::Enrich => ENRICH_LIMIT as nat,
        }
    }

    /// Whether the phase works on a series with this metadata. A series that
    /// is marked as enriched is in neither phase; of the others, the linking
    /// phase takes those without a link to the provider, the enriching phase
    /// those with one.
    pub open spec fn admits(self, metadata: MetadataView) -> bool {
        match self {
            Phase::Link => !metadata.has_bangumi_link() && !metadata.is_processed(),
            Phase::Enrich => !metadata.is_processed() && metadata.has_bangumi_link(),
        }
    }

    /// The phase that a run begins with.
    pub fn first() -> (phase: Phase)
        ensures
            phase == Phase::Link,
    {
        Phase::Link
    }

    /// The phase that follows this one, once every unit of this one has
    /// completed: enriching follows linking, since it works on the links that
    /// linking writes, and nothing follows enriching.
    pub fn following(self) -> (next: Option<Phase>)
        ensures
            next == match self {
                Phase::Link => Some(Phase::Enrich),
                Phase::Enrich => None::<Phase>,
            },
    {
        match self {
            Phase::Link => Some(Phase::Enrich),
            Phase::Enrich => None,
        }
    }

    /// How many units of the phase may be in flight at once.
    pub fn limit(self) -> (limit: usize)
        ensures
            limit == self.spec_limit(),
    {
        match self {
            Phase::Link => LINK_LIMIT,
            Phase::Enrich => ENRICH_LIMIT,
        }
    }

    /// Whether the phase works on `series`.
    pub fn is_eligible(self, series: &Series) -> (eligible: bool)
        ensures
            eligible == self.admits(series@.metadata),
    {
        match self {
            Phase::Link => !series.metadata.has_bangumi_link() && !series.metadata.is_processed(),
            Phase::Enrich => !series.metadata.is_processed() && series.metadata.has_bangumi_link(),
        }
    }

    /// The positions in `series` of those that the phase works on, in rising
    /// order.
    pub fn queue(self, series: &Vec<Series>) -> (queue: Vec<usize>)
        ensures
            is_queue_of(queue@, self, series@),
    {
        let mut queue: Vec<usize> = Vec::new();
        let mut i: usize = 0;
        while i < series.len()
            invariant
                i <= series.len(),
                is_queue_of(queue@, self, series@.take(i as int)),
            decreases series.len() - i,
        {
            let ghost before = queue@;
            let ghost seen = series@.take(i as int);
            let ghost next = series@.take(i + 1);
            if self.is_eligible(&series[i]) {
                queue.push(i);
            }
            proof {
                assert forall|k: int| 0 <= k < queue@.len() implies 0 <= #[trigger] queue@[k]
                    < next.len() && self.admits(next[queue@[k] as int]@.metadata) by {
                    if k < before.len() {
                        assert(queue@[k] == before[k]);
                        assert(next[before[k] as int] == seen[before[k] as int]);
                    }
                }
                assert forall|a: int, b: int| 0 <= a < b < queue@.len() implies queue@[a]
                    < queue@[b] by {
                    assert(queue@[a] == before[a]);
                }
                assert forall|p: int| 0 <= p < next.len() && self.admits(
                    (#[trigger] next[p])@.metadata,
                ) implies queue@.contains(p as usize) by {
                    if p < i {
                        assert(seen[p] == next[p]);
                        assert(before.contains(p as usize));
                        let k = choose|k: int| 0 <= k < before.len() && before[k] == p as usize;
                        assert(queue@[k] == p as usize);
                    } else {
                        assert(queue@[queue@.len() - 1] == i);
                    }
                }
            }
            i = i + 1;
        }
        proof {
            assert(series@.take(series.len() as int) =~= series@);
        }
        queue
    }
}

/// Whether `queue` holds the positions of exactly those of `series` that
/// `phase` works on, each once, in rising order.
pub open spec fn is_queue_of(queue: Seq<usize>, phase: Phase, series: Seq<Series>) -> bool {
    &&& forall|k: int|
        0 <= k < queue.len() ==> 0 <= #[trigger] queue[k] < series.len() && phase.admits(
            series[queue[k] as int]@.metadata,
        )
    &&& forall|a: int, b: int| 0 <= a < b < queue.len() ==> queue[a] < queue[b]
    &&& forall|p: int|
        0 <= p < series.len() && phase.admits((#[trigger] series[p])@.metadata)
            ==> queue.contains(p as usize)
}

/// `base`, followed by those of `extra` that are not there yet, each once and
/// in the order in which they first occur.
pub open spec fn add_missing(base: Seq<LinkView>, extra: Seq<LinkView>) -> Seq<LinkView>
    decreases extra.len(),
{
    if extra.len() == 0 {
        base
    } else {
        let front = add_missing(base, extra.drop_last());
        if front.contains(extra.last()) {
            front
        } else {
            front.push(extra.last())
        }
    }
}

/// The union of the links that a record gives with those that the series
/// already had: every link of either, none twice, the record's first.
pub open spec fn merged_links(fresh: Seq<LinkView>, kept: Seq<LinkView>) -> Seq<LinkView> {
    add_missing(add_missing(Seq::empty(), fresh), kept)
}

/// The metadata that is written for a series with metadata `existing` whose
/// record is `subject`: what the record gives, with the links merged.
pub open spec fn enriched(existing: MetadataView, subject: SubjectView) -> MetadataView {
    MetadataView {
        links: merged_links(subject.metadata().links, existing.links),
        ..subject.metadata()
    }
}

/// The identifier of the record that a series with this metadata is linked
/// to: what follows the last `/` in the address of its first link to the
/// provider.
pub open spec fn linked_id(metadata: MetadataView) -> Option<Seq<char>> {
    match first_with_label(metadata.links, BANGUMI_LABEL@) {
        Some(link) => Some(trailing_segment(link.url)),
        None => None,
    }
}

/// Adding links keeps what was there in front, adds nothing but the new links,
/// leaves none of them out, and brings in no duplicate.
pub proof fn lemma_add_missing(base: Seq<LinkView>, extra: Seq<LinkView>)
    ensures
        base.is_prefix_of(add_missing(base, extra)),
        forall|link: LinkView| #[trigger]
            add_missing(base, extra).contains(link) <==> base.contains(link) || extra.contains(
                link,
            ),
        base.no_duplicates() ==> add_missing(base, extra).no_duplicates(),
    decreases extra.len(),
{
    if extra.len() != 0 {
        let shorter = extra.drop_last();
        let front = add_missing(base, shorter);
        let all = add_missing(base, extra);
        lemma_add_missing(base, shorter);
        assert forall|link: LinkView| #[trigger]
            all.contains(link) <==> base.contains(link) || extra.contains(link) by {
            if extra.contains(link) {
                let i = choose|i: int| 0 <= i < extra.len() && extra[i] == link;
                if i < shorter.len() {
                    assert(shorter[i] == link);
                    assert(front.contains(link));
                }
            }
            if shorter.contains(link) {
                let i = choose|i: int| 0 <= i < shorter.len() && shorter[i] == link;
                assert(extra[i] == link);
            }
            if front.contains(link) {
                let i = choose|i: int| 0 <= i < front.len() && front[i] == link;
                assert(all[i] == link);
            }
            if all.contains(link) && !front.contains(link) {
                let i = choose|i: int| 0 <= i < all.len() && all[i] == link;
                assert(i == front.len());
                assert(extra[extra.len() - 1] == link);
            }
            if link == extra.last() {
                assert(extra[extra.len() - 1] == link);
                if !front.contains(link) {
                    assert(all[all.len() - 1] == link);
                }
            }
        }
    }
}

/// Whether `link` is one of `links`.
pub fn holds_link(links: &Vec<Link>, link: &Link) -> (found: bool)
    ensures
        found == link_views(links@).contains(link@),
{
    let mut i: usize = 0;
    while i < links.len()
        invariant
            i <= links.len(),
            forall|k: int| 0 <= k < i ==> link_views(links@)[k] != link@,
        decreases links.len() - i,
    {
        if links[i] == *link {
            assert(link_views(links@)[i as int] == link@);
            return true;
        }
        i = i + 1;
    }
    false
}

/// Appends to `into` those of `extra` that it does not hold yet.
pub fn push_missing(into: &mut Vec<Link>, extra: &Vec<Link>)
    ensures
        link_views(final(into)@) == add_missing(link_views(old(into)@), link_views(extra@)),
{
    let ghost base = link_views(into@);
    let ghost added = link_views(extra@);
    let mut i: usize = 0;
    while i < extra.len()
        invariant
            i <= extra.len(),
            added == link_views(extra@),
            link_views(into@) == add_missing(base, added.take(i as int)),
        decreases extra.len() - i,
    {
        proof {
            assert(added.take(i + 1).drop_last() =~= added.take(i as int));
            assert(added.take(i + 1).last() == extra@[i as int]@);
        }
        let ghost before = link_views(into@);
        if !holds_link(into, &extra[i]) {
            into.push(extra[i].clone());
            assert(link_views(into@) =~= before.push(extra@[i as int]@));
        }
        i = i + 1;
    }
    proof {
        assert(added.take(extra.len() as int) =~= added);
    }
}

/// The union of the links that a record gives with those that the series
/// already had.
pub fn merge_links(fresh: &Vec<Link>, kept: &Vec<Link>) -> (merged: Vec<Link>)
    ensures
        link_views(merged@) == merged_links(link_views(fresh@), link_views(kept@)),
{
    let mut merged: Vec<Link> = Vec::new();
    assert(link_views(merged@) =~= Seq::empty());
    push_missing(&mut merged, fresh);
    push_missing(&mut merged, kept);
    merged
}

/// The address of the search that resolves `series`, where the linking phase
/// works on it.
pub fn link_request(series: &Series) -> (url: Option<String>)
    ensures
        url is Some == Phase::Link.admits(series@.metadata),
        url matches Some(url) ==> url@ == crate::bgm::SEARCH_URL_PREFIX@ + series.name@
            + crate::bgm::SEARCH_URL_SUFFIX@,
{
    if Phase::Link.is_eligible(series) {
        Some(Bgm::search_url(series.name.as_str()))
    } else {
        None
    }
}

/// The identifier of the record that `series` is linked to, where the
/// enriching phase works on it.
pub fn subject_id(series: &Series) -> (id: Option<String>)
    ensures
        id is Some == Phase::Enrich.admits(series@.metadata),
        id matches Some(id) ==> linked_id(series@.metadata) == Some(id@),
{
    if series.metadata.is_processed() {
        return None;
    }
    match series.metadata.bangumi_link() {
        Some(link) => Some(last_segment(link.url.as_str())),
        None => None,
    }
}

/// What is written for a series with metadata `existing`, given what the
/// request for its record came back with: the metadata, and the address of the
/// cover. Nothing is written where the record could not be had.
pub fn enrich(existing: &Metadata, detail: Result<Subject, Fault>) -> (write: Result<
    (Metadata, String),
    (),
>)
    ensures
        match write {
            Ok(pair) => detail matches Ok(subject) && pair.0@ == enriched(existing@, subject@)
                && pair.1@ == subject@.cover,
            Err(_) => detail is Err,
        },
{
    match Bgm::get_subject(detail) {
        Ok(pair) => {
            let (mut metadata, cover) = pair;
            let links = merge_links(&metadata.links, &existing.links);
            metadata.links = links;
            Ok((metadata, cover))
        },
        Err(_) => Err(()),
    }
}

/// A series that is marked as enriched is in neither phase, whatever links
/// it has.
pub proof fn lemma_processed_is_skipped(phase: Phase, metadata: MetadataView)
    requires
        metadata.is_processed(),
    ensures
        !phase.admits(metadata),
{
}

/// What the first link with `label` is once a link is appended.
proof fn lemma_first_with_label_push(links: Seq<LinkView>, link: LinkView, label: Seq<char>)
    ensures
        first_with_label(links.push(link), label) == if first_with_label(links, label) is Some {
            first_with_label(links, label)
        } else if link.label == label {
            Some(link)
        } else {
            None
        },
    decreases links.len(),
{
    let longer = links.push(link);
    if links.len() == 0 {
        assert(longer.drop_first() =~= Seq::<LinkView>::empty());
    } else {
        assert(longer.drop_first() =~= links.drop_first().push(link));
        assert(longer[0] == links[0]);
        if links[0].label != label {
            lemma_first_with_label_push(links.drop_first(), link, label);
        }
    }
}

/// Links without a duplicate come out of a union with nothing as they are,
/// and with or without duplicates the first link with a given label stays the
/// first with that label.
pub proof fn lemma_add_missing_to_none(links: Seq<LinkView>, label: Seq<char>)
    ensures
        links.no_duplicates() ==> add_missing(Seq::empty(), links) == links,
        first_with_label(add_missing(Seq::empty(), links), label) == first_with_label(
            links,
            label,
        ),
    decreases links.len(),
{
    let none = Seq::<LinkView>::empty();
    if links.len() != 0 {
        let shorter = links.drop_last();
        let front = add_missing(none, shorter);
        lemma_add_missing_to_none(shorter, label);
        lemma_add_missing(none, shorter);
        lemma_first_with_label(shorter, label);
        lemma_first_with_label_push(shorter, links.last(), label);
        lemma_first_with_label_push(front, links.last(), label);
        assert(shorter.push(links.last()) =~= links);
        if front.contains(links.last()) {
            assert(shorter.contains(links.last()));
            let i = choose|i: int| 0 <= i < shorter.len() && shorter[i] == links.last();
            assert(links[i] == links[links.len() - 1]);
            if first_with_label(shorter, label) is None && links.last().label == label {
                assert(shorter[i].label == label);
            }
        }
        if links.no_duplicates() {
            assert forall|i: int, j: int|
                0 <= i < shorter.len() && 0 <= j < shorter.len() && i != j implies shorter[i]
                != shorter[j] by {
                assert(links[i] != links[j]);
            }
        }
    }
}

/// After a series has been enriched, its links are the union of those it had
/// with those of the record: each link that it had is still there, no link is
/// there twice, and none has come from elsewhere. The link to the record is
/// the one it was. Links that held no duplicate are as they were.
pub proof fn lemma_enriched_links(existing: MetadataView, subject: SubjectView)
    ensures
        forall|link: LinkView| #[trigger]
            enriched(existing, subject).links.contains(link) <==> existing.links.contains(link),
        enriched(existing, subject).links.no_duplicates(),
        first_with_label(enriched(existing, subject).links, BANGUMI_LABEL@) == first_with_label(
            existing.links,
            BANGUMI_LABEL@,
        ),
        enriched(existing, subject).has_bangumi_link() == existing.has_bangumi_link(),
        linked_id(enriched(existing, subject)) == linked_id(existing),
        existing.links.no_duplicates() ==> enriched(existing, subject).links == existing.links,
{
    let none = Seq::<LinkView>::empty();
    assert(subject.metadata().links == none);
    assert(add_missing(none, none) == none);
    lemma_add_missing(none, existing.links);
    lemma_add_missing_to_none(existing.links, BANGUMI_LABEL@);
    lemma_first_with_label(existing.links, BANGUMI_LABEL@);
    lemma_first_with_label(enriched(existing, subject).links, BANGUMI_LABEL@);
}

/// After a series has been enriched it is marked as such, and so is in
/// neither phase of any later run.
pub proof fn lemma_enriched_is_terminal(phase: Phase, existing: MetadataView, subject: SubjectView)
    ensures
        enriched(existing, subject).is_processed(),
        !phase.admits(enriched(existing, subject)),
{
    let tags = subject.tags.push(crate::komga::PROCESSED_TAG@);
    assert(tags[tags.len() - 1] == crate::komga::PROCESSED_TAG@);
}

/// A series as the catalog holds it once the linking phase has worked on it,
/// where `resolve` is what a search for a name resolves to and nobody else
/// changes the catalog: a series that the phase works on and that is resolved
/// gets the link to its record behind the links that it has; any other
/// series stays as it is.
pub open spec fn after_link_phase(
    series: SeriesView,
    resolve: spec_fn(Seq<char>) -> Option<Seq<char>>,
) -> SeriesView {
    if Phase::Link.admits(series.metadata) && resolve(series.name) is Some {
        SeriesView {
            metadata: MetadataView {
                links: series.metadata.links.push(subject_link(resolve(series.name)->Some_0)),
                ..series.metadata
            },
            ..series
        }
    } else {
        series
    }
}

/// How many writes the linking phase makes for a series.
pub open spec fn link_writes(
    series: SeriesView,
    resolve: spec_fn(Seq<char>) -> Option<Seq<char>>,
) -> nat {
    if Phase::Link.admits(series.metadata) && resolve(series.name) is Some {
        1
    } else {
        0
    }
}

/// Whether the enriching phase writes for a series, where `detail` is the
/// record that the provider has for an identifier.
pub open spec fn is_enriched_by(
    series: SeriesView,
    detail: spec_fn(Seq<char>) -> Option<SubjectView>,
) -> bool {
    &&& Phase::Enrich.admits(series.metadata)
    &&& linked_id(series.metadata) is Some
    &&& detail(linked_id(series.metadata)->Some_0) is Some
}

/// A series as the catalog holds it once the enriching phase has worked on
/// it: a series that the phase works on and whose record can be had gets the
/// record's metadata with the links merged; any other series stays as it is.
pub open spec fn after_enrich_phase(
    series: SeriesView,
    detail: spec_fn(Seq<char>) -> Option<SubjectView>,
) -> SeriesView {
    if is_enriched_by(series, detail) {
        SeriesView {
            metadata: enriched(
                series.metadata,
                detail(linked_id(series.metadata)->Some_0)->Some_0,
            ),
            ..series
        }
    } else {
        series
    }
}

/// How many writes the enriching phase makes for a series: the metadata and
/// the cover, or none.
pub open spec fn enrich_writes(
    series: SeriesView,
    detail: spec_fn(Seq<char>) -> Option<SubjectView>,
) -> nat {
    if is_enriched_by(series, detail) {
        2
    } else {
        0
    }
}

/// A series after a run: the linking phase, then the enriching phase.
pub open spec fn after_run(
    series: SeriesView,
    resolve: spec_fn(Seq<char>) -> Option<Seq<char>>,
    detail: spec_fn(Seq<char>) -> Option<SubjectView>,
) -> SeriesView {
    after_enrich_phase(after_link_phase(series, resolve), detail)
}

/// How many writes a run makes for a series.
pub open spec fn run_writes(
    series: SeriesView,
    resolve: spec_fn(Seq<char>) -> Option<Seq<char>>,
    detail: spec_fn(Seq<char>) -> Option<SubjectView>,
) -> nat {
    link_writes(series, resolve) + enrich_writes(after_link_phase(series, resolve), detail)
}

/// How many writes a run makes for the series of a catalog.
pub open spec fn catalog_writes(
    catalog: Seq<SeriesView>,
    resolve: spec_fn(Seq<char>) -> Option<Seq<char>>,
    detail: spec_fn(Seq<char>) -> Option<SubjectView>,
) -> nat
    decreases catalog.len(),
{
    if catalog.len() == 0 {
        0
    } else {
        catalog_writes(catalog.drop_last(), resolve, detail) + run_writes(
            catalog.last(),
            resolve,
            detail,
        )
    }
}

/// A catalog after a run.
pub open spec fn catalog_after_run(
    catalog: Seq<SeriesView>,
    resolve: spec_fn(Seq<char>) -> Option<Seq<char>>,
    detail: spec_fn(Seq<char>) -> Option<SubjectView>,
) -> Seq<SeriesView> {
    catalog.map_values(|series: SeriesView| after_run(series, resolve, detail))
}

/// A second run right after a first writes nothing for a series, as long as
/// the provider answers as before and nobody else changes the catalog.
pub proof fn lemma_second_run_writes_nothing(
    series: SeriesView,
    resolve: spec_fn(Seq<char>) -> Option<Seq<char>>,
    detail: spec_fn(Seq<char>) -> Option<SubjectView>,
)
    ensures
        run_writes(after_run(series, resolve, detail), resolve, detail) == 0,
        after_run(after_run(series, resolve, detail), resolve, detail) == after_run(
            series,
            resolve,
            detail,
        ),
{
    let linked = after_link_phase(series, resolve);
    let done = after_run(series, resolve, detail);
    if Phase::Link.admits(series.metadata) && resolve(series.name) is Some {
        let link = subject_link(resolve(series.name)->Some_0);
        assert(linked.metadata.links[series.metadata.links.len() as int] == link);
        assert(linked.metadata.has_bangumi_link());
    }
    if is_enriched_by(linked, detail) {
        let subject = detail(linked_id(linked.metadata)->Some_0)->Some_0;
        lemma_enriched_is_terminal(Phase::Link, linked.metadata, subject);
        lemma_enriched_is_terminal(Phase::Enrich, linked.metadata, subject);
    } else {
        assert(done == linked);
        lemma_first_with_label(linked.metadata.links, BANGUMI_LABEL@);
    }
}

/// A run keeps every link that a series had. A series that is linked in the
/// run has the link to its record after it, and the links of a series that is
/// enriched in the run hold no link twice.
pub proof fn lemma_run_keeps_links(
    series: SeriesView,
    resolve: spec_fn(Seq<char>) -> Option<Seq<char>>,
    detail: spec_fn(Seq<char>) -> Option<SubjectView>,
)
    ensures
        forall|link: LinkView|
            series.metadata.links.contains(link) ==> #[trigger] after_run(
                series,
                resolve,
                detail,
            ).metadata.links.contains(link),
        link_writes(series, resolve) > 0 ==> after_run(
            series,
            resolve,
            detail,
        ).metadata.links.contains(subject_link(resolve(series.name)->Some_0)),
        is_enriched_by(after_link_phase(series, resolve), detail) ==> after_run(
            series,
            resolve,
            detail,
        ).metadata.links.no_duplicates(),
{
    let linked = after_link_phase(series, resolve);
    let done = after_run(series, resolve, detail);
    assert forall|link: LinkView| series.metadata.links.contains(link) implies #[trigger]
        linked.metadata.links.contains(link) by {
        if link_writes(series, resolve) > 0 {
            let i = choose|i: int|
                0 <= i < series.metadata.links.len() && series.metadata.links[i] == link;
            assert(linked.metadata.links[i] == link);
        }
    }
    if link_writes(series, resolve) > 0 {
        let link = subject_link(resolve(series.name)->Some_0);
        assert(linked.metadata.links[series.metadata.links.len() as int] == link);
    }
    if is_enriched_by(linked, detail) {
        lemma_enriched_links(linked.metadata, detail(linked_id(linked.metadata)->Some_0)->Some_0);
    }
}

/// A second run right after a first writes nothing to the catalog.
pub proof fn lemma_runs_are_idempotent(
    catalog: Seq<SeriesView>,
    resolve: spec_fn(Seq<char>) -> Option<Seq<char>>,
    detail: spec_fn(Seq<char>) -> Option<SubjectView>,
)
    ensures
        catalog_writes(catalog_after_run(catalog, resolve, detail), resolve, detail) == 0,
    decreases catalog.len(),
{
    let after = catalog_after_run(catalog, resolve, detail);
    if catalog.len() != 0 {
        lemma_runs_are_idempotent(catalog.drop_last(), resolve, detail);
        lemma_second_run_writes_nothing(catalog.last(), resolve, detail);
        assert(after.drop_last() =~= catalog_after_run(catalog.drop_last(), resolve, detail));
    }
}

/// A run over a catalog without series writes nothing.
pub proof fn lemma_empty_catalog_writes_nothing(
    resolve: spec_fn(Seq<char>) -> Option<Seq<char>>,
    detail: spec_fn(Seq<char>) -> Option<SubjectView>,
)
    ensures
        catalog_writes(Seq::empty(), resolve, detail) == 0,
{
}

} // verus!
