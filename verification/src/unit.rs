//! The unit of work of each phase, step by step: given where a unit stands
//! and what its last request came back with, what it is to do next. The
//! caller performs the request and comes back with the outcome. A unit
//! writes nothing after a request of it has failed on which the rest of it
//! depends.

use vstd::prelude::*;
use vstd::string::*;

use crate::bgm::{
    resolved_id, Bgm, Candidate, Subject, DETAIL_URL_PREFIX, SEARCH_URL_PREFIX, SEARCH_URL_SUFFIX,
};
use crate::fault::{Fault, SyncError};
use crate::komga::{
    link_views, planned_upload, removal_addresses, subject_link, thumbnails_address, CoverUpload,
    CoverUploadView, Komga, Link, LinkView, Metadata, MetadataView, Series, SeriesView,
    METADATA_SUFFIX, SERIES_PATH,
};
use crate::sync::{enrich, enriched, link_request, linked_id, subject_id, Phase};
use crate::text::texts;

verus! {

/// Where a unit of the linking phase stands.
#[derive(Debug, PartialEq, Eq)]
pub enum LinkState {
    /// Nothing has been asked yet.
    Fresh,
    /// The provider has been asked for records of the series' name.
    Searching,
    /// The catalog has been asked for the series as it is now.
    Checking { bgmid: String },
    /// The links have been sent to the catalog.
    Writing,
    /// The unit is over.
    Done,
}

/// Where a unit of the linking phase stands, as texts.
pub enum LinkStateView {
    Fresh,
    Searching,
    Checking { bgmid: Seq<char> },
    Writing,
    Done,
}

impl View for LinkState {
    type V = LinkStateView;

    open spec fn view(&self) -> LinkStateView {
        match self {
            LinkState::Fresh => LinkStateView::Fresh,
            LinkState::Searching => LinkStateView::Searching,
            LinkState::Checking { bgmid } => LinkStateView::Checking { bgmid: bgmid@ },
            LinkState::Writing => LinkStateView::Writing,
            LinkState::Done => LinkStateView::Done,
        }
    }
}

/// What a unit of the linking phase is told.
#[derive(Debug)]
pub enum LinkEvent {
    /// The unit is to begin.
    Begin,
    /// What the search came back with.
    Candidates(Result<Vec<Candidate>, Fault>),
    /// What the request for the series came back with.
    Current(Result<Metadata, Fault>),
    /// Whether the write went through.
    Sent(Result<(), Fault>),
}

/// What the caller of a unit of the linking phase is to do next.
#[derive(Debug, PartialEq, Eq)]
pub enum LinkAction {
    /// Ask the provider for the records at this address.
    Search { url: String },
    /// Ask the catalog for the series at this address.
    ReadSeries { url: String },
    /// Replace the links of the series whose metadata is at this address.
    WriteLinks { url: String, links: Vec<Link> },
    /// Nothing more: the unit is over, with this outcome.
    Finish(Result<(), SyncError>),
}

/// What the caller of a unit of the linking phase is to do next, as texts.
pub enum LinkActionView {
    Search { url: Seq<char> },
    ReadSeries { url: Seq<char> },
    WriteLinks { url: Seq<char>, links: Seq<LinkView> },
    Finish(Result<(), SyncError>),
}

impl View for LinkAction {
    type V = LinkActionView;

    open spec fn view(&self) -> LinkActionView {
        match self {
            LinkAction::Search { url } => LinkActionView::Search { url: url@ },
            LinkAction::ReadSeries { url } => LinkActionView::ReadSeries { url: url@ },
            LinkAction::WriteLinks { url, links } => LinkActionView::WriteLinks {
                url: url@,
                links: link_views(links@),
            },
            LinkAction::Finish(outcome) => LinkActionView::Finish(*outcome),
        }
    }
}

/// How a unit ends when it is told something that it does not wait for:
/// at once, as after an answer of the wrong shape.
pub open spec fn link_refused() -> (LinkStateView, LinkActionView) {
    (LinkStateView::Done, LinkActionView::Finish(Err(SyncError::Decode)))
}

/// How a unit of the linking phase ends with `outcome`.
pub open spec fn link_over(outcome: Result<(), SyncError>) -> (LinkStateView, LinkActionView) {
    (LinkStateView::Done, LinkActionView::Finish(outcome))
}

/// The next state and action of the unit of the linking phase for `series`
/// in the catalog at `base`. The unit searches for the series' name, reads
/// the series again once the search has resolved, and sends the links only
/// if the series is still without a link to the provider. A series that the
/// phase does not work on is over at once. Each failure ends the unit.
pub open spec fn link_next(
    base: Seq<char>,
    series: SeriesView,
    state: LinkStateView,
    event: LinkEvent,
) -> (LinkStateView, LinkActionView) {
    match state {
        LinkStateView::Fresh => match event {
            LinkEvent::Begin => if Phase::Link.admits(series.metadata) {
                (
                    LinkStateView::Searching,
                    LinkActionView::Search {
                        url: SEARCH_URL_PREFIX@ + series.name + SEARCH_URL_SUFFIX@,
                    },
                )
            } else {
                link_over(Ok(()))
            },
            _ => link_refused(),
        },
        LinkStateView::Searching => match event {
            LinkEvent::Candidates(search) => match resolved_id(search) {
                Some(id) => (
                    LinkStateView::Checking { bgmid: id },
                    LinkActionView::ReadSeries { url: base + SERIES_PATH@ + series.id },
                ),
                None => link_over(Err(SyncError::NotFound)),
            },
            _ => link_refused(),
        },
        LinkStateView::Checking { bgmid } => match event {
            LinkEvent::Current(Ok(metadata)) => if metadata@.has_bangumi_link() {
                link_over(Err(SyncError::RaceLost))
            } else {
                (
                    LinkStateView::Writing,
                    LinkActionView::WriteLinks {
                        url: base + SERIES_PATH@ + series.id + METADATA_SUFFIX@,
                        links: metadata@.links.push(subject_link(bgmid)),
                    },
                )
            },
            LinkEvent::Current(Err(fault)) => link_over(Err(SyncError::of_fault(fault))),
            _ => link_refused(),
        },
        LinkStateView::Writing => match event {
            LinkEvent::Sent(Ok(_)) => link_over(Ok(())),
            LinkEvent::Sent(Err(fault)) => link_over(Err(SyncError::of_fault(fault))),
            _ => link_refused(),
        },
        LinkStateView::Done => link_refused(),
    }
}

/// The next state and action of the unit of the linking phase for `series`.
pub fn link_step(komga: &Komga, series: &Series, state: LinkState, event: LinkEvent) -> (next: (
    LinkState,
    LinkAction,
))
    ensures
        (next.0@, next.1@) == link_next(komga.url@, series@, state@, event),
{
    let refused = (LinkState::Done, LinkAction::Finish(Err(SyncError::Decode)));
    match state {
        LinkState::Fresh => match event {
            LinkEvent::Begin => match link_request(series) {
                Some(url) => (LinkState::Searching, LinkAction::Search { url }),
                None => (LinkState::Done, LinkAction::Finish(Ok(()))),
            },
            _ => refused,
        },
        LinkState::Searching => match event {
            LinkEvent::Candidates(search) => match Bgm::search_subject(search) {
                Ok(bgmid) => (
                    LinkState::Checking { bgmid },
                    LinkAction::ReadSeries { url: komga.series_url(series.id.as_str()) },
                ),
                Err(_) => (LinkState::Done, LinkAction::Finish(Err(SyncError::NotFound))),
            },
            _ => refused,
        },
        LinkState::Checking { bgmid } => match event {
            LinkEvent::Current(current) => match Komga::insert_bgmurl(current, bgmid.as_str()) {
                Ok(links) => (
                    LinkState::Writing,
                    LinkAction::WriteLinks { url: komga.metadata_url(series.id.as_str()), links },
                ),
                Err(error) => (LinkState::Done, LinkAction::Finish(Err(error))),
            },
            _ => refused,
        },
        LinkState::Writing => match event {
            LinkEvent::Sent(Ok(_)) => (LinkState::Done, LinkAction::Finish(Ok(()))),
            LinkEvent::Sent(Err(fault)) => (
                LinkState::Done,
                LinkAction::Finish(Err(SyncError::from_fault(fault))),
            ),
            _ => refused,
        },
        LinkState::Done => refused,
    }
}

/// Where a unit of the enriching phase stands.
#[derive(Debug, PartialEq, Eq)]
pub enum EnrichState {
    /// Nothing has been asked yet.
    Fresh,
    /// The provider has been asked for the record.
    Reading,
    /// The metadata has been sent to the catalog; the cover is at `cover`.
    Writing { cover: String },
    /// The catalog has been asked for the covers of the series.
    Listing { cover: String },
    /// The image has been asked for; `covers` are the covers that the series
    /// has, as far as they could be listed.
    Fetching { covers: Vec<String> },
    /// The deletion of the cover at position `at` of `removals` has been
    /// sent; `upload` follows the last of them.
    Removing { removals: Vec<String>, at: usize, upload: CoverUpload },
    /// The new cover has been sent to the catalog.
    Uploading,
    /// The unit is over.
    Done,
}

/// Where a unit of the enriching phase stands, as texts.
pub enum EnrichStateView {
    Fresh,
    Reading,
    Writing { cover: Seq<char> },
    Listing { cover: Seq<char> },
    Fetching { covers: Seq<Seq<char>> },
    Removing { removals: Seq<Seq<char>>, at: nat, upload: CoverUploadView },
    Uploading,
    Done,
}

impl View for EnrichState {
    type V = EnrichStateView;

    open spec fn view(&self) -> EnrichStateView {
        match self {
            EnrichState::Fresh => EnrichStateView::Fresh,
            EnrichState::Reading => EnrichStateView::Reading,
            EnrichState::Writing { cover } => EnrichStateView::Writing { cover: cover@ },
            EnrichState::Listing { cover } => EnrichStateView::Listing { cover: cover@ },
            EnrichState::Fetching { covers } => EnrichStateView::Fetching {
                covers: texts(covers@),
            },
            EnrichState::Removing { removals, at, upload } => EnrichStateView::Removing {
                removals: texts(removals@),
                at: *at as nat,
                upload: upload@,
            },
            EnrichState::Uploading => EnrichStateView::Uploading,
            EnrichState::Done => EnrichStateView::Done,
        }
    }
}

/// What a unit of the enriching phase is told.
#[derive(Debug)]
pub enum EnrichEvent {
    /// The unit is to begin.
    Begin,
    /// What the request for the record came back with.
    Detail(Result<Subject, Fault>),
    /// What the request for the covers of the series came back with.
    Covers(Result<Vec<String>, Fault>),
    /// What the download of the image came back with.
    Image(Result<Vec<u8>, Fault>),
    /// Whether the write, deletion or upload went through.
    Sent(Result<(), Fault>),
}

/// What the caller of a unit of the enriching phase is to do next.
#[derive(Debug, PartialEq, Eq)]
pub enum EnrichAction {
    /// Ask the provider for the record at this address.
    ReadDetail { url: String },
    /// Replace the metadata at this address.
    WriteMetadata { url: String, metadata: Metadata },
    /// Ask the catalog for the covers at this address.
    ListCovers { url: String },
    /// Download the image at this address.
    Download { url: String },
    /// Delete the cover at this address.
    DeleteCover { url: String },
    /// Post this cover.
    UploadCover(CoverUpload),
    /// Nothing more: the unit is over, with this outcome.
    Finish(Result<(), SyncError>),
}

/// What the caller of a unit of the enriching phase is to do next, as texts.
pub enum EnrichActionView {
    ReadDetail { url: Seq<char> },
    WriteMetadata { url: Seq<char>, metadata: MetadataView },
    ListCovers { url: Seq<char> },
    Download { url: Seq<char> },
    DeleteCover { url: Seq<char> },
    UploadCover(CoverUploadView),
    Finish(Result<(), SyncError>),
}

impl View for EnrichAction {
    type V = EnrichActionView;

    open spec fn view(&self) -> EnrichActionView {
        match self {
            EnrichAction::ReadDetail { url } => EnrichActionView::ReadDetail { url: url@ },
            EnrichAction::WriteMetadata { url, metadata } => EnrichActionView::WriteMetadata {
                url: url@,
                metadata: metadata@,
            },
            EnrichAction::ListCovers { url } => EnrichActionView::ListCovers { url: url@ },
            EnrichAction::Download { url } => EnrichActionView::Download { url: url@ },
            EnrichAction::DeleteCover { url } => EnrichActionView::DeleteCover { url: url@ },
            EnrichAction::UploadCover(upload) => EnrichActionView::UploadCover(upload@),
            EnrichAction::Finish(outcome) => EnrichActionView::Finish(*outcome),
        }
    }
}

/// How a unit ends when it is told something that it does not wait for:
/// at once, as after an answer of the wrong shape.
pub open spec fn enrich_refused() -> (EnrichStateView, EnrichActionView) {
    (EnrichStateView::Done, EnrichActionView::Finish(Err(SyncError::Decode)))
}

/// How a unit of the enriching phase ends with `outcome`.
pub open spec fn enrich_over(outcome: Result<(), SyncError>) -> (
    EnrichStateView,
    EnrichActionView,
) {
    (EnrichStateView::Done, EnrichActionView::Finish(outcome))
}

/// The covers that a listing came back with; none where it failed.
pub open spec fn listed_covers(listed: Result<Vec<String>, Fault>) -> Seq<Seq<char>> {
    match listed {
        Ok(covers) => texts(covers@),
        Err(_) => Seq::empty(),
    }
}

/// The deletion of the cover at position `at` of `removals` where there is
/// one, else the upload.
pub open spec fn removal_or_upload(removals: Seq<Seq<char>>, at: nat, upload: CoverUploadView) -> (
    EnrichStateView,
    EnrichActionView,
) {
    if at < removals.len() {
        (
            EnrichStateView::Removing { removals, at, upload },
            EnrichActionView::DeleteCover { url: removals[at as int] },
        )
    } else {
        (EnrichStateView::Uploading, EnrichActionView::UploadCover(upload))
    }
}

/// The next state and action of the unit of the enriching phase for `series`
/// in the catalog at `base`. The unit reads the record, writes the metadata,
/// lists the covers, downloads the image, deletes the covers one by one and
/// uploads the image, in this order: the metadata is written before anything
/// is done about the cover, and no cover is deleted before the image is
/// there. A series that the phase does not work on is over at once. Each
/// failure ends the unit, but for that of the listing, after which no cover
/// is deleted.
pub open spec fn enrich_next(
    base: Seq<char>,
    series: SeriesView,
    state: EnrichStateView,
    event: EnrichEvent,
) -> (EnrichStateView, EnrichActionView) {
    match state {
        EnrichStateView::Fresh => match event {
            EnrichEvent::Begin => if Phase::Enrich.admits(series.metadata) {
                (
                    EnrichStateView::Reading,
                    EnrichActionView::ReadDetail {
                        url: DETAIL_URL_PREFIX@ + linked_id(series.metadata)->Some_0,
                    },
                )
            } else {
                enrich_over(Ok(()))
            },
            _ => enrich_refused(),
        },
        EnrichStateView::Reading => match event {
            EnrichEvent::Detail(Ok(subject)) => (
                EnrichStateView::Writing { cover: subject@.cover },
                EnrichActionView::WriteMetadata {
                    url: base + SERIES_PATH@ + series.id + METADATA_SUFFIX@,
                    metadata: enriched(series.metadata, subject@),
                },
            ),
            EnrichEvent::Detail(Err(fault)) => enrich_over(Err(SyncError::of_fault(fault))),
            _ => enrich_refused(),
        },
        EnrichStateView::Writing { cover } => match event {
            EnrichEvent::Sent(Ok(_)) => (
                EnrichStateView::Listing { cover },
                EnrichActionView::ListCovers { url: thumbnails_address(base, series.id) },
            ),
            EnrichEvent::Sent(Err(fault)) => enrich_over(Err(SyncError::of_fault(fault))),
            _ => enrich_refused(),
        },
        EnrichStateView::Listing { cover } => match event {
            EnrichEvent::Covers(listed) => (
                EnrichStateView::Fetching { covers: listed_covers(listed) },
                EnrichActionView::Download { url: cover },
            ),
            _ => enrich_refused(),
        },
        EnrichStateView::Fetching { covers } => match event {
            EnrichEvent::Image(Ok(image)) => removal_or_upload(
                removal_addresses(base, series.id, covers),
                0,
                planned_upload(base, series.id, image@),
            ),
            EnrichEvent::Image(Err(fault)) => enrich_over(Err(SyncError::of_fault(fault))),
            _ => enrich_refused(),
        },
        EnrichStateView::Removing { removals, at, upload } => match event {
            EnrichEvent::Sent(Ok(_)) => removal_or_upload(removals, at + 1, upload),
            EnrichEvent::Sent(Err(fault)) => enrich_over(Err(SyncError::of_fault(fault))),
            _ => enrich_refused(),
        },
        EnrichStateView::Uploading => match event {
            EnrichEvent::Sent(Ok(_)) => enrich_over(Ok(())),
            EnrichEvent::Sent(Err(fault)) => enrich_over(Err(SyncError::of_fault(fault))),
            _ => enrich_refused(),
        },
        EnrichStateView::Done => enrich_refused(),
    }
}

/// The deletion of the cover at position `at` of `removals` where there is
/// one, else the upload.
fn remove_or_upload(removals: Vec<String>, at: usize, upload: CoverUpload) -> (next: (
    EnrichState,
    EnrichAction,
))
    ensures
        (next.0@, next.1@) == removal_or_upload(texts(removals@), at as nat, upload@),
{
    if at < removals.len() {
        let url = removals[at].clone();
        (EnrichState::Removing { removals, at, upload }, EnrichAction::DeleteCover { url })
    } else {
        (EnrichState::Uploading, EnrichAction::UploadCover(upload))
    }
}

/// How a unit of the enriching phase ends after a request has failed.
fn enrich_failed(fault: Fault) -> (next: (EnrichState, EnrichAction))
    ensures
        (next.0@, next.1@) == enrich_over(Err(SyncError::of_fault(fault))),
{
    (EnrichState::Done, EnrichAction::Finish(Err(SyncError::from_fault(fault))))
}

/// The next state and action of the unit of the enriching phase for `series`.
pub fn enrich_step(komga: &Komga, series: &Series, state: EnrichState, event: EnrichEvent) -> (next:
    (EnrichState, EnrichAction))
    ensures
        (next.0@, next.1@) == enrich_next(komga.url@, series@, state@, event),
{
    let refused = (EnrichState::Done, EnrichAction::Finish(Err(SyncError::Decode)));
    let id = series.id.as_str();
    match state {
        EnrichState::Fresh => match event {
            EnrichEvent::Begin => match subject_id(series) {
                Some(bgmid) => (
                    EnrichState::Reading,
                    EnrichAction::ReadDetail { url: Bgm::subject_url(bgmid.as_str()) },
                ),
                None => (EnrichState::Done, EnrichAction::Finish(Ok(()))),
            },
            _ => refused,
        },
        EnrichState::Reading => match event {
            EnrichEvent::Detail(Ok(subject)) => match enrich(&series.metadata, Ok(subject)) {
                Ok(pair) => {
                    let (metadata, cover) = pair;
                    (
                        EnrichState::Writing { cover },
                        EnrichAction::WriteMetadata { url: komga.metadata_url(id), metadata },
                    )
                },
                Err(_) => refused,
            },
            EnrichEvent::Detail(Err(fault)) => enrich_failed(fault),
            _ => refused,
        },
        EnrichState::Writing { cover } => match event {
            EnrichEvent::Sent(Ok(_)) => (
                EnrichState::Listing { cover },
                EnrichAction::ListCovers { url: komga.thumbnails_url(id) },
            ),
            EnrichEvent::Sent(Err(fault)) => enrich_failed(fault),
            _ => refused,
        },
        EnrichState::Listing { cover } => match event {
            EnrichEvent::Covers(listed) => {
                let covers = match listed {
                    Ok(covers) => covers,
                    Err(_) => Vec::new(),
                };
                assert(texts(covers@) =~= listed_covers(listed));
                (EnrichState::Fetching { covers }, EnrichAction::Download { url: cover })
            },
            _ => refused,
        },
        EnrichState::Fetching { covers } => match event {
            EnrichEvent::Image(Ok(image)) => {
                let (removals, upload) = komga.update_cover(id, Ok(covers), Ok(image));
                match upload {
                    Some(upload) => remove_or_upload(removals, 0, upload),
                    None => refused,
                }
            },
            EnrichEvent::Image(Err(fault)) => enrich_failed(fault),
            _ => refused,
        },
        EnrichState::Removing { removals, at, upload } => match event {
            EnrichEvent::Sent(Ok(_)) => {
                if at < removals.len() {
                    remove_or_upload(removals, at + 1, upload)
                } else {
                    (EnrichState::Uploading, EnrichAction::UploadCover(upload))
                }
            },
            EnrichEvent::Sent(Err(fault)) => enrich_failed(fault),
            _ => refused,
        },
        EnrichState::Uploading => match event {
            EnrichEvent::Sent(Ok(_)) => (EnrichState::Done, EnrichAction::Finish(Ok(()))),
            EnrichEvent::Sent(Err(fault)) => enrich_failed(fault),
            _ => refused,
        },
        EnrichState::Done => refused,
    }
}

/// Whether a unit of the linking phase is told that a request failed.
pub open spec fn link_failure(event: LinkEvent) -> bool {
    match event {
        LinkEvent::Candidates(Err(_)) => true,
        LinkEvent::Current(Err(_)) => true,
        LinkEvent::Sent(Err(_)) => true,
        _ => false,
    }
}

/// Whether a unit of the enriching phase is told that a request failed on
/// which the rest of the unit depends: any but the listing of the covers.
pub open spec fn enrich_failure(event: EnrichEvent) -> bool {
    match event {
        EnrichEvent::Detail(Err(_)) => true,
        EnrichEvent::Image(Err(_)) => true,
        EnrichEvent::Sent(Err(_)) => true,
        _ => false,
    }
}

/// A unit of the linking phase is over once a request of it has failed, and
/// nothing is written after that. Links are written only once the series has
/// been read again and found without a link to the provider, and then the
/// links that it has are written with the new one.
pub proof fn lemma_link_unit_order(
    base: Seq<char>,
    series: SeriesView,
    state: LinkStateView,
    event: LinkEvent,
)
    ensures
        link_failure(event) || state is Done ==> {
            &&& link_next(base, series, state, event).0 is Done
            &&& link_next(base, series, state, event).1 is Finish
            &&& link_next(base, series, state, event).1->Finish_0 is Err
        },
        link_next(base, series, state, event).1 is WriteLinks ==> {
            &&& state is Checking
            &&& event is Current
            &&& event->Current_0 is Ok
            &&& !event->Current_0->Ok_0@.has_bangumi_link()
            &&& event->Current_0->Ok_0@.links.is_prefix_of(
                link_next(base, series, state, event).1->WriteLinks_links,
            )
        },
        link_next(base, series, state, event).1 is Finish <==> link_next(
            base,
            series,
            state,
            event,
        ).0 is Done,
{
    if link_next(base, series, state, event).1 is WriteLinks {
        let metadata = event->Current_0->Ok_0;
        assert(metadata@.links.is_prefix_of(
            metadata@.links.push(subject_link(state->Checking_bgmid)),
        ));
    }
}

/// Whether a unit of the enriching phase has just been told that a request
/// about the cover went through: the image is there, or a cover is deleted.
pub open spec fn cover_may_change(state: EnrichStateView, event: EnrichEvent) -> bool {
    ||| state is Fetching && event is Image && event->Image_0 is Ok
    ||| state is Removing && event is Sent && event->Sent_0 is Ok
}

/// A unit of the enriching phase is over once a request of it has failed on
/// which the rest depends, and nothing is written after that. A cover is
/// deleted only once the image is there, so that a series whose image cannot
/// be had keeps its covers; the metadata is written only right after the
/// record has been read.
pub proof fn lemma_enrich_unit_order(
    base: Seq<char>,
    series: SeriesView,
    state: EnrichStateView,
    event: EnrichEvent,
)
    ensures
        enrich_failure(event) || state is Done ==> {
            &&& enrich_next(base, series, state, event).0 is Done
            &&& enrich_next(base, series, state, event).1 is Finish
            &&& enrich_next(base, series, state, event).1->Finish_0 is Err
        },
        enrich_next(base, series, state, event).1 is DeleteCover ==> cover_may_change(
            state,
            event,
        ),
        enrich_next(base, series, state, event).1 is UploadCover ==> cover_may_change(
            state,
            event,
        ),
        enrich_next(base, series, state, event).1 is WriteMetadata ==> {
            &&& state is Reading
            &&& event is Detail
            &&& event->Detail_0 is Ok
        },
        enrich_next(base, series, state, event).1 is Finish <==> enrich_next(
            base,
            series,
            state,
            event,
        ).0 is Done,
{
}

} // verus!
