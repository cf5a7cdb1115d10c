//! The catalog: its series and their metadata, the tests that keep a series
//! out of a phase, and the addresses of the catalog's endpoints.

use vstd::prelude::*;
use vstd::string::*;
use vstd::std_specs::cmp::PartialEqSpecImpl;

use crate::config::Config;
use crate::fault::{Fault, SyncError};
use crate::text::{contains_text, same_text, texts};

verus! {

/// Label of the link that ties a series to its provider record.
pub const BANGUMI_LABEL: &'static str = "Bangumi";

/// Tag that marks a series as enriched; such a series is never worked on again.
pub const PROCESSED_TAG: &'static str = "已挂削";

/// Status of a series that is still running.
pub const STATUS_ONGOING: &'static str = "ONGOING";

/// Status of a series that has ended.
pub const STATUS_ENDED: &'static str = "ENDED";

/// What a provider record's identifier is appended to for the record's address.
pub const SUBJECT_URL_BASE: &'static str = "https://bgm.tv/subject/";

/// A labelled address attached to a series.
#[derive(Debug, Eq, Hash)]
pub struct Link {
    pub label: String,
    pub url: String,
}

/// A link as two texts.
pub struct LinkView {
    pub label: Seq<char>,
    pub url: Seq<char>,
}

impl View for Link {
    type V = LinkView;

    open spec fn view(&self) -> LinkView {
        LinkView { label: self.label@, url: self.url@ }
    }
}

impl Clone for Link {
    fn clone(&self) -> (copy: Self)
        ensures
            copy == *self,
    {
        Link { label: self.label.clone(), url: self.url.clone() }
    }
}

impl PartialEq for Link {
    fn eq(&self, other: &Self) -> (same: bool) {
        self.label == other.label && self.url == other.url
    }
}

impl PartialEqSpecImpl for Link {
    open spec fn obeys_eq_spec() -> bool {
        true
    }

    open spec fn eq_spec(&self, other: &Self) -> bool {
        self.label@ == other.label@ && self.url@ == other.url@
    }
}

/// Another title of a series, with the provider's label for it.
#[derive(Debug, Eq, Hash)]
pub struct AlternateTitle {
    pub label: String,
    pub title: String,
}

/// An alternate title as two texts.
pub struct AlternateTitleView {
    pub label: Seq<char>,
    pub title: Seq<char>,
}

impl View for AlternateTitle {
    type V = AlternateTitleView;

    open spec fn view(&self) -> AlternateTitleView {
        AlternateTitleView { label: self.label@, title: self.title@ }
    }
}

impl Clone for AlternateTitle {
    fn clone(&self) -> (copy: Self)
        ensures
            copy == *self,
    {
        AlternateTitle { label: self.label.clone(), title: self.title.clone() }
    }
}

impl PartialEq for AlternateTitle {
    fn eq(&self, other: &Self) -> (same: bool) {
        self.label == other.label && self.title == other.title
    }
}

impl PartialEqSpecImpl for AlternateTitle {
    open spec fn obeys_eq_spec() -> bool {
        true
    }

    open spec fn eq_spec(&self, other: &Self) -> bool {
        self.label@ == other.label@ && self.title@ == other.title@
    }
}

/// The view of each link of `links`, in order.
pub open spec fn link_views(links: Seq<Link>) -> Seq<LinkView> {
    links.map_values(|link: Link| link@)
}

/// The view of each title of `titles`, in order.
pub open spec fn title_views(titles: Seq<AlternateTitle>) -> Seq<AlternateTitleView> {
    titles.map_values(|title: AlternateTitle| title@)
}

/// Whether one of `links` carries `label`.
pub open spec fn has_label(links: Seq<LinkView>, label: Seq<char>) -> bool {
    exists|i: int| 0 <= i < links.len() && (#[trigger] links[i]).label == label
}

/// The descriptive fields of a series.
#[derive(Debug, PartialEq, Eq)]
pub struct Metadata {
    pub status: String,
    pub summary: String,
    pub publisher: String,
    pub tags: Vec<String>,
    pub links: Vec<Link>,
    pub alternate_titles: Vec<AlternateTitle>,
}

/// Metadata as texts and sequences of them.
pub struct MetadataView {
    pub status: Seq<char>,
    pub summary: Seq<char>,
    pub publisher: Seq<char>,
    pub tags: Seq<Seq<char>>,
    pub links: Seq<LinkView>,
    pub alternate_titles: Seq<AlternateTitleView>,
}

impl View for Metadata {
    type V = MetadataView;

    open spec fn view(&self) -> MetadataView {
        MetadataView {
            status: self.status@,
            summary: self.summary@,
            publisher: self.publisher@,
            tags: texts(self.tags@),
            links: link_views(self.links@),
            alternate_titles: title_views(self.alternate_titles@),
        }
    }
}

impl MetadataView {
    /// The metadata of a series of which nothing is known yet: ongoing, all
    /// texts and lists empty.
    pub open spec fn blank() -> MetadataView {
        MetadataView {
            status: STATUS_ONGOING@,
            summary: Seq::empty(),
            publisher: Seq::empty(),
            tags: Seq::empty(),
            links: Seq::empty(),
            alternate_titles: Seq::empty(),
        }
    }

    /// Whether the series carries the tag that marks it as enriched.
    pub open spec fn is_processed(self) -> bool {
        self.tags.contains(PROCESSED_TAG@)
    }

    /// Whether the series is tied to a provider record.
    pub open spec fn has_bangumi_link(self) -> bool {
        has_label(self.links, BANGUMI_LABEL@)
    }
}

/// The first of `links` that carries `label`, if one does.
pub open spec fn first_with_label(links: Seq<LinkView>, label: Seq<char>) -> Option<LinkView>
    decreases links.len(),
{
    if links.len() == 0 {
        None
    } else if links[0].label == label {
        Some(links[0])
    } else {
        first_with_label(links.drop_first(), label)
    }
}

/// A link with `label` is found exactly where one is there, and what is found
/// is one of the links and carries the label.
pub proof fn lemma_first_with_label(links: Seq<LinkView>, label: Seq<char>)
    ensures
        first_with_label(links, label) is Some <==> has_label(links, label),
        first_with_label(links, label) matches Some(link) ==> link.label == label
            && links.contains(link),
    decreases links.len(),
{
    if links.len() == 0 {
    } else if links[0].label == label {
    } else {
        let rest = links.drop_first();
        lemma_first_with_label(rest, label);
        if has_label(links, label) {
            let i = choose|i: int| 0 <= i < links.len() && (#[trigger] links[i]).label == label;
            assert(rest[i - 1] == links[i]);
        }
        if has_label(rest, label) {
            let i = choose|i: int| 0 <= i < rest.len() && (#[trigger] rest[i]).label == label;
            assert(links[i + 1] == rest[i]);
        }
        if let Some(link) = first_with_label(rest, label) {
            let i = choose|i: int| 0 <= i < rest.len() && rest[i] == link;
            assert(links[i + 1] == link);
        }
    }
}

/// The link that ties a series to the provider record `id`.
pub open spec fn subject_link(id: Seq<char>) -> LinkView {
    LinkView { label: BANGUMI_LABEL@, url: SUBJECT_URL_BASE@ + id }
}

/// A copy of `items`.
pub fn copy_texts(items: &Vec<String>) -> (copy: Vec<String>)
    ensures
        copy@ == items@,
{
    let mut copy: Vec<String> = Vec::new();
    let mut i: usize = 0;
    while i < items.len()
        invariant
            i <= items.len(),
            copy@ == items@.take(i as int),
        decreases items.len() - i,
    {
        copy.push(items[i].clone());
        assert(copy@ =~= items@.take(i + 1));
        i = i + 1;
    }
    assert(items@.take(items.len() as int) =~= items@);
    copy
}

/// A copy of `links`.
pub fn copy_links(links: &Vec<Link>) -> (copy: Vec<Link>)
    ensures
        copy@ == links@,
{
    let mut copy: Vec<Link> = Vec::new();
    let mut i: usize = 0;
    while i < links.len()
        invariant
            i <= links.len(),
            copy@ == links@.take(i as int),
        decreases links.len() - i,
    {
        copy.push(links[i].clone());
        assert(copy@ =~= links@.take(i + 1));
        i = i + 1;
    }
    assert(links@.take(links.len() as int) =~= links@);
    copy
}

/// A copy of `titles`.
pub fn copy_titles(titles: &Vec<AlternateTitle>) -> (copy: Vec<AlternateTitle>)
    ensures
        copy@ == titles@,
{
    let mut copy: Vec<AlternateTitle> = Vec::new();
    let mut i: usize = 0;
    while i < titles.len()
        invariant
            i <= titles.len(),
            copy@ == titles@.take(i as int),
        decreases titles.len() - i,
    {
        copy.push(titles[i].clone());
        assert(copy@ =~= titles@.take(i + 1));
        i = i + 1;
    }
    assert(titles@.take(titles.len() as int) =~= titles@);
    copy
}

impl Link {
    /// The link that ties a series to the provider record `id`.
    pub fn to_subject(id: &str) -> (link: Link)
        ensures
            link@ == subject_link(id@),
    {
        Link {
            label: String::from_str(BANGUMI_LABEL),
            url: String::from_str(SUBJECT_URL_BASE).concat(id),
        }
    }
}

impl Clone for Metadata {
    fn clone(&self) -> (copy: Self)
        ensures
            copy@ == self@,
    {
        Metadata {
            status: self.status.clone(),
            summary: self.summary.clone(),
            publisher: self.publisher.clone(),
            tags: copy_texts(&self.tags),
            links: copy_links(&self.links),
            alternate_titles: copy_titles(&self.alternate_titles),
        }
    }
}

impl Metadata {
    /// The metadata of a series of which nothing is known yet.
    pub fn new() -> (metadata: Metadata)
        ensures
            metadata@ == MetadataView::blank(),
    {
        let metadata = Metadata {
            status: String::from_str(STATUS_ONGOING),
            summary: String::new(),
            publisher: String::new(),
            tags: Vec::new(),
            links: Vec::new(),
            alternate_titles: Vec::new(),
        };
        assert(metadata@.tags =~= Seq::empty());
        assert(metadata@.links =~= Seq::empty());
        assert(metadata@.alternate_titles =~= Seq::empty());
        metadata
    }

    /// Whether the series carries the tag that marks it as enriched.
    pub fn is_processed(&self) -> (processed: bool)
        ensures
            processed == self@.is_processed(),
    {
        contains_text(&self.tags, PROCESSED_TAG)
    }

    /// The first link that ties the series to a provider record, if there is one.
    pub fn bangumi_link(&self) -> (found: Option<&Link>)
        ensures
            found.is_some() == self@.has_bangumi_link(),
            match found {
                Some(link) => first_with_label(self@.links, BANGUMI_LABEL@) == Some(link@),
                None => first_with_label(self@.links, BANGUMI_LABEL@) is None,
            },
    {
        let ghost all = link_views(self.links@);
        proof {
            lemma_first_with_label(all, BANGUMI_LABEL@);
            assert(all.skip(0) =~= all);
        }
        let mut i: usize = 0;
        while i < self.links.len()
            invariant
                i <= self.links.len(),
                all == link_views(self.links@),
                first_with_label(all, BANGUMI_LABEL@) == first_with_label(
                    all.skip(i as int),
                    BANGUMI_LABEL@,
                ),
                first_with_label(all, BANGUMI_LABEL@) is Some <==> has_label(all, BANGUMI_LABEL@),
            decreases self.links.len() - i,
        {
            proof {
                assert(all.skip(i as int)[0] == self.links@[i as int]@);
                assert(all.skip(i as int).drop_first() =~= all.skip(i + 1));
            }
            if same_text(self.links[i].label.as_str(), BANGUMI_LABEL) {
                return Some(&self.links[i]);
            }
            i = i + 1;
        }
        None
    }

    /// Whether the series is tied to a provider record.
    pub fn has_bangumi_link(&self) -> (linked: bool)
        ensures
            linked == self@.has_bangumi_link(),
    {
        self.bangumi_link().is_some()
    }
}

/// A library of the catalog.
#[derive(Debug)]
pub struct Libraries {
    pub id: String,
    pub name: String,
}

/// A series of the catalog, with its metadata as last read.
#[derive(Debug)]
pub struct Series {
    pub id: String,
    pub name: String,
    pub library_id: String,
    pub metadata: Metadata,
}

/// A series as texts.
pub struct SeriesView {
    pub id: Seq<char>,
    pub name: Seq<char>,
    pub library_id: Seq<char>,
    pub metadata: MetadataView,
}

impl View for Series {
    type V = SeriesView;

    open spec fn view(&self) -> SeriesView {
        SeriesView {
            id: self.id@,
            name: self.name@,
            library_id: self.library_id@,
            metadata: self.metadata@,
        }
    }
}

impl Clone for Series {
    fn clone(&self) -> (copy: Self)
        ensures
            copy@ == self@,
    {
        Series {
            id: self.id.clone(),
            name: self.name.clone(),
            library_id: self.library_id.clone(),
            metadata: self.metadata.clone(),
        }
    }
}

/// Path of the list of libraries, behind the catalog's address.
pub const LIBRARIES_PATH: &'static str = "/api/v1/libraries?size=100000";

/// Path of the list of all series.
pub const ALL_SERIES_PATH: &'static str = "/api/v1/series?size=100000";

/// Path of the list of the series of one library, up to the library's identifier.
pub const LIBRARY_SERIES_PATH: &'static str = "/api/v1/series?library_id=";

/// What follows the library's identifier in that path.
pub const PAGE_SIZE_SUFFIX: &'static str = "&size=100000";

/// Path of one series, up to its identifier.
pub const SERIES_PATH: &'static str = "/api/v1/series/";

/// What follows a series' path for its metadata.
pub const METADATA_SUFFIX: &'static str = "/metadata";

/// What follows a series' path for its covers.
pub const THUMBNAILS_SUFFIX: &'static str = "/thumbnails";

/// What follows the path of a series' covers, before one cover's identifier.
pub const SEPARATOR: &'static str = "/";

/// File name under which a cover is uploaded.
pub const COVER_FILE_NAME: &'static str = "cover.jpg";

/// Media type under which a cover is uploaded.
pub const COVER_MIME: &'static str = "image/jpeg";

/// A cover image that is to be uploaded for a series and selected as its cover.
#[derive(Debug, PartialEq, Eq)]
pub struct CoverUpload {
    /// Where to post the image.
    pub url: String,
    /// The image.
    pub image: Vec<u8>,
    /// The file name to give it.
    pub file_name: String,
    /// The media type to give it.
    pub mime: String,
    /// Whether the catalog shall show it as the series' cover.
    pub selected: bool,
}

/// An upload as texts and bytes.
pub struct CoverUploadView {
    pub url: Seq<char>,
    pub image: Seq<u8>,
    pub file_name: Seq<char>,
    pub mime: Seq<char>,
    pub selected: bool,
}

impl View for CoverUpload {
    type V = CoverUploadView;

    open spec fn view(&self) -> CoverUploadView {
        CoverUploadView {
            url: self.url@,
            image: self.image@,
            file_name: self.file_name@,
            mime: self.mime@,
            selected: self.selected,
        }
    }
}

/// The address of the covers of the series `id` in the catalog at `base`.
pub open spec fn thumbnails_address(base: Seq<char>, id: Seq<char>) -> Seq<char> {
    base + SERIES_PATH@ + id + THUMBNAILS_SUFFIX@
}

/// The address of each cover of `covers`, in order.
pub open spec fn removal_addresses(
    base: Seq<char>,
    id: Seq<char>,
    covers: Seq<Seq<char>>,
) -> Seq<Seq<char>> {
    covers.map_values(|cover: Seq<char>| thumbnails_address(base, id) + SEPARATOR@ + cover)
}

/// The addresses of the covers to delete for a new cover of the series
/// `id`: one for each cover that was listed, in order, where the image could
/// be had; none where it could not, or where the covers could not be listed.
pub open spec fn planned_removals(
    base: Seq<char>,
    id: Seq<char>,
    listed: Result<Vec<String>, Fault>,
    image: Result<Vec<u8>, Fault>,
) -> Seq<Seq<char>> {
    match (image, listed) {
        (Ok(_), Ok(covers)) => removal_addresses(base, id, texts(covers@)),
        _ => Seq::empty(),
    }
}

/// The upload that makes `image` the cover of the series `id`.
pub open spec fn planned_upload(base: Seq<char>, id: Seq<char>, image: Seq<u8>) -> CoverUploadView {
    CoverUploadView {
        url: thumbnails_address(base, id),
        image,
        file_name: COVER_FILE_NAME@,
        mime: COVER_MIME@,
        selected: true,
    }
}

/// Access to the catalog.
#[derive(Debug)]
pub struct Komga {
    pub url: String,
    pub user: String,
    pub password: String,
}

impl Komga {
    /// Access to the catalog that `config` names, with its credentials.
    pub fn new(config: &Config) -> (komga: Komga)
        ensures
            komga.url@ == config.komga_url@,
            komga.user@ == config.komga_username@,
            komga.password@ == config.komga_password@,
    {
        Komga {
            url: config.komga_url.clone(),
            user: config.komga_username.clone(),
            password: config.komga_password.clone(),
        }
    }

    /// The address of the list of libraries.
    pub fn libraries_url(&self) -> (url: String)
        ensures
            url@ == self.url@ + LIBRARIES_PATH@,
    {
        self.url.clone().concat(LIBRARIES_PATH)
    }

    /// The address of the list of all series.
    pub fn all_series_url(&self) -> (url: String)
        ensures
            url@ == self.url@ + ALL_SERIES_PATH@,
    {
        self.url.clone().concat(ALL_SERIES_PATH)
    }

    /// The address of the list of the series of the library `library_id`.
    pub fn library_series_url(&self, library_id: &str) -> (url: String)
        ensures
            url@ == self.url@ + LIBRARY_SERIES_PATH@ + library_id@ + PAGE_SIZE_SUFFIX@,
    {
        self.url.clone().concat(LIBRARY_SERIES_PATH).concat(library_id).concat(PAGE_SIZE_SUFFIX)
    }

    /// The address of the series `id`.
    pub fn series_url(&self, id: &str) -> (url: String)
        ensures
            url@ == self.url@ + SERIES_PATH@ + id@,
    {
        self.url.clone().concat(SERIES_PATH).concat(id)
    }

    /// The address of the metadata of the series `id`.
    pub fn metadata_url(&self, id: &str) -> (url: String)
        ensures
            url@ == self.url@ + SERIES_PATH@ + id@ + METADATA_SUFFIX@,
    {
        self.series_url(id).concat(METADATA_SUFFIX)
    }

    /// The address of the covers of the series `id`.
    pub fn thumbnails_url(&self, id: &str) -> (url: String)
        ensures
            url@ == thumbnails_address(self.url@, id@),
    {
        self.series_url(id).concat(THUMBNAILS_SUFFIX)
    }

    /// The links to write for a series that was resolved to the record
    /// `bgmid`, given the series as the catalog holds it now: the links that
    /// it has, and behind them the link to the record. The write replaces
    /// the links of the series, so that what it had is written again. Nothing
    /// is written where the series could not be read, or has meanwhile been
    /// linked.
    pub fn insert_bgmurl(current: Result<Metadata, Fault>, bgmid: &str) -> (write: Result<
        Vec<Link>,
        SyncError,
    >)
        ensures
            match current {
                Ok(metadata) => if metadata@.has_bangumi_link() {
                    write == Err::<Vec<Link>, SyncError>(SyncError::RaceLost)
                } else {
                    write matches Ok(links) && link_views(links@) == metadata@.links.push(
                        subject_link(bgmid@),
                    )
                },
                Err(fault) => write == Err::<Vec<Link>, SyncError>(SyncError::of_fault(fault)),
            },
    {
        match current {
            Ok(metadata) => {
                if metadata.has_bangumi_link() {
                    Err(SyncError::RaceLost)
                } else {
                    let mut links = copy_links(&metadata.links);
                    links.push(Link::to_subject(bgmid));
                    assert(link_views(links@) =~= metadata@.links.push(subject_link(bgmid@)));
                    Ok(links)
                }
            },
            Err(fault) => Err(SyncError::from_fault(fault)),
        }
    }

    /// The address of each of `covers` of the series `id`, in order.
    fn removals(&self, id: &str, covers: &Vec<String>) -> (urls: Vec<String>)
        ensures
            texts(urls@) == removal_addresses(self.url@, id@, texts(covers@)),
    {
        let mut urls: Vec<String> = Vec::new();
        let mut i: usize = 0;
        while i < covers.len()
            invariant
                i <= covers.len(),
                urls@.len() == i,
                forall|k: int|
                    0 <= k < i ==> urls@[k]@ == thumbnails_address(self.url@, id@) + SEPARATOR@
                        + covers@[k]@,
            decreases covers.len() - i,
        {
            urls.push(self.thumbnails_url(id).concat(SEPARATOR).concat(covers[i].as_str()));
            i = i + 1;
        }
        assert(texts(urls@) =~= removal_addresses(self.url@, id@, texts(covers@)));
        urls
    }

    /// What is to be done to give the series `id` its new cover, given what
    /// the request for its covers and the download of the image came back
    /// with: the addresses of the covers to delete, in order, and then the
    /// upload. Where the image could not be had, nothing is deleted and
    /// nothing uploaded: the series keeps the covers it has. Where the covers
    /// could not be listed, none is deleted, and the image is uploaded.
    pub fn update_cover(
        &self,
        id: &str,
        listed: Result<Vec<String>, Fault>,
        image: Result<Vec<u8>, Fault>,
    ) -> (plan: (Vec<String>, Option<CoverUpload>))
        ensures
            texts(plan.0@) == planned_removals(self.url@, id@, listed, image),
            plan.1 is Some == image is Ok,
            image is Err ==> plan.0@.len() == 0,
            plan.1 matches Some(upload) ==> upload@ == planned_upload(
                self.url@,
                id@,
                image->Ok_0@,
            ),
    {
        match image {
            Ok(bytes) => {
                let urls = match listed {
                    Ok(covers) => self.removals(id, &covers),
                    Err(_) => Vec::new(),
                };
                assert(texts(urls@) =~= planned_removals(self.url@, id@, listed, image));
                let upload = CoverUpload {
                    url: self.thumbnails_url(id),
                    image: bytes,
                    file_name: String::from_str(COVER_FILE_NAME),
                    mime: String::from_str(COVER_MIME),
                    selected: true,
                };
                (urls, Some(upload))
            },
            Err(_) => {
                let urls: Vec<String> = Vec::new();
                assert(texts(urls@) =~= planned_removals(self.url@, id@, listed, image));
                (urls, None)
            },
        }
    }
}

} // verus!
