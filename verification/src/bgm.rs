//! The metadata provider: its records, how a search is resolved to one record,
//! and how a record becomes the metadata of a series.

use vstd::prelude::*;
use vstd::string::*;

use crate::config::Config;
use crate::fault::Fault;
use crate::komga::{
    AlternateTitle, AlternateTitleView, Metadata, MetadataView, PROCESSED_TAG, STATUS_ENDED,
    STATUS_ONGOING,
};
use crate::text::{decimal, integer_to_text, join_spaced, join_with_space, same_text, texts};

verus! {

/// Key of the fact that says a series has ended.
pub const ENDED_KEY: &'static str = "结束";

/// Key of the fact that names the publisher.
pub const PUBLISHER_KEY: &'static str = "出版社";

/// One element of a fact's value where the value is a list.
#[derive(Debug)]
pub struct ValueElement {
    pub v: String,
}

impl Clone for ValueElement {
    fn clone(&self) -> (copy: Self)
        ensures
            copy == *self,
    {
        ValueElement { v: self.v.clone() }
    }
}

/// The value of a fact: one text, or a list of elements that each hold one.
#[derive(Debug)]
pub enum ValueUnion {
    String(String),
    ValueElementArray(Vec<ValueElement>),
}

/// A fact's value as text or texts.
pub enum ValueUnionView {
    Text(Seq<char>),
    Parts(Seq<Seq<char>>),
}

/// The text of each element of `elements`, in order.
pub open spec fn element_texts(elements: Seq<ValueElement>) -> Seq<Seq<char>> {
    elements.map_values(|element: ValueElement| element.v@)
}

impl View for ValueUnion {
    type V = ValueUnionView;

    open spec fn view(&self) -> ValueUnionView {
        match self {
            ValueUnion::String(text) => ValueUnionView::Text(text@),
            ValueUnion::ValueElementArray(elements) => ValueUnionView::Parts(
                element_texts(elements@),
            ),
        }
    }
}

impl ValueUnionView {
    /// The value as one text: the text itself, or the elements' texts in
    /// order with a single space between neighbours.
    pub open spec fn resolved(self) -> Seq<char> {
        match self {
            ValueUnionView::Text(text) => text,
            ValueUnionView::Parts(parts) => join_spaced(parts),
        }
    }
}

impl ValueUnion {
    /// The value as one text.
    pub fn resolve(&self) -> (text: String)
        ensures
            text@ == self@.resolved(),
    {
        match self {
            ValueUnion::String(text) => text.clone(),
            ValueUnion::ValueElementArray(elements) => {
                let mut parts: Vec<String> = Vec::new();
                let mut i: usize = 0;
                while i < elements.len()
                    invariant
                        i <= elements.len(),
                        parts@.len() == i,
                        forall|k: int| 0 <= k < i ==> parts@[k]@ == elements@[k].v@,
                    decreases elements.len() - i,
                {
                    parts.push(elements[i].v.clone());
                    i = i + 1;
                }
                assert(texts(parts@) =~= element_texts(elements@));
                join_with_space(&parts)
            },
        }
    }
}

impl Clone for ValueUnion {
    fn clone(&self) -> (copy: Self)
        ensures
            copy@ == self@,
    {
        match self {
            ValueUnion::String(text) => ValueUnion::String(text.clone()),
            ValueUnion::ValueElementArray(elements) => {
                let mut copy: Vec<ValueElement> = Vec::new();
                let mut i: usize = 0;
                while i < elements.len()
                    invariant
                        i <= elements.len(),
                        copy@ == elements@.take(i as int),
                    decreases elements.len() - i,
                {
                    copy.push(elements[i].clone());
                    assert(copy@ =~= elements@.take(i + 1));
                    i = i + 1;
                }
                assert(elements@.take(elements.len() as int) =~= elements@);
                ValueUnion::ValueElementArray(copy)
            },
        }
    }
}

/// A fact of a record: a key and its value.
#[derive(Debug)]
pub struct Infobox {
    pub key: String,
    pub value: ValueUnion,
}

/// A fact as texts.
pub struct InfoboxView {
    pub key: Seq<char>,
    pub value: ValueUnionView,
}

impl View for Infobox {
    type V = InfoboxView;

    open spec fn view(&self) -> InfoboxView {
        InfoboxView { key: self.key@, value: self.value@ }
    }
}

/// A category that the provider files a record under.
#[derive(Debug)]
pub struct Tag {
    pub name: String,
}

/// The cover images of a record.
#[derive(Debug)]
pub struct Images {
    pub large: String,
}

/// A record of the provider, as its detail request returns it.
#[derive(Debug)]
pub struct Subject {
    pub images: Images,
    pub summary: String,
    pub tags: Vec<Tag>,
    pub infobox: Vec<Infobox>,
}

/// A record as texts.
pub struct SubjectView {
    pub cover: Seq<char>,
    pub summary: Seq<char>,
    pub tags: Seq<Seq<char>>,
    pub infobox: Seq<InfoboxView>,
}

/// The name of each tag of `tags`, in order.
pub open spec fn tag_names(tags: Seq<Tag>) -> Seq<Seq<char>> {
    tags.map_values(|tag: Tag| tag.name@)
}

/// The view of each fact of `rows`, in order.
pub open spec fn row_views(rows: Seq<Infobox>) -> Seq<InfoboxView> {
    rows.map_values(|row: Infobox| row@)
}

impl View for Subject {
    type V = SubjectView;

    open spec fn view(&self) -> SubjectView {
        SubjectView {
            cover: self.images.large@,
            summary: self.summary@,
            tags: tag_names(self.tags@),
            infobox: row_views(self.infobox@),
        }
    }
}

/// Whether one of `rows` has `key`.
pub open spec fn has_key(rows: Seq<InfoboxView>, key: Seq<char>) -> bool {
    exists|i: int| 0 <= i < rows.len() && (#[trigger] rows[i]).key == key
}

/// The value of the first of `rows` that has `key`, if one has.
pub open spec fn first_value(rows: Seq<InfoboxView>, key: Seq<char>) -> Option<ValueUnionView>
    decreases rows.len(),
{
    if rows.len() == 0 {
        None
    } else if rows[0].key == key {
        Some(rows[0].value)
    } else {
        first_value(rows.drop_first(), key)
    }
}

/// The alternate title that a fact gives: its key as the label, its value as
/// one text.
pub open spec fn title_of(row: InfoboxView) -> AlternateTitleView {
    AlternateTitleView { label: row.key, title: row.value.resolved() }
}

impl SubjectView {
    /// The status that the record gives a series: ended where a fact says so.
    pub open spec fn status(self) -> Seq<char> {
        if has_key(self.infobox, ENDED_KEY@) {
            STATUS_ENDED@
        } else {
            STATUS_ONGOING@
        }
    }

    /// The publisher that the record names, or the empty text.
    pub open spec fn publisher(self) -> Seq<char> {
        match first_value(self.infobox, PUBLISHER_KEY@) {
            Some(value) => value.resolved(),
            None => Seq::empty(),
        }
    }

    /// The metadata that the record gives a series. It carries no links, and
    /// its tags end in the tag that marks the series as enriched.
    pub open spec fn metadata(self) -> MetadataView {
        MetadataView {
            status: self.status(),
            summary: self.summary,
            publisher: self.publisher(),
            tags: self.tags.push(PROCESSED_TAG@),
            links: Seq::empty(),
            alternate_titles: self.infobox.map_values(|row: InfoboxView| title_of(row)),
        }
    }
}

impl Subject {
    /// Whether a fact of the record has `key`.
    fn has_fact(&self, key: &str) -> (found: bool)
        ensures
            found == has_key(self@.infobox, key@),
    {
        let mut i: usize = 0;
        while i < self.infobox.len()
            invariant
                i <= self.infobox.len(),
                forall|k: int| 0 <= k < i ==> (#[trigger] self@.infobox[k]).key != key@,
            decreases self.infobox.len() - i,
        {
            if same_text(self.infobox[i].key.as_str(), key) {
                assert(self@.infobox[i as int].key == key@);
                return true;
            }
            i = i + 1;
        }
        false
    }

    /// The value of the first fact that has `key`, if one has.
    fn fact(&self, key: &str) -> (found: Option<&ValueUnion>)
        ensures
            match found {
                Some(value) => first_value(self@.infobox, key@) == Some(value@),
                None => first_value(self@.infobox, key@) is None,
            },
    {
        let ghost rows = self@.infobox;
        proof {
            assert(rows.skip(0) =~= rows);
        }
        let mut i: usize = 0;
        while i < self.infobox.len()
            invariant
                i <= self.infobox.len(),
                rows == self@.infobox,
                first_value(rows, key@) == first_value(rows.skip(i as int), key@),
            decreases self.infobox.len() - i,
        {
            proof {
                assert(rows.skip(i as int)[0] == self.infobox@[i as int]@);
                assert(rows.skip(i as int).drop_first() =~= rows.skip(i + 1));
            }
            if same_text(self.infobox[i].key.as_str(), key) {
                return Some(&self.infobox[i].value);
            }
            i = i + 1;
        }
        None
    }

    /// The metadata that the record gives a series, and the address of its
    /// large cover image.
    pub fn to_metadata(&self) -> (result: (Metadata, String))
        ensures
            result.0@ == self@.metadata(),
            result.1@ == self@.cover,
    {
        let mut metadata = Metadata::new();
        if self.has_fact(ENDED_KEY) {
            metadata.status = String::from_str(STATUS_ENDED);
        }
        if !self.summary.as_str().is_empty() {
            metadata.summary = self.summary.clone();
        }
        match self.fact(PUBLISHER_KEY) {
            Some(value) => {
                metadata.publisher = value.resolve();
            },
            None => {},
        }

        let mut tags: Vec<String> = Vec::new();
        let mut i: usize = 0;
        while i < self.tags.len()
            invariant
                i <= self.tags.len(),
                tags@.len() == i,
                forall|k: int| 0 <= k < i ==> tags@[k]@ == self.tags@[k].name@,
            decreases self.tags.len() - i,
        {
            tags.push(self.tags[i].name.clone());
            i = i + 1;
        }
        tags.push(String::from_str(PROCESSED_TAG));
        metadata.tags = tags;

        let mut titles: Vec<AlternateTitle> = Vec::new();
        let mut j: usize = 0;
        while j < self.infobox.len()
            invariant
                j <= self.infobox.len(),
                titles@.len() == j,
                forall|k: int| 0 <= k < j ==> titles@[k]@ == title_of(self.infobox@[k]@),
            decreases self.infobox.len() - j,
        {
            let row = &self.infobox[j];
            titles.push(AlternateTitle { label: row.key.clone(), title: row.value.resolve() });
            j = j + 1;
        }
        metadata.alternate_titles = titles;

        proof {
            let want = self@.metadata();
            assert(metadata@.tags =~= want.tags);
            assert(metadata@.links =~= want.links);
            assert(metadata@.alternate_titles =~= want.alternate_titles);
            assert(metadata@.summary =~= want.summary);
        }
        (metadata, self.images.large.clone())
    }
}

/// What every request to the provider names itself as.
pub const USER_AGENT: &'static str = "TnZzZHlp/rkomga";

/// What the key is appended to for the value of the authorization header.
pub const BEARER_PREFIX: &'static str = "Bearer ";

/// The address of a search, up to the name that is searched for.
pub const SEARCH_URL_PREFIX: &'static str = "https://api.bgm.tv/search/subject/\"";

/// The rest of the address of a search: it asks for books only.
pub const SEARCH_URL_SUFFIX: &'static str = "\"?type=1";

/// What a record's identifier is appended to for the address of its detail.
pub const DETAIL_URL_PREFIX: &'static str = "https://api.bgm.tv/v0/subjects/";

/// One record that a search by name came back with.
#[derive(Debug)]
pub struct Candidate {
    pub id: i64,
    pub name: String,
    pub name_cn: String,
}

/// The identifier that a search resolves to: that of the first record found,
/// in decimal. A search that failed resolves to nothing, as does one that
/// found nothing.
pub open spec fn resolved_id(search: Result<Vec<Candidate>, Fault>) -> Option<Seq<char>> {
    match search {
        Ok(found) => if found@.len() > 0 {
            Some(decimal(found@[0].id as int))
        } else {
            None
        },
        Err(_) => None,
    }
}

/// Access to the provider.
#[derive(Debug)]
pub struct Bgm {
    pub api_key: String,
}

impl Bgm {
    /// Access to the provider with the key of `config`.
    pub fn new(config: &Config) -> (bgm: Bgm)
        ensures
            bgm.api_key@ == config.bgm_key@,
    {
        Bgm { api_key: config.bgm_key.clone() }
    }

    /// The value of the authorization header of every request.
    pub fn authorization(&self) -> (value: String)
        ensures
            value@ == BEARER_PREFIX@ + self.api_key@,
    {
        String::from_str(BEARER_PREFIX).concat(self.api_key.as_str())
    }

    /// The address that searches for records named `name`.
    pub fn search_url(name: &str) -> (url: String)
        ensures
            url@ == SEARCH_URL_PREFIX@ + name@ + SEARCH_URL_SUFFIX@,
    {
        String::from_str(SEARCH_URL_PREFIX).concat(name).concat(SEARCH_URL_SUFFIX)
    }

    /// The address of the detail of the record `id`.
    pub fn subject_url(id: &str) -> (url: String)
        ensures
            url@ == DETAIL_URL_PREFIX@ + id@,
    {
        String::from_str(DETAIL_URL_PREFIX).concat(id)
    }

    /// The identifier that a series is resolved to, given what the search for
    /// its name came back with. The first record found is the match. Why
    /// nothing was found is not told apart: the caller sees success or failure.
    pub fn search_subject(search: Result<Vec<Candidate>, Fault>) -> (id: Result<String, ()>)
        ensures
            match id {
                Ok(id) => resolved_id(search) == Some(id@),
                Err(_) => resolved_id(search) is None,
            },
    {
        match search {
            Ok(found) => {
                if found.len() > 0 {
                    Ok(integer_to_text(found[0].id))
                } else {
                    Err(())
                }
            },
            Err(_) => Err(()),
        }
    }

    /// The metadata and cover address for a series, given what the request for
    /// its record's detail came back with. A request that failed gives
    /// nothing, whatever the cause.
    pub fn get_subject(detail: Result<Subject, Fault>) -> (enriched: Result<(Metadata, String), ()>)
        ensures
            match enriched {
                Ok(pair) => detail matches Ok(subject) && pair.0@ == subject@.metadata() && pair.1@
                    == subject@.cover,
                Err(_) => detail is Err,
            },
    {
        match detail {
            Ok(subject) => Ok(subject.to_metadata()),
            Err(_) => Err(()),
        }
    }
}

/// A value that is one text resolves to that text.
pub proof fn lemma_text_resolves_to_itself(text: Seq<char>)
    ensures
        ValueUnionView::Text(text).resolved() == text,
{
}

/// A value of two elements resolves to their texts with one space between.
pub proof fn lemma_pair_resolves_spaced(first: Seq<char>, second: Seq<char>)
    ensures
        ValueUnionView::Parts(seq![first, second]).resolved() == first + seq![' '] + second,
{
    let parts = seq![first, second];
    assert(parts.drop_last() =~= seq![first]);
    assert(join_spaced(parts.drop_last()) == first);
}

/// One more element at the end of a list value adds a space and its text to
/// what the value resolves to.
pub proof fn lemma_resolved_grows(parts: Seq<Seq<char>>, last: Seq<char>)
    requires
        parts.len() > 0,
    ensures
        ValueUnionView::Parts(parts.push(last)).resolved() == ValueUnionView::Parts(
            parts,
        ).resolved() + seq![' '] + last,
{
    assert(parts.push(last).drop_last() =~= parts);
}

/// A record with a fact that says the series has ended gives the status
/// ended; any other record gives the status ongoing, which is that of blank
/// metadata.
pub proof fn lemma_status_follows_ended_fact(subject: SubjectView)
    ensures
        has_key(subject.infobox, ENDED_KEY@) ==> subject.metadata().status == STATUS_ENDED@,
        !has_key(subject.infobox, ENDED_KEY@) ==> subject.metadata().status == STATUS_ONGOING@
            && subject.metadata().status == MetadataView::blank().status,
{
}

} // verus!
