//! Qdrant payloads, filters and results, with the owner scoping that every
//! read and write of the vector store carries.

use vstd::prelude::*;

use crate::config::{opt_view, QdrantConfig};
use crate::identifiers::{new_uuid, uuid_v4_text};
use crate::json::{
    json_object, json_object_of, json_string, json_string_of, parse_string_object, string_object_of,
};
use crate::models::error::{AppError, AppErrorKind};
use crate::models::vectordb::DocumentContent;
use crate::string_map::{keys_of, map_of, pairs_of, StringMap};
use crate::text::{
    concat2, concat3, decimal, owned, owned_opt, str_eq, trim_char, trim_char_spec, u64_to_decimal,
    views,
};

verus! {

/// The payload key under which every point records the user who owns it.
pub open spec fn owner_payload_key() -> Seq<char> {
    "_owner_user_id"@
}

/// The payload key that holds the document itself, as JSON.
pub open spec fn document_key() -> Seq<char> {
    "document"@
}

/// Document data for storage.
#[derive(Debug, Clone)]
pub struct DocumentData {
    /// Document text content
    pub text: String,
    /// Optional document title
    pub title: Option<String>,
}

/// The members of the JSON object that stores a document: its text, then
/// its title when it has one.
pub open spec fn document_entries(text: Seq<char>, title: Option<Seq<char>>) -> Seq<
    (Seq<char>, Seq<char>),
> {
    seq![("text"@, text)] + match title {
        Some(t) => seq![("title"@, t)],
        None => Seq::<(Seq<char>, Seq<char>)>::empty(),
    }
}

/// The metadata of an optional map, empty when there is none.
pub open spec fn metadata_or_empty(metadata: Option<&StringMap>) -> Map<Seq<char>, Seq<char>> {
    match metadata {
        Some(m) => m@,
        None => Map::empty(),
    }
}

/// The payload of a stored point: the document's JSON under `document`,
/// then the metadata (values held as JSON text, and able to replace
/// `document`) without any owner entry, and last the owner.
pub open spec fn point_payload(
    text: Seq<char>,
    title: Option<Seq<char>>,
    metadata: Map<Seq<char>, Seq<char>>,
    owner: Seq<char>,
) -> Map<Seq<char>, Seq<char>> {
    Map::<Seq<char>, Seq<char>>::empty().insert(
        document_key(),
        json_object_of(document_entries(text, title)),
    ).union_prefer_right(metadata.remove(owner_payload_key())).insert(owner_payload_key(), owner)
}

/// The JSON text that stores a document.
fn document_json(doc: &DocumentData) -> (r: String)
    ensures
        r@ == json_object_of(document_entries(doc.text@, opt_view(doc.title))),
{
    let mut entries: Vec<(String, String)> = Vec::new();
    entries.push((owned("text"), owned(doc.text.as_str())));
    match &doc.title {
        Some(t) => entries.push((owned("title"), owned(t.as_str()))),
        None => {},
    }
    assert(pairs_of(entries@) =~= document_entries(doc.text@, opt_view(doc.title)));
    json_object(&entries)
}

/// The payload stored with a document: whatever the metadata holds, the
/// owner entry is the given user.
pub fn build_point_payload(doc: &DocumentData, metadata: Option<&StringMap>, owner_user_id: &str) -> (r:
    StringMap)
    requires
        metadata matches Some(m) ==> m.wf(),
    ensures
        r.wf(),
        r@ == point_payload(
            doc.text@,
            opt_view(doc.title),
            metadata_or_empty(metadata),
            owner_user_id@,
        ),
{
    let mut payload = StringMap::new();
    payload.insert(owned("document"), document_json(doc));
    let ghost base = payload@;
    match metadata {
        Some(m) => {
            let n = m.entries.len();
            for i in 0..n
                invariant
                    n == m.entries@.len(),
                    m.wf(),
                    payload.wf(),
                    payload@ == base.union_prefer_right(
                        map_of(m.pairs().take(i as int)).remove(owner_payload_key()),
                    ),
            {
                let ghost before = map_of(m.pairs().take(i as int));
                assert(m.pairs().take(i + 1).drop_last() =~= m.pairs().take(i as int));
                assert(map_of(m.pairs().take(i + 1)) == before.insert(
                    m.pairs()[i as int].0,
                    m.pairs()[i as int].1,
                ));
                if !str_eq(m.entries[i].0.as_str(), "_owner_user_id") {
                    payload.insert(owned(m.entries[i].0.as_str()), owned(m.entries[i].1.as_str()));
                    assert(payload@ =~= base.union_prefer_right(
                        map_of(m.pairs().take(i + 1)).remove(owner_payload_key()),
                    ));
                } else {
                    assert(map_of(m.pairs().take(i + 1)).remove(owner_payload_key()) =~= before.remove(
                        owner_payload_key(),
                    ));
                }
            }
            assert(m.pairs().take(n as int) =~= m.pairs());
        },
        None => {
            assert(base.union_prefer_right(Map::empty().remove(owner_payload_key())) =~= base);
        },
    }
    payload.insert(owned("_owner_user_id"), owned(owner_user_id));
    payload
}

/// Whatever metadata a document carries, the payload stored with it names
/// the given user as its owner.
pub proof fn payload_owner_is_caller(
    text: Seq<char>,
    title: Option<Seq<char>>,
    metadata: Map<Seq<char>, Seq<char>>,
    owner: Seq<char>,
)
    ensures
        point_payload(text, title, metadata, owner).contains_key(owner_payload_key()),
        point_payload(text, title, metadata, owner)[owner_payload_key()] == owner,
{
}

/// One condition of a Qdrant filter.
#[derive(Debug, Clone)]
pub enum FilterCondition {
    /// The payload field `key` holds exactly the keyword `value`.
    MatchKeyword { key: String, value: String },
    /// The point's id is one of `ids`.
    HasIds { ids: Vec<String> },
}

/// A filter condition as character sequences.
pub enum ConditionView {
    MatchKeyword(Seq<char>, Seq<char>),
    HasIds(Seq<Seq<char>>),
}

impl View for FilterCondition {
    type V = ConditionView;

    open spec fn view(&self) -> ConditionView {
        match self {
            FilterCondition::MatchKeyword { key, value } => ConditionView::MatchKeyword(key@, value@),
            FilterCondition::HasIds { ids } => ConditionView::HasIds(views(ids@)),
        }
    }
}

/// A filter whose conditions must all hold.
#[derive(Debug, Clone)]
pub struct QdrantFilter {
    pub must: Vec<FilterCondition>,
}

impl View for QdrantFilter {
    type V = Seq<ConditionView>;

    open spec fn view(&self) -> Seq<ConditionView> {
        self.must@.map_values(|c: FilterCondition| c@)
    }
}

/// The keyword conditions for the client's filter entries, in order: each
/// value with its surrounding quotes removed, any owner entry left out.
pub open spec fn param_conditions(params: Seq<(Seq<char>, Seq<char>)>) -> Seq<ConditionView>
    decreases params.len(),
{
    if params.len() == 0 {
        Seq::empty()
    } else {
        let rest = param_conditions(params.drop_last());
        let (k, v) = params.last();
        if k == owner_payload_key() {
            rest
        } else {
            rest.push(ConditionView::MatchKeyword(k, trim_char_spec(v, '"')))
        }
    }
}

/// The conditions of a search: the owner first, then the client's filter.
pub open spec fn search_conditions(owner: Seq<char>, params: Seq<(Seq<char>, Seq<char>)>) -> Seq<
    ConditionView,
> {
    seq![ConditionView::MatchKeyword(owner_payload_key(), owner)] + param_conditions(params)
}

/// The filter of a search: only points of the given user, further narrowed
/// by the client's metadata filter.
pub fn build_search_filter(owner_user_id: &str, filter_params: Option<&StringMap>) -> (r:
    QdrantFilter)
    ensures
        r@ == search_conditions(
            owner_user_id@,
            match filter_params {
                Some(p) => p.pairs(),
                None => Seq::empty(),
            },
        ),
{
    let mut must: Vec<FilterCondition> = Vec::new();
    must.push(
        FilterCondition::MatchKeyword { key: owned("_owner_user_id"), value: owned(owner_user_id) },
    );
    let ghost params = match filter_params {
        Some(p) => p.pairs(),
        None => Seq::empty(),
    };
    assert(params.take(0) =~= Seq::<(Seq<char>, Seq<char>)>::empty());
    match filter_params {
        Some(p) => {
            let n = p.entries.len();
            for i in 0..n
                invariant
                    n == p.entries@.len(),
                    params == p.pairs(),
                    must@.map_values(|c: FilterCondition| c@) == search_conditions(
                        owner_user_id@,
                        params.take(i as int),
                    ),
            {
                let ghost before = must@.map_values(|c: FilterCondition| c@);
                assert(params.take(i + 1).drop_last() =~= params.take(i as int));
                let key = p.entries[i].0.as_str();
                if !str_eq(key, "_owner_user_id") {
                    let value = trim_char(p.entries[i].1.as_str(), '"');
                    must.push(FilterCondition::MatchKeyword { key: owned(key), value });
                    assert(must@.map_values(|c: FilterCondition| c@) =~= before.push(
                        ConditionView::MatchKeyword(key@, value@),
                    ));
                }
                assert(must@.map_values(|c: FilterCondition| c@) =~= search_conditions(
                    owner_user_id@,
                    params.take(i + 1),
                ));
            }
            assert(params.take(n as int) =~= params);
        },
        None => {},
    }
    let r = QdrantFilter { must };
    assert(r@ =~= search_conditions(owner_user_id@, params));
    r
}

/// Every condition drawn from a client's filter matches a key other than
/// the owner key, and each entry of the filter under another key gives one.
pub proof fn lemma_param_conditions(params: Seq<(Seq<char>, Seq<char>)>)
    ensures
        forall|j: int|
            0 <= j < param_conditions(params).len() ==> (#[trigger] param_conditions(params)[j] matches ConditionView::MatchKeyword(
                k,
                _,
            ) && k != owner_payload_key()),
        forall|i: int|
            0 <= i < params.len() && (#[trigger] params[i]).0 != owner_payload_key() ==> exists|
                j: int,
            |
                0 <= j < param_conditions(params).len() && #[trigger] param_conditions(params)[j]
                    == ConditionView::MatchKeyword(params[i].0, trim_char_spec(params[i].1, '"')),
    decreases params.len(),
{
    if params.len() > 0 {
        let q = params.drop_last();
        lemma_param_conditions(q);
        let rest = param_conditions(q);
        assert forall|i: int|
            0 <= i < params.len() && (#[trigger] params[i]).0 != owner_payload_key() implies exists|
                j: int,
            |
                0 <= j < param_conditions(params).len() && #[trigger] param_conditions(params)[j]
                    == ConditionView::MatchKeyword(params[i].0, trim_char_spec(params[i].1, '"')) by {
            if i < params.len() - 1 {
                assert(q[i] == params[i]);
                let j = choose|j: int|
                    0 <= j < rest.len() && #[trigger] rest[j] == ConditionView::MatchKeyword(
                        q[i].0,
                        trim_char_spec(q[i].1, '"'),
                    );
                assert(param_conditions(params)[j] == rest[j]);
            } else {
                assert(param_conditions(params)[rest.len() as int] == ConditionView::MatchKeyword(
                    params[i].0,
                    trim_char_spec(params[i].1, '"'),
                ));
            }
        }
    }
}

/// A search filter always requires the caller's ownership first, and no
/// other condition mentions the owner key, so a client's filter can
/// neither drop nor replace the owner requirement; every other entry of the
/// client's filter is kept.
pub proof fn search_filter_scoped_to_owner(owner: Seq<char>, params: Seq<(Seq<char>, Seq<char>)>)
    ensures
        search_conditions(owner, params)[0] == ConditionView::MatchKeyword(
            owner_payload_key(),
            owner,
        ),
        forall|j: int|
            1 <= j < search_conditions(owner, params).len() ==> (#[trigger] search_conditions(
                owner,
                params,
            )[j] matches ConditionView::MatchKeyword(k, _) && k != owner_payload_key()),
        forall|i: int|
            0 <= i < params.len() && (#[trigger] params[i]).0 != owner_payload_key() ==> exists|
                j: int,
            |
                1 <= j < search_conditions(owner, params).len() && #[trigger] search_conditions(
                    owner,
                    params,
                )[j] == ConditionView::MatchKeyword(
                    params[i].0,
                    trim_char_spec(params[i].1, '"'),
                ),
{
    lemma_param_conditions(params);
    let s = search_conditions(owner, params);
    let pc = param_conditions(params);
    assert forall|j: int| 1 <= j < s.len() implies (#[trigger] s[j] matches ConditionView::MatchKeyword(
        k,
        _,
    ) && k != owner_payload_key()) by {
        assert(s[j] == pc[j - 1]);
    }
    assert forall|i: int|
        0 <= i < params.len() && (#[trigger] params[i]).0 != owner_payload_key() implies exists|
            j: int,
        |
            1 <= j < s.len() && #[trigger] s[j] == ConditionView::MatchKeyword(
                params[i].0,
                trim_char_spec(params[i].1, '"'),
            ) by {
        let j = choose|j: int|
            0 <= j < pc.len() && #[trigger] pc[j] == ConditionView::MatchKeyword(
                params[i].0,
                trim_char_spec(params[i].1, '"'),
            );
        assert(s[j + 1] == pc[j]);
    }
}

/// Whether a point with this id and payload meets a filter condition: a
/// keyword condition holds when the payload field is exactly that string,
/// an id condition when the point's id is one of the ids.
pub open spec fn condition_holds(
    c: ConditionView,
    id: Seq<char>,
    payload: Map<Seq<char>, Seq<char>>,
) -> bool {
    match c {
        ConditionView::MatchKeyword(k, v) => payload.contains_key(k) && payload[k] == v,
        ConditionView::HasIds(ids) => ids.contains(id),
    }
}

/// Whether a point meets every condition of a filter.
pub open spec fn filter_admits(
    conditions: Seq<ConditionView>,
    id: Seq<char>,
    payload: Map<Seq<char>, Seq<char>>,
) -> bool {
    forall|i: int| 0 <= i < conditions.len() ==> condition_holds(#[trigger] conditions[i], id, payload)
}

/// A point that a search filter admits belongs to the searching user,
/// whatever the client's filter holds.
pub proof fn search_admits_only_owned_points(
    owner: Seq<char>,
    params: Seq<(Seq<char>, Seq<char>)>,
    id: Seq<char>,
    payload: Map<Seq<char>, Seq<char>>,
)
    requires
        filter_admits(search_conditions(owner, params), id, payload),
    ensures
        payload.contains_key(owner_payload_key()),
        payload[owner_payload_key()] == owner,
{
    assert(condition_holds(search_conditions(owner, params)[0], id, payload));
}

/// A point that a deletion filter admits belongs to the deleting user and
/// has one of the given ids.
pub proof fn delete_admits_only_owned_points(
    owner: Seq<char>,
    ids: Seq<Seq<char>>,
    id: Seq<char>,
    payload: Map<Seq<char>, Seq<char>>,
)
    requires
        filter_admits(
            seq![ConditionView::MatchKeyword(owner_payload_key(), owner), ConditionView::HasIds(ids)],
            id,
            payload,
        ),
    ensures
        payload.contains_key(owner_payload_key()),
        payload[owner_payload_key()] == owner,
        ids.contains(id),
{
    let c = seq![ConditionView::MatchKeyword(owner_payload_key(), owner), ConditionView::HasIds(ids)];
    assert(condition_holds(c[0], id, payload));
    assert(condition_holds(c[1], id, payload));
}

/// The filter of a deletion: only points of the given user with one of the
/// given ids.
pub fn build_delete_filter(owner_user_id: &str, ids: &Vec<String>) -> (r: QdrantFilter)
    ensures
        r@ == seq![
            ConditionView::MatchKeyword(owner_payload_key(), owner_user_id@),
            ConditionView::HasIds(views(ids@)),
        ],
{
    let mut copied: Vec<String> = Vec::new();
    let n = ids.len();
    for i in 0..n
        invariant
            n == ids@.len(),
            copied@.len() == i,
            views(copied@) == views(ids@).take(i as int),
    {
        let ghost before = copied@;
        copied.push(owned(ids[i].as_str()));
        assert forall|j: int| 0 <= j < i implies #[trigger] views(copied@)[j] == views(ids@)[j] by {
            assert(copied@[j] == before[j]);
            assert(views(before)[j] == views(ids@).take(i as int)[j]);
        }
        assert(views(copied@) =~= views(ids@).take(i + 1));
    }
    assert(views(ids@).take(n as int) =~= views(ids@));
    let mut must: Vec<FilterCondition> = Vec::new();
    must.push(
        FilterCondition::MatchKeyword { key: owned("_owner_user_id"), value: owned(owner_user_id) },
    );
    must.push(FilterCondition::HasIds { ids: copied });
    let r = QdrantFilter { must };
    assert(r@ =~= seq![
        ConditionView::MatchKeyword(owner_payload_key(), owner_user_id@),
        ConditionView::HasIds(views(ids@)),
    ]);
    r
}

/// A payload entry as read back from the store: its key, and its value
/// when the value is a string.
pub open spec fn entry_view(e: (String, Option<String>)) -> (Seq<char>, Option<Seq<char>>) {
    (e.0@, opt_view(e.1))
}

/// The entries of a payload as read back from the store.
pub open spec fn entries_view(v: Seq<(String, Option<String>)>) -> Seq<(Seq<char>, Option<Seq<char>>)> {
    v.map_values(|e: (String, Option<String>)| entry_view(e))
}

/// The metadata of a payload read back from the store: every string value,
/// held as the JSON text of that string, except the owner entry.
pub open spec fn metadata_of(p: Seq<(Seq<char>, Option<Seq<char>>)>) -> Map<Seq<char>, Seq<char>>
    decreases p.len(),
{
    if p.len() == 0 {
        Map::empty()
    } else {
        let rest = metadata_of(p.drop_last());
        let (k, v) = p.last();
        if k == owner_payload_key() || v is None {
            rest
        } else {
            rest.insert(k, json_string_of(v->0))
        }
    }
}

/// The metadata returned for a point: the owner entry is never among it.
pub fn metadata_from_payload(payload: &Vec<(String, Option<String>)>) -> (r: StringMap)
    ensures
        r.wf(),
        r@ == metadata_of(entries_view(payload@)),
{
    let mut out = StringMap::new();
    let n = payload.len();
    let ghost p = entries_view(payload@);
    for i in 0..n
        invariant
            n == payload@.len(),
            p == entries_view(payload@),
            out.wf(),
            out@ == metadata_of(p.take(i as int)),
    {
        assert(p.take(i + 1).drop_last() =~= p.take(i as int));
        let key = payload[i].0.as_str();
        if !str_eq(key, "_owner_user_id") {
            match &payload[i].1 {
                Some(s) => {
                    out.insert(owned(key), json_string(s.as_str()));
                },
                None => {},
            }
        }
    }
    assert(p.take(n as int) =~= p);
    out
}

/// No metadata read back from the store holds the owner key.
pub proof fn metadata_never_holds_owner(p: Seq<(Seq<char>, Option<Seq<char>>)>)
    ensures
        !metadata_of(p).contains_key(owner_payload_key()),
    decreases p.len(),
{
    if p.len() > 0 {
        metadata_never_holds_owner(p.drop_last());
    }
}

/// Which point a search hit is: its UUID, its number, or nothing.
#[derive(Debug, Clone)]
pub enum PointKey {
    Uuid(String),
    Num(u64),
    Missing,
}

/// The id text of a point: the UUID, the number in decimal, or empty.
pub open spec fn point_key_text(k: PointKey) -> Seq<char> {
    match k {
        PointKey::Uuid(u) => u@,
        PointKey::Num(n) => decimal(n as nat),
        PointKey::Missing => Seq::empty(),
    }
}

/// A point returned by a search, apart from its score: its id, and its
/// payload entries, each value given when it is a string.
pub struct ScoredPayload {
    pub id: PointKey,
    pub payload: Vec<(String, Option<String>)>,
}

/// A search result apart from its score.
pub struct SearchHit {
    pub id: String,
    pub document: DocumentContent,
    pub metadata: StringMap,
}

/// The payload entries other than the document, in order.
pub open spec fn non_document(p: Seq<(Seq<char>, Option<Seq<char>>)>) -> Seq<
    (Seq<char>, Option<Seq<char>>),
>
    decreases p.len(),
{
    if p.len() == 0 {
        Seq::empty()
    } else {
        let rest = non_document(p.drop_last());
        if p.last().0 == document_key() {
            rest
        } else {
            rest.push(p.last())
        }
    }
}

/// The text and title read from a document's JSON, over what was read
/// before: the text when the JSON has one, and the JSON's title (none when
/// it has none); nothing changes when the JSON is not an object of strings.
pub open spec fn document_update(before: (Seq<char>, Option<Seq<char>>), json: Seq<char>) -> (
    Seq<char>,
    Option<Seq<char>>,
) {
    match string_object_of(json) {
        Some(members) => {
            let m = map_of(members);
            (
                if m.contains_key("text"@) {
                    m["text"@]
                } else {
                    before.0
                },
                if m.contains_key("title"@) {
                    Some(m["title"@])
                } else {
                    None
                },
            )
        },
        None => before,
    }
}

/// The text and title that a payload's `document` entries record (empty
/// text and no title when there is none).
pub open spec fn document_of(p: Seq<(Seq<char>, Option<Seq<char>>)>) -> (Seq<char>, Option<Seq<char>>)
    decreases p.len(),
{
    if p.len() == 0 {
        (Seq::empty(), None)
    } else {
        let rest = document_of(p.drop_last());
        let (k, v) = p.last();
        if k == document_key() && v is Some {
            document_update(rest, v->0)
        } else {
            rest
        }
    }
}

/// `hit` is what a search reports for `point`: its id text, the document
/// its payload records, and the rest of the payload as metadata.
pub open spec fn hit_of(point: ScoredPayload, hit: SearchHit) -> bool {
    let p = entries_view(point.payload@);
    &&& hit.id@ == point_key_text(point.id)
    &&& hit.document.text@ == document_of(p).0
    &&& opt_view(hit.document.title) == document_of(p).1
    &&& hit.metadata.wf()
    &&& hit.metadata@ == metadata_of(non_document(p))
}

/// A hit names the point it reports: the point's UUID text unchanged, or
/// its number in decimal, so the id can be used to delete that point.
pub proof fn hit_id_names_the_point(point: ScoredPayload, hit: SearchHit)
    requires
        hit_of(point, hit),
    ensures
        point.id matches PointKey::Uuid(u) ==> hit.id@ == u@,
        point.id matches PointKey::Num(n) ==> hit.id@ == decimal(n as nat),
        point.id is Missing ==> hit.id@.len() == 0,
{
}

/// The result reported for one point of a search.
pub fn search_hit(point: &ScoredPayload) -> (r: SearchHit)
    ensures
        hit_of(*point, r),
        point.id matches PointKey::Uuid(u) ==> r.id@ == u@,
        point.id matches PointKey::Num(n) ==> r.id@ == decimal(n as nat),
        point.id is Missing ==> r.id@.len() == 0,
{
    let id = match &point.id {
        PointKey::Uuid(u) => owned(u.as_str()),
        PointKey::Num(n) => u64_to_decimal(*n),
        PointKey::Missing => String::new(),
    };
    let mut text = String::new();
    let mut title: Option<String> = None;
    let mut rest: Vec<(String, Option<String>)> = Vec::new();
    let n = point.payload.len();
    let ghost p = entries_view(point.payload@);
    assert(p.take(0) =~= Seq::<(Seq<char>, Option<Seq<char>>)>::empty());
    assert(entries_view(rest@) =~= Seq::<(Seq<char>, Option<Seq<char>>)>::empty());
    for i in 0..n
        invariant
            n == point.payload@.len(),
            p == entries_view(point.payload@),
            (text@, opt_view(title)) == document_of(p.take(i as int)),
            entries_view(rest@) == non_document(p.take(i as int)),
    {
        assert(p.take(i + 1).drop_last() =~= p.take(i as int));
        assert(p.take(i + 1).last() == p[i as int]);
        let key = point.payload[i].0.as_str();
        if str_eq(key, "document") {
            match &point.payload[i].1 {
                Some(s) => match parse_string_object(s.as_str()) {
                    Some(entries) => {
                        let fields = StringMap { entries };
                        match fields.get("text") {
                            Some(t) => {
                                text = owned(t.as_str());
                            },
                            None => {},
                        }
                        title =
                        match fields.get("title") {
                            Some(t) => Some(owned(t.as_str())),
                            None => None,
                        };
                    },
                    None => {},
                },
                None => {},
            }
        } else {
            let ghost before = rest@;
            rest.push((owned(key), owned_opt(&point.payload[i].1)));
            assert(entries_view(rest@) =~= entries_view(before).push(p[i as int]));
        }
    }
    assert(p.take(n as int) =~= p);
    let metadata = metadata_from_payload(&rest);
    SearchHit { id, document: DocumentContent { text, title }, metadata }
}

/// The metadata returned with a search hit never holds the owner key.
pub proof fn search_hit_hides_owner(point: ScoredPayload, hit: SearchHit)
    requires
        hit_of(point, hit),
    ensures
        !hit.metadata@.contains_key(owner_payload_key()),
{
    metadata_never_holds_owner(non_document(entries_view(point.payload@)));
}

/// The entries of a stored payload as a search reads them back: every value
/// is a string.
pub open spec fn as_read(p: Seq<(Seq<char>, Seq<char>)>) -> Seq<(Seq<char>, Option<Seq<char>>)> {
    p.map_values(|e: (Seq<char>, Seq<char>)| (e.0, Some(e.1)))
}

proof fn lemma_metadata_read_back(p: Seq<(Seq<char>, Seq<char>)>)
    ensures
        metadata_of(non_document(as_read(p))) == map_of(p).remove(owner_payload_key()).remove(
            document_key(),
        ).map_values(|v: Seq<char>| json_string_of(v)),
    decreases p.len(),
{
    let f = |v: Seq<char>| json_string_of(v);
    if p.len() == 0 {
        assert(as_read(p) =~= Seq::empty());
        assert(map_of(p).remove(owner_payload_key()).remove(document_key()).map_values(f)
            =~= Map::empty());
    } else {
        let q = p.drop_last();
        lemma_metadata_read_back(q);
        assert(as_read(p).drop_last() =~= as_read(q));
        let (k, v) = p.last();
        assert(as_read(p).last() == (k, Some(v)));
        if k != document_key() {
            assert(non_document(as_read(p)).drop_last() =~= non_document(as_read(q)));
        }
        assert(metadata_of(non_document(as_read(p))) =~= map_of(p).remove(owner_payload_key()).remove(
            document_key(),
        ).map_values(f));
    }
}

proof fn lemma_document_read_back(p: Seq<(Seq<char>, Seq<char>)>)
    requires
        keys_of(p).no_duplicates(),
    ensures
        document_of(as_read(p)) == if map_of(p).contains_key(document_key()) {
            document_update((Seq::empty(), None), map_of(p)[document_key()])
        } else {
            (Seq::<char>::empty(), None::<Seq<char>>)
        },
    decreases p.len(),
{
    if p.len() > 0 {
        let q = p.drop_last();
        assert(keys_of(q) =~= keys_of(p).drop_last());
        lemma_document_read_back(q);
        assert(as_read(p).drop_last() =~= as_read(q));
        let (k, v) = p.last();
        assert(as_read(p).last() == (k, Some(v)));
        if k == document_key() {
            crate::string_map::lemma_map_of_dom(q, k);
            assert forall|i: int| 0 <= i < q.len() implies (#[trigger] q[i]).0 != k by {
                assert(keys_of(p)[i] == q[i].0);
                assert(keys_of(p)[p.len() - 1] == k);
            }
        }
    }
}

/// What a search returns of a stored point: the metadata that was stored
/// (its values as JSON strings), without the owner entry, and the document
/// as read from the JSON that was stored for it. This holds when the
/// metadata has no `document` entry, which would replace the stored
/// document.
pub proof fn stored_point_reads_back(
    text: Seq<char>,
    title: Option<Seq<char>>,
    metadata: Map<Seq<char>, Seq<char>>,
    owner: Seq<char>,
    stored: Seq<(Seq<char>, Seq<char>)>,
    point: ScoredPayload,
    hit: SearchHit,
)
    requires
        keys_of(stored).no_duplicates(),
        map_of(stored) == point_payload(text, title, metadata, owner),
        !metadata.contains_key(document_key()),
        entries_view(point.payload@) == as_read(stored),
        hit_of(point, hit),
    ensures
        (hit.document.text@, opt_view(hit.document.title)) == document_update(
            (Seq::empty(), None),
            json_object_of(document_entries(text, title)),
        ),
        hit.metadata@ == metadata.remove(owner_payload_key()).map_values(
            |v: Seq<char>| json_string_of(v),
        ),
{
    reveal_strlit("document");
    reveal_strlit("_owner_user_id");
    assert(document_key() != owner_payload_key()) by {
        assert(document_key()[0] != owner_payload_key()[0]);
    }
    lemma_metadata_read_back(stored);
    lemma_document_read_back(stored);
    let payload = point_payload(text, title, metadata, owner);
    assert(payload.contains_key(document_key()));
    assert(payload[document_key()] == json_object_of(document_entries(text, title)));
    assert(payload.remove(owner_payload_key()).remove(document_key()) =~= metadata.remove(
        owner_payload_key(),
    ));
}

/// An error reported by the vector store, with what was being done.
fn store_error(context: &str, detail: &str) -> (r: AppError)
    ensures
        r.is(AppErrorKind::ExternalService, context@ + ": "@ + detail@),
{
    AppError::ExternalService(concat3(context, ": ", detail))
}

/// The answer to a search: a hit for each point, in order, or the store's
/// failure.
pub fn search_outcome(reply: Result<Vec<ScoredPayload>, String>) -> (r: Result<Vec<SearchHit>, AppError>)
    ensures
        match reply {
            Ok(points) => r matches Ok(hits) && hits@.len() == points@.len() && forall|i: int|
                0 <= i < hits@.len() ==> hit_of(#[trigger] points@[i], hits@[i]),
            Err(e) => r matches Err(err) && err.is(
                AppErrorKind::ExternalService,
                "Search failed"@ + ": "@ + e@,
            ),
        },
{
    match reply {
        Ok(points) => {
            let mut hits: Vec<SearchHit> = Vec::new();
            let n = points.len();
            for i in 0..n
                invariant
                    n == points@.len(),
                    hits@.len() == i,
                    forall|j: int| 0 <= j < i ==> hit_of(#[trigger] points@[j], hits@[j]),
            {
                hits.push(search_hit(&points[i]));
            }
            Ok(hits)
        },
        Err(e) => Err(store_error("Search failed", e.as_str())),
    }
}

/// The external type of a connected Qdrant client.
#[verifier::external_type_specification]
#[verifier::external_body]
pub struct ExQdrant(qdrant_client::Qdrant);

/// Where and how to connect to Qdrant.
pub struct QdrantConnection {
    pub url: String,
    pub api_key: Option<String>,
    /// Whether the URL was configured (else the local default is used).
    pub configured: bool,
}

impl QdrantConnection {
    /// The error reported when the client cannot be built.
    pub fn build_error(&self, detail: &str) -> (r: AppError)
        ensures
            self.configured ==> r.is(
                AppErrorKind::Configuration,
                "Failed to connect to Qdrant: "@ + detail@,
            ),
            !self.configured ==> r.is(
                AppErrorKind::Configuration,
                "Failed to create Qdrant client: "@ + detail@,
            ),
    {
        if self.configured {
            AppError::Configuration(concat2("Failed to connect to Qdrant: ", detail))
        } else {
            AppError::Configuration(concat2("Failed to create Qdrant client: ", detail))
        }
    }
}

/// What is stored for a batch of documents: the vector size of the
/// collection, a fresh id and a payload for each document.
pub struct AddPlan {
    pub vector_size: u64,
    pub ids: Vec<String>,
    pub payloads: Vec<StringMap>,
}

/// The `i`-th document is stored with the `i`-th metadata map, or with no
/// metadata when the list is absent or shorter.
pub proof fn metadata_at_is_the_documents_own(metadata: Option<&Vec<StringMap>>, i: int)
    requires
        0 <= i,
    ensures
        metadata matches Some(ms) ==> (i < ms@.len() ==> metadata_at(metadata, i) == ms@[i]@),
        metadata matches Some(ms) ==> (i >= ms@.len() ==> metadata_at(metadata, i) == Map::<
            Seq<char>,
            Seq<char>,
        >::empty()),
        metadata is None ==> metadata_at(metadata, i) == Map::<Seq<char>, Seq<char>>::empty(),
{
}

/// A stored payload keeps every metadata entry under its own key, except
/// an owner entry, and an entry named `document`, which replaces the
/// document's JSON.
pub proof fn payload_keeps_metadata(
    text: Seq<char>,
    title: Option<Seq<char>>,
    metadata: Map<Seq<char>, Seq<char>>,
    owner: Seq<char>,
    key: Seq<char>,
)
    requires
        metadata.contains_key(key),
        key != owner_payload_key(),
    ensures
        point_payload(text, title, metadata, owner).contains_key(key),
        point_payload(text, title, metadata, owner)[key] == metadata[key],
{
}

/// Without a `document` entry in the metadata, the payload stores the
/// document's JSON under `document`, and it holds no key beyond the
/// metadata's, `document` and the owner key.
pub proof fn payload_holds_document_and_nothing_else(
    text: Seq<char>,
    title: Option<Seq<char>>,
    metadata: Map<Seq<char>, Seq<char>>,
    owner: Seq<char>,
    key: Seq<char>,
)
    requires
        !metadata.contains_key(document_key()),
    ensures
        point_payload(text, title, metadata, owner).contains_key(document_key()),
        point_payload(text, title, metadata, owner)[document_key()] == json_object_of(
            document_entries(text, title),
        ),
        point_payload(text, title, metadata, owner).contains_key(key) ==> (metadata.contains_key(key)
            || key == document_key() || key == owner_payload_key()),
{
    reveal_strlit("document");
    reveal_strlit("_owner_user_id");
    assert(document_key()[0] != owner_payload_key()[0]);
}

/// The metadata given for the `i`-th document, empty when none is.
pub open spec fn metadata_at(metadata: Option<&Vec<StringMap>>, i: int) -> Map<Seq<char>, Seq<char>> {
    match metadata {
        Some(ms) => if 0 <= i < ms@.len() {
            ms@[i]@
        } else {
            Map::empty()
        },
        None => Map::empty(),
    }
}

/// The message of a batch whose documents and embeddings differ in number.
pub open spec fn count_mismatch_message(documents: nat, embeddings: nat) -> Seq<char> {
    "Number of documents ("@ + decimal(documents) + ") must match number of embeddings ("@
        + decimal(embeddings) + ")"@
}

/// The reply to a step of making sure the collection exists: the names of
/// the existing collections, or the outcome of creating it (or why the call
/// failed).
pub enum CollectionReply {
    Listed(Result<Vec<String>, String>),
    Created(Result<(), String>),
}

/// What to do next to make sure the collection exists.
pub enum CollectionAction {
    /// Create the collection.
    Create,
    /// Stop, with this outcome.
    Finish(Result<(), AppError>),
}

/// Service for interacting with the Qdrant vector database.
pub struct QdrantService {
    client: qdrant_client::Qdrant,
    collection_name: String,
}

impl QdrantService {
    /// The collection that holds the documents.
    pub closed spec fn collection(&self) -> Seq<char> {
        self.collection_name@
    }

    /// The client the service talks to Qdrant through.
    pub closed spec fn connected_client(&self) -> qdrant_client::Qdrant {
        self.client
    }

    /// The connection to make: the configured URL with its API key, or,
    /// when no URL is configured, the local default without one.
    pub fn connection(config: &QdrantConfig) -> (r: QdrantConnection)
        ensures
            match config.url {
                Some(u) => r.url@ == u@ && opt_view(r.api_key) == opt_view(config.api_key)
                    && r.configured,
                None => r.url@ == "http://localhost:6334"@ && r.api_key is None && !r.configured,
            },
    {
        match &config.url {
            Some(u) => QdrantConnection {
                url: owned(u.as_str()),
                api_key: owned_opt(&config.api_key),
                configured: true,
            },
            None => QdrantConnection {
                url: owned("http://localhost:6334"),
                api_key: None,
                configured: false,
            },
        }
    }

    /// The service over a connected client, for the configured collection.
    pub fn new(client: qdrant_client::Qdrant, config: &QdrantConfig) -> (r: QdrantService)
        ensures
            r.collection() == config.collection_name@,
            r.connected_client() == client,
    {
        QdrantService { client, collection_name: owned(config.collection_name.as_str()) }
    }

    /// The connected client: the one the service was made with.
    pub fn client(&self) -> (r: &qdrant_client::Qdrant)
        ensures
            *r == self.connected_client(),
    {
        &self.client
    }

    /// The name of the collection.
    pub fn collection_name(&self) -> (r: &str)
        ensures
            r@ == self.collection(),
    {
        self.collection_name.as_str()
    }

    /// Whether the collection must be created, given the names of the
    /// existing collections (or the failure to list them).
    pub fn collection_missing(&self, listed: Result<Vec<String>, String>) -> (r: Result<bool, AppError>)
        ensures
            match listed {
                Ok(names) => r == Ok::<bool, AppError>(
                    !(exists|i: int| 0 <= i < names@.len() && (#[trigger] names@[i])@ == self.collection()),
                ),
                Err(e) => r matches Err(err) && err.is(
                    AppErrorKind::ExternalService,
                    "Failed to list collections"@ + ": "@ + e@,
                ),
            },
    {
        match listed {
            Ok(names) => {
                let n = names.len();
                let mut found = false;
                for i in 0..n
                    invariant
                        n == names@.len(),
                        found == exists|j: int| 0 <= j < i && (#[trigger] names@[j])@ == self.collection(),
                {
                    if str_eq(names[i].as_str(), self.collection_name.as_str()) {
                        found = true;
                    }
                    assert(found == exists|j: int| 0 <= j < i + 1 && (#[trigger] names@[j])@ == self.collection()) by {
                        if (names@[i as int])@ == self.collection() {
                            assert(names@[i as int]@ == self.collection());
                        }
                    }
                }
                Ok(!found)
            },
            Err(e) => Err(store_error("Failed to list collections", e.as_str())),
        }
    }

    /// The next step of making sure the collection exists, given the reply
    /// to the current one: after the listing, create the collection when it
    /// is missing and otherwise finish; after the creation, finish.
    pub fn ensure_collection_step(&self, reply: CollectionReply) -> (r: CollectionAction)
        ensures
            match reply {
                CollectionReply::Listed(Ok(names)) => if exists|i: int|
                    0 <= i < names@.len() && (#[trigger] names@[i])@ == self.collection() {
                    r matches CollectionAction::Finish(Ok(()))
                } else {
                    r is Create
                },
                CollectionReply::Listed(Err(e)) => r matches CollectionAction::Finish(Err(err))
                    && err.is(AppErrorKind::ExternalService, "Failed to list collections"@ + ": "@ + e@),
                CollectionReply::Created(Ok(_)) => r matches CollectionAction::Finish(Ok(())),
                CollectionReply::Created(Err(e)) => r matches CollectionAction::Finish(Err(err))
                    && err.is(AppErrorKind::ExternalService, "Failed to create collection"@ + ": "@ + e@),
            },
    {
        match reply {
            CollectionReply::Listed(listed) => match self.collection_missing(listed) {
                Ok(true) => CollectionAction::Create,
                Ok(false) => CollectionAction::Finish(Ok(())),
                Err(e) => CollectionAction::Finish(Err(e)),
            },
            CollectionReply::Created(created) => CollectionAction::Finish(
                Self::collection_created(created),
            ),
        }
    }

    /// The answer to creating the collection.
    pub fn collection_created(reply: Result<(), String>) -> (r: Result<(), AppError>)
        ensures
            match reply {
                Ok(_) => r is Ok,
                Err(e) => r matches Err(err) && err.is(
                    AppErrorKind::ExternalService,
                    "Failed to create collection"@ + ": "@ + e@,
                ),
            },
    {
        match reply {
            Ok(()) => Ok(()),
            Err(e) => Err(store_error("Failed to create collection", e.as_str())),
        }
    }

    /// What to store for a batch of documents with embeddings of the given
    /// lengths: one embedding per document, at least one document; each
    /// document gets a fresh id and a payload owned by `owner_user_id`.
    pub fn plan_add_documents(
        &self,
        owner_user_id: &str,
        documents: &Vec<DocumentData>,
        embedding_lens: &Vec<usize>,
        metadata: Option<&Vec<StringMap>>,
    ) -> (r: Result<AddPlan, AppError>)
        requires
            metadata matches Some(ms) ==> forall|i: int| 0 <= i < ms@.len() ==> (#[trigger] ms@[i]).wf(),
        ensures
            documents@.len() != embedding_lens@.len() ==> (r matches Err(err) && err.is(
                AppErrorKind::BadRequest,
                count_mismatch_message(documents@.len(), embedding_lens@.len()),
            )),
            documents@.len() == embedding_lens@.len() && documents@.len() == 0 ==> (r matches Err(
                err,
            ) && err.is(AppErrorKind::BadRequest, "No documents provided"@)),
            documents@.len() == embedding_lens@.len() && documents@.len() > 0 ==> (r matches Ok(
                plan,
            ) && plan.vector_size == embedding_lens@[0] && plan.ids@.len() == documents@.len()
                && plan.payloads@.len() == documents@.len() && forall|i: int|
                0 <= i < documents@.len() ==> uuid_v4_text((#[trigger] plan.ids@[i])@)
                    && plan.payloads@[i].wf() && plan.payloads@[i]@ == point_payload(
                    documents@[i].text@,
                    opt_view(documents@[i].title),
                    metadata_at(metadata, i),
                    owner_user_id@,
                )),
            r matches Ok(plan) ==> (metadata matches Some(ms) ==> forall|i: int|
                0 <= i < documents@.len() && i < ms@.len() ==> (#[trigger] plan.payloads@[i])@
                    == point_payload(
                    documents@[i].text@,
                    opt_view(documents@[i].title),
                    ms@[i]@,
                    owner_user_id@,
                )),
            r matches Ok(plan) ==> forall|i: int|
                0 <= i < documents@.len() && match metadata {
                    Some(ms) => i >= ms@.len(),
                    None => true,
                } ==> (#[trigger] plan.payloads@[i])@ == point_payload(
                    documents@[i].text@,
                    opt_view(documents@[i].title),
                    Map::empty(),
                    owner_user_id@,
                ),
    {
        if documents.len() != embedding_lens.len() {
            let d = u64_to_decimal(documents.len() as u64);
            let e = u64_to_decimal(embedding_lens.len() as u64);
            let head = concat3("Number of documents (", d.as_str(), ") must match number of embeddings (");
            return Err(AppError::BadRequest(concat3(head.as_str(), e.as_str(), ")")));
        }
        if documents.len() == 0 {
            return Err(AppError::BadRequest(owned("No documents provided")));
        }
        let vector_size: u64 = if embedding_lens.len() > 0 {
            embedding_lens[0] as u64
        } else {
            1536
        };
        let n = documents.len();
        let mut ids: Vec<String> = Vec::new();
        let mut payloads: Vec<StringMap> = Vec::new();
        for i in 0..n
            invariant
                n == documents@.len(),
                metadata matches Some(ms) ==> forall|j: int| 0 <= j < ms@.len() ==> (#[trigger] ms@[j]).wf(),
                ids@.len() == i,
                payloads@.len() == i,
                forall|j: int| 0 <= j < i ==> uuid_v4_text((#[trigger] ids@[j])@),
                forall|j: int|
                    0 <= j < i ==> (#[trigger] payloads@[j]).wf() && payloads@[j]@ == point_payload(
                        documents@[j].text@,
                        opt_view(documents@[j].title),
                        metadata_at(metadata, j),
                        owner_user_id@,
                    ),
        {
            let meta: Option<&StringMap> = match metadata {
                Some(ms) => if i < ms.len() {
                    Some(&ms[i])
                } else {
                    None
                },
                None => None,
            };
            assert(metadata_or_empty(meta) == metadata_at(metadata, i as int));
            ids.push(new_uuid());
            payloads.push(build_point_payload(&documents[i], meta, owner_user_id));
        }
        Ok(AddPlan { vector_size, ids, payloads })
    }

    /// The answer to storing a batch: its ids, or the store's failure.
    pub fn documents_added(reply: Result<(), String>, ids: Vec<String>) -> (r: Result<Vec<String>, AppError>)
        ensures
            match reply {
                Ok(_) => r == Ok::<Vec<String>, AppError>(ids),
                Err(e) => r matches Err(err) && err.is(
                    AppErrorKind::ExternalService,
                    "Failed to add documents"@ + ": "@ + e@,
                ),
            },
    {
        match reply {
            Ok(()) => Ok(ids),
            Err(e) => Err(store_error("Failed to add documents", e.as_str())),
        }
    }

    /// The filter of a deletion, or `None` when there is nothing to delete
    /// (which succeeds at once).
    pub fn delete_filter_for(owner_user_id: &str, ids: &Vec<String>) -> (r: Option<QdrantFilter>)
        ensures
            ids@.len() == 0 ==> r is None,
            ids@.len() > 0 ==> (r matches Some(f) && f@ == seq![
                ConditionView::MatchKeyword(owner_payload_key(), owner_user_id@),
                ConditionView::HasIds(views(ids@)),
            ]),
    {
        if ids.len() == 0 {
            None
        } else {
            Some(build_delete_filter(owner_user_id, ids))
        }
    }

    /// The answer to a deletion.
    pub fn documents_deleted(reply: Result<(), String>) -> (r: Result<bool, AppError>)
        ensures
            match reply {
                Ok(_) => r == Ok::<bool, AppError>(true),
                Err(e) => r matches Err(err) && err.is(
                    AppErrorKind::ExternalService,
                    "Failed to delete documents"@ + ": "@ + e@,
                ),
            },
    {
        match reply {
            Ok(()) => Ok(true),
            Err(e) => Err(store_error("Failed to delete documents", e.as_str())),
        }
    }
}

} // verus!
