//! The projection engine and the accessor contract.
//!
//! [`project`] maps one decoded payload through a kind's field table into a
//! [`Projection`]: the ordered sequence of resolved values, the keyed map
//! over the same extraction pass, and the sub-lists (links, moderators).
//! Every step is specified against the spec-level functions in this module,
//! with [`spec_project_kind`] the single authority for what a projection
//! holds.

use vstd::prelude::*;
use crate::json::{Json, json_member, obj_lookup};
use crate::schema::{
    FieldModel, FieldSpec, LinkShape, ResourceKind, Shape, fields_for, has_moderators,
    is_optional, kind_fields, link_shape, spec_has_moderators, spec_link_shape,
};
use crate::text::{
    bool_to_string, collapse_crlf, collapse_crlf_str, dec_int, i64_to_string, lower_seq,
    lower_str, str_eq, trim_marks, trim_marks_str,
};
use crate::translate::{rendered_time, tl_time};

verus! {

/// Why a payload could not be projected.
#[derive(Clone, Copy, PartialEq, Eq, Structural, Debug)]
pub enum ProjectError {
    /// The response body is not valid JSON.
    BadJson,
    /// The body carries no `data` member (or is not an object).
    NoData,
    /// The `data` member is a list with no records.
    EmptyData,
    /// A required field is absent or `null`.
    MissingField,
    /// A field's raw type does not match its declared shape.
    WrongShape,
    /// A timestamp field does not parse.
    BadStamp,
}

/// Misuse of the keyed accessor.
#[derive(Clone, Copy, PartialEq, Eq, Structural, Debug)]
pub enum AccessError {
    /// The key names no field of the projection.
    InvalidKey,
}

/// One resolved field value.
#[derive(Debug)]
pub enum FieldValue {
    /// A single stringified value.
    Text(String),
    /// A list of strings.
    List(Vec<String>),
}

/// The mathematical image of a [`FieldValue`].
pub ghost enum ValueModel {
    Text(Seq<char>),
    List(Seq<Seq<char>>),
}

impl View for FieldValue {
    type V = ValueModel;

    open spec fn view(&self) -> ValueModel {
        match self {
            FieldValue::Text(s) => ValueModel::Text(s@),
            FieldValue::List(v) => ValueModel::List(v.deep_view()),
        }
    }
}

/// The views of a sequence of resolved values.
pub open spec fn value_views(s: Seq<FieldValue>) -> Seq<ValueModel> {
    s.map_values(|v: FieldValue| v@)
}

/// The views of a sequence of keys.
pub open spec fn key_views(s: Seq<String>) -> Seq<Seq<char>> {
    s.map_values(|k: String| k@)
}

/// The views of a sequence of name/value pairs.
pub open spec fn pair_views(s: Seq<(String, String)>) -> Seq<(Seq<char>, Seq<char>)> {
    s.map_values(|p: (String, String)| (p.0@, p.1@))
}

/// The single string a text value holds; a list value reads as empty.
pub open spec fn text_of(v: ValueModel) -> Seq<char> {
    match v {
        ValueModel::Text(s) => s,
        ValueModel::List(_) => Seq::empty(),
    }
}

/// The first components of a pair sequence.
pub open spec fn firsts(ps: Seq<(Seq<char>, Seq<char>)>) -> Seq<Seq<char>> {
    ps.map_values(|p: (Seq<char>, Seq<char>)| p.0)
}

/// The second components of a pair sequence.
pub open spec fn seconds(ps: Seq<(Seq<char>, Seq<char>)>) -> Seq<Seq<char>> {
    ps.map_values(|p: (Seq<char>, Seq<char>)| p.1)
}

/// What walking a member path finds.
pub ghost enum Walked {
    /// The path ends at this value.
    Found(Json),
    /// Some step was absent or `null`.
    Missing,
    /// Some intermediate value is not an object.
    NotObj,
}

/// Walks `path` member by member below `j`.  An absent member or an
/// explicit `null` along the way reads as [`Walked::Missing`]; a non-object
/// intermediate as [`Walked::NotObj`].
pub open spec fn walk(j: Json, path: Seq<Seq<char>>) -> Walked
    decreases path.len(),
{
    if path.len() == 0 {
        Walked::Found(j)
    } else {
        match j {
            Json::Null => Walked::Missing,
            Json::Obj(entries) => match obj_lookup(entries@, path[0]) {
                Some(v) => walk(v, path.drop_first()),
                None => Walked::Missing,
            },
            _ => Walked::NotObj,
        }
    }
}

/// The value an optional field takes when its member is absent or `null`.
pub open spec fn default_value(f: FieldModel) -> ValueModel {
    if f.shape == Shape::OptList {
        ValueModel::List(seq![f.default])
    } else {
        ValueModel::Text(f.default)
    }
}

/// The string views of a JSON array of strings, when it is one.
pub open spec fn str_items(items: Seq<Json>) -> Option<Seq<Seq<char>>>
    decreases items.len(),
{
    if items.len() == 0 {
        Some(Seq::empty())
    } else {
        match items[0] {
            Json::Str(s) => match str_items(items.drop_first()) {
                Some(rest) => Some(seq![s@] + rest),
                None => None,
            },
            _ => None,
        }
    }
}

/// Resolves a present, non-`null` value against a field's shape.
pub open spec fn resolve_present(f: FieldModel, v: Json) -> Result<ValueModel, ProjectError> {
    match f.shape {
        Shape::Text | Shape::OptText => match v {
            Json::Str(s) => Ok(ValueModel::Text(s@)),
            _ => Err(ProjectError::WrongShape),
        },
        Shape::Flag => match v {
            Json::Bool(b) => Ok(
                ValueModel::Text(
                    if b {
                        "true"@
                    } else {
                        "false"@
                    },
                ),
            ),
            _ => Err(ProjectError::WrongShape),
        },
        Shape::Number | Shape::OptNumber => match v {
            Json::Int(n) => Ok(ValueModel::Text(dec_int(n as int))),
            _ => Err(ProjectError::WrongShape),
        },
        Shape::Stamp | Shape::OptStamp => match v {
            Json::Str(s) => match rendered_time(s@) {
                Some(t) => Ok(ValueModel::Text(t)),
                None => Err(ProjectError::BadStamp),
            },
            _ => Err(ProjectError::WrongShape),
        },
        Shape::Rules => match v {
            Json::Str(s) => Ok(ValueModel::Text(collapse_crlf(s@))),
            _ => Err(ProjectError::WrongShape),
        },
        Shape::Uri | Shape::OptUri => match v {
            Json::Obj(_) => match json_member(v, "uri"@) {
                Some(u) => match u {
                    Json::Str(s) => Ok(ValueModel::Text(s@)),
                    Json::Null => Ok(ValueModel::Text("None"@)),
                    _ => Err(ProjectError::WrongShape),
                },
                None => Ok(ValueModel::Text("None"@)),
            },
            _ => Err(ProjectError::WrongShape),
        },
        Shape::TextList | Shape::OptList => match v {
            Json::Arr(items) => match str_items(items@) {
                Some(ss) => Ok(ValueModel::List(ss)),
                None => Err(ProjectError::WrongShape),
            },
            _ => Err(ProjectError::WrongShape),
        },
    }
}

/// Resolves one field below the fetched record: walks its path, substitutes
/// the default exactly when an optional field is absent or `null`, and
/// otherwise normalizes the present value by shape.
pub open spec fn resolve(f: FieldModel, data: Json) -> Result<ValueModel, ProjectError> {
    match walk(data, f.path) {
        Walked::NotObj => Err(ProjectError::WrongShape),
        Walked::Missing => if is_optional(f.shape) {
            Ok(default_value(f))
        } else {
            Err(ProjectError::MissingField)
        },
        Walked::Found(v) => match v {
            Json::Null => if is_optional(f.shape) {
                Ok(default_value(f))
            } else {
                Err(ProjectError::MissingField)
            },
            _ => resolve_present(f, v),
        },
    }
}

/// Resolves a whole field table, left to right; the first failure wins.
pub open spec fn resolve_all(fields: Seq<FieldModel>, data: Json) -> Result<
    Seq<ValueModel>,
    ProjectError,
>
    decreases fields.len(),
{
    if fields.len() == 0 {
        Ok(Seq::empty())
    } else {
        match resolve(fields[0], data) {
            Err(e) => Err(e),
            Ok(v) => match resolve_all(fields.drop_first(), data) {
                Err(e) => Err(e),
                Ok(rest) => Ok(seq![v] + rest),
            },
        }
    }
}

/// The relation/URI pairs of a JSON array of link objects, when every item
/// is an object with string `rel` and `uri` members.
pub open spec fn link_pairs(items: Seq<Json>) -> Option<Seq<(Seq<char>, Seq<char>)>>
    decreases items.len(),
{
    if items.len() == 0 {
        Some(Seq::empty())
    } else {
        match (json_member(items[0], "rel"@), json_member(items[0], "uri"@)) {
            (Some(Json::Str(rl)), Some(Json::Str(ur))) => match link_pairs(items.drop_first()) {
                Some(rest) => Some(seq![(rl@, ur@)] + rest),
                None => None,
            },
            _ => None,
        }
    }
}

/// The link pairs of a record, under the kind's link shape.  The two
/// parallel columns (relation names, URIs) are drawn from the same list in
/// one pass, so their lengths always agree.
pub open spec fn links_of(data: Json, ls: LinkShape) -> Result<
    Seq<(Seq<char>, Seq<char>)>,
    ProjectError,
> {
    match ls {
        LinkShape::List => match json_member(data, "links"@) {
            Some(Json::Arr(items)) => match link_pairs(items@) {
                Some(ps) => Ok(ps),
                None => Err(ProjectError::WrongShape),
            },
            Some(Json::Null) | None => Err(ProjectError::MissingField),
            Some(_) => Err(ProjectError::WrongShape),
        },
        LinkShape::Single => match json_member(data, "links"@) {
            Some(l) => match (json_member(l, "rel"@), json_member(l, "uri"@)) {
                (Some(Json::Str(rl)), Some(Json::Str(ur))) => Ok(seq![(rl@, ur@)]),
                _ => if l is Null {
                    Err(ProjectError::MissingField)
                } else {
                    Err(ProjectError::WrongShape)
                },
            },
            None => Err(ProjectError::MissingField),
        },
    }
}

/// The moderator pairs of an entry sequence, when every value is a string;
/// stray quoting marks are stripped from both ends of each role.
pub open spec fn mod_pairs(entries: Seq<(String, Json)>) -> Option<Seq<(Seq<char>, Seq<char>)>>
    decreases entries.len(),
{
    if entries.len() == 0 {
        Some(Seq::empty())
    } else {
        match entries[0].1 {
            Json::Str(s) => match mod_pairs(entries.drop_first()) {
                Some(rest) => Some(seq![(entries[0].0@, trim_marks(s@))] + rest),
                None => None,
            },
            _ => None,
        }
    }
}

/// The moderator pairs of a record.
pub open spec fn moderators_of(data: Json) -> Result<Seq<(Seq<char>, Seq<char>)>, ProjectError> {
    match json_member(data, "moderators"@) {
        Some(Json::Obj(entries)) => match mod_pairs(entries@) {
            Some(ps) => Ok(ps),
            None => Err(ProjectError::WrongShape),
        },
        Some(Json::Null) | None => Err(ProjectError::MissingField),
        Some(_) => Err(ProjectError::WrongShape),
    }
}

/// The record a response body carries: the `data` member, or the first
/// element when the service answered a name lookup with a list.  An empty
/// list reads as [`ProjectError::EmptyData`], which classification maps to
/// a not-found outcome.
pub open spec fn data_record(raw: Json) -> Result<Json, ProjectError> {
    match raw {
        Json::Obj(_) => match json_member(raw, "data"@) {
            Some(Json::Arr(items)) => if items@.len() == 0 {
                Err(ProjectError::EmptyData)
            } else {
                Ok(items@[0])
            },
            Some(Json::Null) | None => Err(ProjectError::NoData),
            Some(d) => Ok(d),
        },
        _ => Err(ProjectError::NoData),
    }
}

/// The mathematical image of a [`Projection`].
pub ghost struct ProjectionModel {
    pub keys: Seq<Seq<char>>,
    pub values: Seq<ValueModel>,
    pub links: Seq<(Seq<char>, Seq<char>)>,
    pub moderators: Seq<(Seq<char>, Seq<char>)>,
}

/// Projects a payload under an explicit field table and sub-list shape.
pub open spec fn spec_project(
    fields: Seq<FieldModel>,
    ls: LinkShape,
    mods: bool,
    raw: Json,
) -> Result<ProjectionModel, ProjectError> {
    match data_record(raw) {
        Err(e) => Err(e),
        Ok(data) => match resolve_all(fields, data) {
            Err(e) => Err(e),
            Ok(vals) => match links_of(data, ls) {
                Err(e) => Err(e),
                Ok(ln) => match (if mods {
                    moderators_of(data)
                } else {
                    Ok(Seq::empty())
                }) {
                    Err(e) => Err(e),
                    Ok(ms) => Ok(
                        ProjectionModel {
                            keys: fields.map_values(|f: FieldModel| f.name),
                            values: vals,
                            links: ln,
                            moderators: ms,
                        },
                    ),
                },
            },
        },
    }
}

/// Projects a payload as a record of the given kind.
pub open spec fn spec_project_kind(kind: ResourceKind, raw: Json) -> Result<
    ProjectionModel,
    ProjectError,
> {
    spec_project(kind_fields(kind), spec_link_shape(kind), spec_has_moderators(kind), raw)
}

/// The normalized, immutable result of projecting one payload: the ordered
/// value sequence, the keyed map over the same pass, and the sub-lists.
#[derive(Debug)]
pub struct Projection {
    keys: Vec<String>,
    values: Vec<FieldValue>,
    links: Vec<(String, String)>,
    moderators: Vec<(String, String)>,
}

impl View for Projection {
    type V = ProjectionModel;

    closed spec fn view(&self) -> ProjectionModel {
        ProjectionModel {
            keys: key_views(self.keys@),
            values: value_views(self.values@),
            links: pair_views(self.links@),
            moderators: pair_views(self.moderators@),
        }
    }
}

/// The index keyed access dispatches to: the first field whose name equals
/// the key up to ASCII case.
pub open spec fn find_ci(keys: Seq<Seq<char>>, key: Seq<char>) -> Option<int>
    decreases keys.len(),
{
    if keys.len() == 0 {
        None
    } else if lower_seq(keys[0]) == lower_seq(key) {
        Some(0)
    } else {
        match find_ci(keys.drop_first(), key) {
            Some(i) => Some(i + 1),
            None => None,
        }
    }
}

proof fn lemma_find_ci_hit(keys: Seq<Seq<char>>, key: Seq<char>, i: int)
    requires
        0 <= i < keys.len(),
        forall|k: int| 0 <= k < i ==> lower_seq(#[trigger] keys[k]) != lower_seq(key),
        lower_seq(keys[i]) == lower_seq(key),
    ensures
        find_ci(keys, key) == Some(i),
    decreases i,
{
    if i > 0 {
        lemma_find_ci_hit(keys.drop_first(), key, i - 1);
    }
}

proof fn lemma_find_ci_miss(keys: Seq<Seq<char>>, key: Seq<char>)
    requires
        forall|k: int| 0 <= k < keys.len() ==> lower_seq(#[trigger] keys[k]) != lower_seq(key),
    ensures
        find_ci(keys, key) is None,
    decreases keys.len(),
{
    if keys.len() > 0 {
        lemma_find_ci_miss(keys.drop_first(), key);
    }
}

impl Projection {
    #[verifier::type_invariant]
    spec fn wf(self) -> bool {
        self.keys@.len() == self.values@.len()
    }

    /// How many fields the projection holds: the length of the kind's field
    /// table.
    pub fn len(&self) -> (r: usize)
        ensures
            r == self@.values.len(),
    {
        self.values.len()
    }

    /// Positional access: the resolved value of the field at `i` in the
    /// kind's fixed order.  An out-of-range index is a caller error.
    pub fn value_at(&self, i: usize) -> (r: &FieldValue)
        requires
            i < self@.values.len(),
        ensures
            r@ == self@.values[i as int],
    {
        &self.values[i]
    }

    /// Keyed access: dispatches a key, case-insensitively, to the value of
    /// the first field of that name; an unrecognized key is reported, not
    /// fatal.
    pub fn value_for<'a>(&'a self, key: &str) -> (r: Result<&'a FieldValue, AccessError>)
        ensures
            r matches Ok(v) ==> (find_ci(self@.keys, key@) matches Some(i) && v@
                == self@.values[i]),
            r matches Err(e) ==> (find_ci(self@.keys, key@) is None && e
                == AccessError::InvalidKey),
    {
        proof {
            use_type_invariant(self);
        }
        let lk = lower_str(key);
        let n = self.keys.len();
        let mut i: usize = 0;
        while i < n
            invariant
                n == self.keys@.len(),
                self.values@.len() == n,
                i <= n,
                lk@ == lower_seq(key@),
                forall|k: int|
                    0 <= k < i ==> lower_seq(#[trigger] key_views(self.keys@)[k]) != lower_seq(
                        key@,
                    ),
            decreases n - i,
        {
            let low = lower_str(self.keys[i].as_str());
            if str_eq(low.as_str(), lk.as_str()) {
                proof {
                    lemma_find_ci_hit(key_views(self.keys@), key@, i as int);
                }
                return Ok(&self.values[i]);
            }
            i += 1;
        }
        proof {
            lemma_find_ci_miss(key_views(self.keys@), key@);
        }
        Err(AccessError::InvalidKey)
    }

    /// The related links, in the order the service sent them.
    pub fn links(&self) -> (r: &Vec<(String, String)>)
        ensures
            pair_views(r@) == self@.links,
    {
        &self.links
    }

    /// The moderator pairs, in the order the service sent them.
    pub fn moderators(&self) -> (r: &Vec<(String, String)>)
        ensures
            pair_views(r@) == self@.moderators,
    {
        &self.moderators
    }
}

impl FieldValue {
    /// The single string a text value holds.
    pub fn text(&self) -> (r: Option<&String>)
        ensures
            match r {
                Some(s) => self@ == ValueModel::Text(s@),
                None => self@ is List,
            },
    {
        match self {
            FieldValue::Text(s) => Some(s),
            FieldValue::List(_) => None,
        }
    }

    /// The strings a list value holds.
    pub fn items(&self) -> (r: Option<&Vec<String>>)
        ensures
            match r {
                Some(v) => self@ == ValueModel::List(v.deep_view()),
                None => self@ is Text,
            },
    {
        match self {
            FieldValue::List(v) => Some(v),
            FieldValue::Text(_) => None,
        }
    }
}

enum WalkedX<'a> {
    Found(&'a Json),
    Missing,
    NotObj,
}

fn walk_x<'a>(data: &'a Json, path: &Vec<String>) -> (r: WalkedX<'a>)
    ensures
        match r {
            WalkedX::Found(v) => walk(*data, path.deep_view()) == Walked::Found(*v),
            WalkedX::Missing => walk(*data, path.deep_view()) is Missing,
            WalkedX::NotObj => walk(*data, path.deep_view()) is NotObj,
        },
{
    let mut cur: &Json = data;
    let n = path.len();
    let mut i: usize = 0;
    proof {
        assert(path.deep_view().skip(0) =~= path.deep_view());
    }
    while i < n
        invariant
            n == path@.len(),
            i <= n,
            walk(*data, path.deep_view()) == walk(*cur, path.deep_view().skip(i as int)),
        decreases n - i,
    {
        let ghost rest = path.deep_view().skip(i as int);
        proof {
            assert(rest[0] == path.deep_view()[i as int]);
            assert(rest.drop_first() =~= path.deep_view().skip(i + 1));
        }
        match cur {
            Json::Null => {
                return WalkedX::Missing;
            },
            Json::Obj(_) => {
                match cur.get(path[i].as_str()) {
                    Some(v) => {
                        cur = v;
                    },
                    None => {
                        return WalkedX::Missing;
                    },
                }
            },
            _ => {
                return WalkedX::NotObj;
            },
        }
        i += 1;
    }
    proof {
        assert(path.deep_view().skip(n as int) =~= Seq::<Seq<char>>::empty());
    }
    WalkedX::Found(cur)
}

fn default_value_x(f: &FieldSpec) -> (r: FieldValue)
    ensures
        r@ == default_value(f@),
{
    if matches!(f.shape, Shape::OptList) {
        let one = f.default.clone();
        let v = vec![one];
        proof {
            assert(v.deep_view() =~= seq![f@.default]);
        }
        FieldValue::List(v)
    } else {
        FieldValue::Text(f.default.clone())
    }
}

fn str_items_x(items: &Vec<Json>) -> (r: Option<Vec<String>>)
    ensures
        match r {
            Some(v) => str_items(items@) == Some(v.deep_view()),
            None => str_items(items@) is None,
        },
{
    let n = items.len();
    let mut out: Vec<String> = Vec::new();
    let mut i: usize = 0;
    proof {
        assert(items@.skip(0) =~= items@);
    }
    while i < n
        invariant
            n == items@.len(),
            i <= n,
            (str_items(items@) is Some) == (str_items(items@.skip(i as int)) is Some),
            str_items(items@.skip(i as int)) is Some ==> str_items(items@) == Some(
                out.deep_view() + str_items(items@.skip(i as int))->Some_0,
            ),
        decreases n - i,
    {
        let ghost rest = items@.skip(i as int);
        proof {
            assert(rest[0] == items@[i as int]);
            assert(rest.drop_first() =~= items@.skip(i + 1));
        }
        match &items[i] {
            Json::Str(s) => {
                out.push(s.clone());
                proof {
                    if str_items(items@.skip(i + 1)) is Some {
                        let tail = str_items(items@.skip(i + 1))->Some_0;
                        assert(str_items(rest) == Some(seq![items@[i as int]->Str_0@] + tail));
                        assert(out.deep_view() =~= out.deep_view().drop_last() + seq![s@]);
                        assert(out.deep_view() + tail =~= out.deep_view().drop_last() + (seq![s@]
                            + tail));
                    } else {
                        assert(str_items(rest) is None);
                    }
                }
            },
            _ => {
                proof {
                    assert(str_items(rest) is None);
                }
                return None;
            },
        }
        i += 1;
    }
    proof {
        assert(items@.skip(n as int) =~= Seq::<Json>::empty());
        assert(out.deep_view() + Seq::<Seq<char>>::empty() =~= out.deep_view());
    }
    Some(out)
}

fn resolve_present_x(f: &FieldSpec, v: &Json) -> (r: Result<FieldValue, ProjectError>)
    ensures
        r matches Ok(w) ==> resolve_present(f@, *v) == Ok::<ValueModel, ProjectError>(w@),
        r matches Err(e) ==> resolve_present(f@, *v) == Err::<ValueModel, ProjectError>(e),
{
    match f.shape {
        Shape::Text | Shape::OptText => match v {
            Json::Str(s) => Ok(FieldValue::Text(s.clone())),
            _ => Err(ProjectError::WrongShape),
        },
        Shape::Flag => match v {
            Json::Bool(b) => Ok(FieldValue::Text(bool_to_string(*b))),
            _ => Err(ProjectError::WrongShape),
        },
        Shape::Number | Shape::OptNumber => match v {
            Json::Int(n) => Ok(FieldValue::Text(i64_to_string(*n))),
            _ => Err(ProjectError::WrongShape),
        },
        Shape::Stamp | Shape::OptStamp => match v {
            Json::Str(s) => match tl_time(s.as_str()) {
                Some(t) => Ok(FieldValue::Text(t)),
                None => Err(ProjectError::BadStamp),
            },
            _ => Err(ProjectError::WrongShape),
        },
        Shape::Rules => match v {
            Json::Str(s) => Ok(FieldValue::Text(collapse_crlf_str(s.as_str()))),
            _ => Err(ProjectError::WrongShape),
        },
        Shape::Uri | Shape::OptUri => match v {
            Json::Obj(_) => match v.get("uri") {
                Some(u) => match u {
                    Json::Str(s) => Ok(FieldValue::Text(s.clone())),
                    Json::Null => Ok(FieldValue::Text(String::from_str("None"))),
                    _ => Err(ProjectError::WrongShape),
                },
                None => Ok(FieldValue::Text(String::from_str("None"))),
            },
            _ => Err(ProjectError::WrongShape),
        },
        Shape::TextList | Shape::OptList => match v {
            Json::Arr(items) => match str_items_x(items) {
                Some(ss) => Ok(FieldValue::List(ss)),
                None => Err(ProjectError::WrongShape),
            },
            _ => Err(ProjectError::WrongShape),
        },
    }
}

fn resolve_x(f: &FieldSpec, data: &Json) -> (r: Result<FieldValue, ProjectError>)
    ensures
        r matches Ok(v) ==> resolve(f@, *data) == Ok::<ValueModel, ProjectError>(v@),
        r matches Err(e) ==> resolve(f@, *data) == Err::<ValueModel, ProjectError>(e),
{
    match walk_x(data, &f.path) {
        WalkedX::NotObj => Err(ProjectError::WrongShape),
        WalkedX::Missing => if matches!(f.shape, Shape::OptText | Shape::OptNumber
            | Shape::OptStamp | Shape::OptUri | Shape::OptList) {
            Ok(default_value_x(f))
        } else {
            Err(ProjectError::MissingField)
        },
        WalkedX::Found(v) => match v {
            Json::Null => if matches!(f.shape, Shape::OptText | Shape::OptNumber | Shape::OptStamp
                | Shape::OptUri | Shape::OptList) {
                Ok(default_value_x(f))
            } else {
                Err(ProjectError::MissingField)
            },
            _ => resolve_present_x(f, v),
        },
    }
}

proof fn lemma_resolve_all_pointwise(fields: Seq<FieldModel>, data: Json, vs: Seq<ValueModel>)
    requires
        vs.len() == fields.len(),
        forall|k: int|
            0 <= k < fields.len() ==> resolve(#[trigger] fields[k], data) == Ok::<
                ValueModel,
                ProjectError,
            >(vs[k]),
    ensures
        resolve_all(fields, data) == Ok::<Seq<ValueModel>, ProjectError>(vs),
    decreases fields.len(),
{
    if fields.len() > 0 {
        lemma_resolve_all_pointwise(fields.drop_first(), data, vs.drop_first());
        assert(vs =~= seq![vs[0]] + vs.drop_first());
    } else {
        assert(vs =~= Seq::<ValueModel>::empty());
    }
}

proof fn lemma_resolve_all_error(fields: Seq<FieldModel>, data: Json, i: int, e: ProjectError)
    requires
        0 <= i < fields.len(),
        forall|k: int| 0 <= k < i ==> resolve(#[trigger] fields[k], data) is Ok,
        resolve(fields[i], data) == Err::<ValueModel, ProjectError>(e),
    ensures
        resolve_all(fields, data) == Err::<Seq<ValueModel>, ProjectError>(e),
    decreases i,
{
    if i > 0 {
        lemma_resolve_all_error(fields.drop_first(), data, i - 1, e);
    }
}

fn data_record_x<'a>(raw: &'a Json) -> (r: Result<&'a Json, ProjectError>)
    ensures
        r matches Ok(d) ==> data_record(*raw) == Ok::<Json, ProjectError>(*d),
        r matches Err(e) ==> data_record(*raw) == Err::<Json, ProjectError>(e),
{
    match raw {
        Json::Obj(_) => match raw.get("data") {
            Some(d) => match d {
                Json::Arr(items) => {
                    if items.len() == 0 {
                        Err(ProjectError::EmptyData)
                    } else {
                        Ok(&items[0])
                    }
                },
                Json::Null => Err(ProjectError::NoData),
                _ => Ok(d),
            },
            None => Err(ProjectError::NoData),
        },
        _ => Err(ProjectError::NoData),
    }
}

fn links_x(data: &Json, ls: LinkShape) -> (r: Result<Vec<(String, String)>, ProjectError>)
    ensures
        r matches Ok(v) ==> links_of(*data, ls) == Ok::<Seq<(Seq<char>, Seq<char>)>, ProjectError>(
            pair_views(v@),
        ),
        r matches Err(e) ==> links_of(*data, ls) == Err::<
            Seq<(Seq<char>, Seq<char>)>,
            ProjectError,
        >(e),
{
    match ls {
        LinkShape::List => match data.get("links") {
            Some(l) => match l {
                Json::Arr(items) => {
                    let n = items.len();
                    let mut out: Vec<(String, String)> = Vec::new();
                    let mut i: usize = 0;
                    proof {
                        assert(items@.skip(0) =~= items@);
                    }
                    while i < n
                        invariant
                            n == items@.len(),
                            i <= n,
                            json_member(*data, "links"@) == Some(Json::Arr(*items)),
                            (link_pairs(items@) is Some) == (link_pairs(items@.skip(i as int))
                                is Some),
                            link_pairs(items@.skip(i as int)) is Some ==> link_pairs(items@)
                                == Some(
                                pair_views(out@) + link_pairs(items@.skip(i as int))->Some_0,
                            ),
                        decreases n - i,
                    {
                        let ghost restitems = items@.skip(i as int);
                        proof {
                            assert(restitems[0] == items@[i as int]);
                            assert(restitems.drop_first() =~= items@.skip(i + 1));
                        }
                        let item = &items[i];
                        let rl = match item.get("rel") {
                            Some(Json::Str(s)) => s,
                            _ => {
                                proof {
                                    assert(link_pairs(restitems) is None);
                                }
                                return Err(ProjectError::WrongShape);
                            },
                        };
                        let ur = match item.get("uri") {
                            Some(Json::Str(s)) => s,
                            _ => {
                                proof {
                                    assert(link_pairs(restitems) is None);
                                }
                                return Err(ProjectError::WrongShape);
                            },
                        };
                        out.push((rl.clone(), ur.clone()));
                        proof {
                            if link_pairs(items@.skip(i + 1)) is Some {
                                let tail = link_pairs(items@.skip(i + 1))->Some_0;
                                assert(link_pairs(restitems) == Some(seq![(rl@, ur@)] + tail));
                                assert(pair_views(out@) =~= pair_views(out@.drop_last()) + seq![
                                    (rl@, ur@),
                                ]);
                                assert(pair_views(out@) + tail =~= pair_views(out@.drop_last()) + (
                                seq![(rl@, ur@)] + tail));
                            } else {
                                assert(link_pairs(restitems) is None);
                            }
                        }
                        i += 1;
                    }
                    proof {
                        assert(items@.skip(n as int) =~= Seq::<Json>::empty());
                        assert(pair_views(out@) + Seq::<(Seq<char>, Seq<char>)>::empty()
                            =~= pair_views(out@));
                    }
                    Ok(out)
                },
                Json::Null => Err(ProjectError::MissingField),
                _ => Err(ProjectError::WrongShape),
            },
            None => Err(ProjectError::MissingField),
        },
        LinkShape::Single => match data.get("links") {
            Some(l) => {
                let rl = match l.get("rel") {
                    Some(Json::Str(s)) => s,
                    _ => {
                        return if matches!(l, Json::Null) {
                            Err(ProjectError::MissingField)
                        } else {
                            Err(ProjectError::WrongShape)
                        };
                    },
                };
                let ur = match l.get("uri") {
                    Some(Json::Str(s)) => s,
                    _ => {
                        return if matches!(l, Json::Null) {
                            Err(ProjectError::MissingField)
                        } else {
                            Err(ProjectError::WrongShape)
                        };
                    },
                };
                let mut out: Vec<(String, String)> = Vec::new();
                out.push((rl.clone(), ur.clone()));
                proof {
                    assert(pair_views(out@) =~= seq![(rl@, ur@)]);
                }
                Ok(out)
            },
            None => Err(ProjectError::MissingField),
        },
    }
}

fn moderators_x(data: &Json) -> (r: Result<Vec<(String, String)>, ProjectError>)
    ensures
        r matches Ok(v) ==> moderators_of(*data) == Ok::<
            Seq<(Seq<char>, Seq<char>)>,
            ProjectError,
        >(pair_views(v@)),
        r matches Err(e) ==> moderators_of(*data) == Err::<
            Seq<(Seq<char>, Seq<char>)>,
            ProjectError,
        >(e),
{
    match data.get("moderators") {
        Some(m) => match m {
            Json::Obj(entries) => {
                let n = entries.len();
                let mut out: Vec<(String, String)> = Vec::new();
                let mut i: usize = 0;
                proof {
                    assert(entries@.skip(0) =~= entries@);
                }
                while i < n
                    invariant
                        n == entries@.len(),
                        i <= n,
                        json_member(*data, "moderators"@) == Some(Json::Obj(*entries)),
                        (mod_pairs(entries@) is Some) == (mod_pairs(entries@.skip(i as int))
                            is Some),
                        mod_pairs(entries@.skip(i as int)) is Some ==> mod_pairs(entries@) == Some(
                            pair_views(out@) + mod_pairs(entries@.skip(i as int))->Some_0,
                        ),
                    decreases n - i,
                {
                    let ghost reste = entries@.skip(i as int);
                    proof {
                        assert(reste[0] == entries@[i as int]);
                        assert(reste.drop_first() =~= entries@.skip(i + 1));
                    }
                    let role = match &entries[i].1 {
                        Json::Str(s) => trim_marks_str(s.as_str()),
                        _ => {
                            proof {
                                assert(mod_pairs(reste) is None);
                            }
                            return Err(ProjectError::WrongShape);
                        },
                    };
                    let name = entries[i].0.clone();
                    out.push((name, role));
                    proof {
                        if mod_pairs(entries@.skip(i + 1)) is Some {
                            let tail = mod_pairs(entries@.skip(i + 1))->Some_0;
                            let ghost p = (entries@[i as int].0@, trim_marks(
                                entries@[i as int].1->Str_0@,
                            ));
                            assert(mod_pairs(reste) == Some(seq![p] + tail));
                            assert(pair_views(out@) =~= pair_views(out@.drop_last()) + seq![p]);
                            assert(pair_views(out@) + tail =~= pair_views(out@.drop_last()) + (
                            seq![p] + tail));
                        } else {
                            assert(mod_pairs(reste) is None);
                        }
                    }
                    i += 1;
                }
                proof {
                    assert(entries@.skip(n as int) =~= Seq::<(String, Json)>::empty());
                    assert(pair_views(out@) + Seq::<(Seq<char>, Seq<char>)>::empty() =~= pair_views(
                        out@,
                    ));
                }
                Ok(out)
            },
            Json::Null => Err(ProjectError::MissingField),
            _ => Err(ProjectError::WrongShape),
        },
        None => Err(ProjectError::MissingField),
    }
}

/// Projects one decoded payload as a record of `kind`.
///
/// The result is pinned exactly: on success the projection's view equals
/// [`spec_project_kind`]`(kind, raw)`, and on failure the error is the one
/// that spec-level projection yields.
pub fn project(kind: ResourceKind, raw: &Json) -> (r: Result<Projection, ProjectError>)
    ensures
        r matches Ok(p) ==> spec_project_kind(kind, *raw) == Ok::<ProjectionModel, ProjectError>(
            p@,
        ),
        r matches Err(e) ==> spec_project_kind(kind, *raw) == Err::<ProjectionModel, ProjectError>(
            e,
        ),
{
    let ghost fseq = kind_fields(kind);
    let fields = fields_for(kind);
    let data = match data_record_x(raw) {
        Ok(d) => d,
        Err(e) => {
            return Err(e);
        },
    };
    let n = fields.len();
    let mut keys: Vec<String> = Vec::new();
    let mut values: Vec<FieldValue> = Vec::new();
    let mut i: usize = 0;
    while i < n
        invariant
            fseq == kind_fields(kind),
            n == fields@.len(),
            fields@.len() == fseq.len(),
            forall|k: int| 0 <= k < fseq.len() ==> (#[trigger] fields@[k])@ == fseq[k],
            i <= n,
            keys@.len() == i,
            values@.len() == i,
            data_record(*raw) == Ok::<Json, ProjectError>(*data),
            forall|k: int|
                0 <= k < i ==> resolve(#[trigger] fseq[k], *data) == Ok::<
                    ValueModel,
                    ProjectError,
                >(value_views(values@)[k]),
            forall|k: int| 0 <= k < i ==> key_views(keys@)[k] == (#[trigger] fseq[k]).name,
        decreases n - i,
    {
        let ghost prev_values = values@;
        let ghost prev_keys = keys@;
        match resolve_x(&fields[i], data) {
            Ok(v) => {
                proof {
                    assert(resolve(fseq[i as int], *data) == Ok::<ValueModel, ProjectError>(v@));
                }
                values.push(v);
                keys.push(fields[i].name.clone());
                proof {
                    assert(value_views(values@) =~= value_views(prev_values).push(
                        value_views(values@)[i as int],
                    ));
                    assert forall|k: int| 0 <= k < i + 1 implies resolve(
                        #[trigger] fseq[k],
                        *data,
                    ) == Ok::<ValueModel, ProjectError>(value_views(values@)[k]) by {
                        assert(value_views(values@)[k] == if k < i {
                            value_views(prev_values)[k]
                        } else {
                            values@[i as int]@
                        });
                    }
                    assert forall|k: int| 0 <= k < i + 1 implies key_views(keys@)[k] == (
                    #[trigger] fseq[k]).name by {
                        assert(key_views(keys@)[k] == if k < i {
                            key_views(prev_keys)[k]
                        } else {
                            keys@[i as int]@
                        });
                    }
                }
            },
            Err(e) => {
                proof {
                    assert forall|k: int| 0 <= k < i implies resolve(#[trigger] fseq[k], *data)
                        is Ok by {}
                    lemma_resolve_all_error(fseq, *data, i as int, e);
                }
                return Err(e);
            },
        }
        i += 1;
    }
    proof {
        assert forall|k: int| 0 <= k < fseq.len() implies resolve(#[trigger] fseq[k], *data)
            == Ok::<ValueModel, ProjectError>(value_views(values@)[k]) by {}
        lemma_resolve_all_pointwise(fseq, *data, value_views(values@));
    }
    let ln = match links_x(data, link_shape(kind)) {
        Ok(l) => l,
        Err(e) => {
            return Err(e);
        },
    };
    let ms = if has_moderators(kind) {
        match moderators_x(data) {
            Ok(m) => m,
            Err(e) => {
                return Err(e);
            },
        }
    } else {
        Vec::new()
    };
    let p = Projection { keys, values, links: ln, moderators: ms };
    proof {
        assert(key_views(p.keys@) =~= fseq.map_values(|f: FieldModel| f.name));
        assert(pair_views(Seq::<(String, String)>::empty()) =~= Seq::<
            (Seq<char>, Seq<char>),
        >::empty());
    }
    Ok(p)
}

/// Positional coverage: a successful projection holds exactly one value per
/// entry of the kind's field table, in table order, under the field's name.
pub proof fn lemma_positional_coverage(kind: ResourceKind, raw: Json)
    ensures
        spec_project_kind(kind, raw) matches Ok(p) ==> p.values.len() == kind_fields(kind).len()
            && p.keys == kind_fields(kind).map_values(|f: FieldModel| f.name),
{
    if spec_project_kind(kind, raw) is Ok {
        let data = data_record(raw)->Ok_0;
        lemma_resolve_all_len(kind_fields(kind), data);
    }
}

proof fn lemma_resolve_all_len(fields: Seq<FieldModel>, data: Json)
    ensures
        resolve_all(fields, data) matches Ok(vs) ==> vs.len() == fields.len(),
    decreases fields.len(),
{
    if fields.len() > 0 {
        lemma_resolve_all_len(fields.drop_first(), data);
    }
}

/// Each successful value is the pointwise resolution of its field.
pub proof fn lemma_values_pointwise(fields: Seq<FieldModel>, data: Json, i: int)
    requires
        resolve_all(fields, data) is Ok,
        0 <= i < fields.len(),
    ensures
        resolve_all(fields, data) matches Ok(vs) && resolve(fields[i], data) == Ok::<
            ValueModel,
            ProjectError,
        >(vs[i]),
    decreases i,
{
    lemma_resolve_all_len(fields, data);
    if i > 0 {
        lemma_values_pointwise(fields.drop_first(), data, i - 1);
    }
}

/// Default substitution: whenever an optional field's member is absent or
/// `null`, the projected value is the field's declared default, verbatim.
pub proof fn lemma_default_substitution(kind: ResourceKind, raw: Json, i: int)
    requires
        spec_project_kind(kind, raw) is Ok,
        0 <= i < kind_fields(kind).len(),
        is_optional(kind_fields(kind)[i].shape),
        data_record(raw) matches Ok(data) && (walk(data, kind_fields(kind)[i].path) is Missing
            || walk(data, kind_fields(kind)[i].path) == Walked::Found(Json::Null)),
    ensures
        spec_project_kind(kind, raw) matches Ok(p) && p.values[i] == default_value(
            kind_fields(kind)[i],
        ),
{
    let data = data_record(raw)->Ok_0;
    lemma_values_pointwise(kind_fields(kind), data, i);
}

/// A field whose shape is not a list shape always resolves to a single
/// text value.
pub proof fn lemma_text_value(kind: ResourceKind, raw: Json, i: int)
    requires
        spec_project_kind(kind, raw) is Ok,
        0 <= i < kind_fields(kind).len(),
        !(kind_fields(kind)[i].shape is TextList),
        !(kind_fields(kind)[i].shape is OptList),
    ensures
        spec_project_kind(kind, raw) matches Ok(p) && p.values[i] is Text,
{
    let data = data_record(raw)->Ok_0;
    lemma_values_pointwise(kind_fields(kind), data, i);
}

/// A kind with a single link object projects to exactly one link pair.
pub proof fn lemma_single_link(data: Json)
    ensures
        links_of(data, LinkShape::Single) matches Ok(ls) ==> ls.len() == 1,
{
}

/// Idempotence: projection is a function of the payload alone, so two
/// projections of the same raw payload are identical.
pub proof fn lemma_projection_deterministic(
    kind: ResourceKind,
    raw: Json,
    p1: ProjectionModel,
    p2: ProjectionModel,
)
    requires
        spec_project_kind(kind, raw) == Ok::<ProjectionModel, ProjectError>(p1),
        spec_project_kind(kind, raw) == Ok::<ProjectionModel, ProjectError>(p2),
    ensures
        p1 == p2,
{
}

/// Keyed access is case-insensitive: two keys that agree up to ASCII case
/// dispatch to the same field.
pub proof fn lemma_keyed_case_insensitive(keys: Seq<Seq<char>>, k1: Seq<char>, k2: Seq<char>)
    requires
        lower_seq(k1) == lower_seq(k2),
    ensures
        find_ci(keys, k1) == find_ci(keys, k2),
    decreases keys.len(),
{
    if keys.len() > 0 {
        lemma_keyed_case_insensitive(keys.drop_first(), k1, k2);
    }
}

} // verus!
