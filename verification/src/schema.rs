//! The wire schema: which resource kinds exist and, for each, the fixed,
//! ordered list of field specifications the projection engine walks.
//!
//! The ordering of each list is load-bearing: positional access into a
//! projection is defined by it, and it never changes between calls.  The
//! spec-level tables ([`kind_fields`]) are the single authority; the
//! executable builders are proved to produce exactly those tables.

use vstd::prelude::*;

verus! {

/// A category of entity the service exposes.
#[derive(Clone, Copy, PartialEq, Eq, Structural, Debug)]
pub enum ResourceKind {
    User,
    Guest,
    Game,
    GameType,
    Level,
}

/// The JSON shape a field is expected to have, and the normalization its
/// value receives.
///
/// The `Opt` shapes are the optional ones: an absent or `null` value is
/// replaced by the field's declared default.  For every other shape an
/// absent or `null` value is a malformed response.
#[derive(Clone, Copy, PartialEq, Eq, Structural, Debug)]
pub enum Shape {
    /// A string, taken verbatim.
    Text,
    /// An optional string.
    OptText,
    /// A boolean, rendered as `"true"` or `"false"`.
    Flag,
    /// An integer, rendered in decimal.
    Number,
    /// An optional integer.
    OptNumber,
    /// An RFC 3339 timestamp, rendered as `YYYY-MM-DD HH:MM:SS`; an
    /// unparsable value is a malformed response, never defaulted.
    Stamp,
    /// An optional timestamp.
    OptStamp,
    /// A rule text: every double CRLF pair collapses to one space.
    Rules,
    /// An object whose optional `uri` member is the value; a `null` or
    /// absent `uri` reads `"None"`.
    Uri,
    /// As `Uri`, but the whole object may be absent or `null`, in which
    /// case the field's default is used.
    OptUri,
    /// An array of strings.
    TextList,
    /// An optional array of strings; when absent the value is the one-item
    /// list holding the field's default.
    OptList,
}

/// Whether a shape accepts an absent or `null` value by substituting the
/// field's default.
pub open spec fn is_optional(sh: Shape) -> bool {
    match sh {
        Shape::OptText | Shape::OptNumber | Shape::OptStamp | Shape::OptUri | Shape::OptList
            => true,
        _ => false,
    }
}

/// How a resource kind reports its related links.
#[derive(Clone, Copy, PartialEq, Eq, Structural, Debug)]
pub enum LinkShape {
    /// A `links` array of relation/URI objects.
    List,
    /// A single `links` object holding one relation/URI pair.
    Single,
}

/// The declarative description of one field of a resource kind.
pub struct FieldSpec {
    /// The key under which keyed access finds the field; ASCII lowercase.
    pub name: String,
    /// The member path below the fetched record.
    pub path: Vec<String>,
    /// The expected shape and normalization.
    pub shape: Shape,
    /// The value substituted when an optional field is absent or `null`.
    pub default: String,
}

/// The mathematical image of a [`FieldSpec`].
pub ghost struct FieldModel {
    pub name: Seq<char>,
    pub path: Seq<Seq<char>>,
    pub shape: Shape,
    pub default: Seq<char>,
}

impl View for FieldSpec {
    type V = FieldModel;

    open spec fn view(&self) -> FieldModel {
        FieldModel {
            name: self.name@,
            path: self.path.deep_view(),
            shape: self.shape,
            default: self.default@,
        }
    }
}

/// Shorthand for a field model whose path is its own name.
pub open spec fn fm(name: Seq<char>, shape: Shape, default: Seq<char>) -> FieldModel {
    FieldModel { name: name, path: seq![name], shape: shape, default: default }
}

/// A field model with a one-segment path that differs from its name.
pub open spec fn fm1(name: Seq<char>, p0: Seq<char>, shape: Shape, default: Seq<char>) -> FieldModel {
    FieldModel { name: name, path: seq![p0], shape: shape, default: default }
}

/// A field model with an explicit two-segment path.
pub open spec fn fm2(
    name: Seq<char>,
    p0: Seq<char>,
    p1: Seq<char>,
    shape: Shape,
    default: Seq<char>,
) -> FieldModel {
    FieldModel { name: name, path: seq![p0, p1], shape: shape, default: default }
}

/// A field model with an explicit three-segment path.
pub open spec fn fm3(
    name: Seq<char>,
    p0: Seq<char>,
    p1: Seq<char>,
    p2: Seq<char>,
    shape: Shape,
    default: Seq<char>,
) -> FieldModel {
    FieldModel { name: name, path: seq![p0, p1, p2], shape: shape, default: default }
}

/// A field model with an explicit four-segment path.
pub open spec fn fm4(
    name: Seq<char>,
    p0: Seq<char>,
    p1: Seq<char>,
    p2: Seq<char>,
    p3: Seq<char>,
    shape: Shape,
    default: Seq<char>,
) -> FieldModel {
    FieldModel { name: name, path: seq![p0, p1, p2, p3], shape: shape, default: default }
}

/// The fixed, ordered field table of each resource kind.
///
/// The order shown here is the positional-access contract of the kind.
pub open spec fn kind_fields(kind: ResourceKind) -> Seq<FieldModel> {
    match kind {
        ResourceKind::User => seq![
            fm("id"@, Shape::Text, ""@),
            fm2("name"@, "names"@, "international"@, Shape::Text, ""@),
            fm2("japanese_name"@, "names"@, "japanese"@, Shape::OptText, "None"@),
            fm1("supporter_animation"@, "supporterAnimation"@, Shape::Flag, ""@),
            fm("pronouns"@, Shape::OptText, "None"@),
            fm("weblink"@, Shape::Text, ""@),
            fm("role"@, Shape::Text, ""@),
            fm("signup"@, Shape::OptStamp, "None"@),
            fm3("region_code"@, "location"@, "region"@, "code"@, Shape::OptText, "None"@),
            fm4(
                "region"@,
                "location"@,
                "region"@,
                "names"@,
                "international"@,
                Shape::OptText,
                "None"@,
            ),
            fm4(
                "region_japanese"@,
                "location"@,
                "region"@,
                "names"@,
                "japanese"@,
                Shape::OptText,
                "None"@,
            ),
            fm3("country_code"@, "location"@, "country"@, "code"@, Shape::Text, ""@),
            fm4(
                "country"@,
                "location"@,
                "country"@,
                "names"@,
                "international"@,
                Shape::Text,
                ""@,
            ),
            fm4(
                "country_japanese"@,
                "location"@,
                "country"@,
                "names"@,
                "japanese"@,
                Shape::OptText,
                "None"@,
            ),
            fm("twitch"@, Shape::OptText, "None"@),
            fm("hitbox"@, Shape::OptText, "None"@),
            fm("youtube"@, Shape::OptText, "None"@),
            fm("twitter"@, Shape::OptText, "None"@),
            fm("speedrunslive"@, Shape::OptText, "None"@),
            fm2("icon"@, "assets"@, "icon"@, Shape::Uri, "None"@),
            fm2("supporter_icon"@, "assets"@, "supporterIcon"@, Shape::OptUri, "None"@),
            fm2("image"@, "assets"@, "image"@, Shape::Uri, "None"@),
        ],
        ResourceKind::Guest => seq![fm("name"@, Shape::Text, ""@)],
        ResourceKind::Game => seq![
            fm2("name"@, "names"@, "international"@, Shape::Text, ""@),
            fm2("japanese_name"@, "names"@, "japanese"@, Shape::OptText, "None"@),
            fm2("twitch_name"@, "names"@, "twitch"@, Shape::Text, ""@),
            fm("id"@, Shape::Text, ""@),
            fm1("boosts"@, "boost_received"@, Shape::OptNumber, "0"@),
            fm1("boosters"@, "boost_distinct_donors"@, Shape::OptNumber, "0"@),
            fm("abbreviation"@, Shape::Text, ""@),
            fm("weblink"@, Shape::Text, ""@),
            fm("discord"@, Shape::Text, ""@),
            fm("released"@, Shape::Number, ""@),
            fm("release_date"@, Shape::OptText, "None"@),
            fm2("show_milliseconds"@, "ruleset"@, "show-milliseconds"@, Shape::Flag, ""@),
            fm2(
                "require_verification"@,
                "ruleset"@,
                "require-verification"@,
                Shape::Flag,
                ""@,
            ),
            fm2("require_video"@, "ruleset"@, "require-video"@, Shape::Flag, ""@),
            fm2("run_times"@, "ruleset"@, "run-times"@, Shape::TextList, ""@),
            fm2("default_time"@, "ruleset"@, "default-time"@, Shape::Text, ""@),
            fm2("emulators_allowed"@, "ruleset"@, "emulators-allowed"@, Shape::Flag, ""@),
            fm("romhack"@, Shape::Flag, ""@),
            fm("gametypes"@, Shape::OptList, "None"@),
            fm("platforms"@, Shape::OptList, "None"@),
            fm("regions"@, Shape::OptList, "None"@),
            fm("genres"@, Shape::OptList, "None"@),
            fm("engines"@, Shape::OptList, "None"@),
            fm("developers"@, Shape::OptList, "None"@),
            fm("publishers"@, Shape::OptList, "None"@),
            fm("created"@, Shape::Stamp, ""@),
            fm2("logo"@, "assets"@, "logo"@, Shape::Uri, "None"@),
            fm2("cover_tiny"@, "assets"@, "cover-tiny"@, Shape::Uri, "None"@),
            fm2("cover_small"@, "assets"@, "cover-small"@, Shape::Uri, "None"@),
            fm2("cover_medium"@, "assets"@, "cover-medium"@, Shape::Uri, "None"@),
            fm2("cover_large"@, "assets"@, "cover-large"@, Shape::Uri, "None"@),
            fm2("icon"@, "assets"@, "icon"@, Shape::Uri, "None"@),
            fm2("trophy_1st"@, "assets"@, "trophy-1st"@, Shape::Uri, "None"@),
            fm2("trophy_2nd"@, "assets"@, "trophy-2nd"@, Shape::Uri, "None"@),
            fm2("trophy_3rd"@, "assets"@, "trophy-3rd"@, Shape::Uri, "None"@),
            fm2("trophy_4th"@, "assets"@, "trophy-4th"@, Shape::OptUri, ""@),
            fm2("background"@, "assets"@, "background"@, Shape::Uri, "None"@),
            fm2("foreground"@, "assets"@, "foreground"@, Shape::OptUri, ""@),
        ],
        ResourceKind::GameType => seq![
            fm("name"@, Shape::Text, ""@),
            fm("id"@, Shape::Text, ""@),
        ],
        ResourceKind::Level => seq![
            fm("id"@, Shape::Text, ""@),
            fm("name"@, Shape::Text, ""@),
            fm("weblink"@, Shape::Text, ""@),
            fm("rules"@, Shape::Rules, ""@),
        ],
    }
}

/// How each kind reports its links: guests carry one link object, every
/// other kind a list.
pub open spec fn spec_link_shape(kind: ResourceKind) -> LinkShape {
    match kind {
        ResourceKind::Guest => LinkShape::Single,
        _ => LinkShape::List,
    }
}

/// Whether the kind carries a moderator map.
pub open spec fn spec_has_moderators(kind: ResourceKind) -> bool {
    kind is Game
}

/// Executable view of [`spec_link_shape`].
pub fn link_shape(kind: ResourceKind) -> (r: LinkShape)
    ensures
        r == spec_link_shape(kind),
{
    match kind {
        ResourceKind::Guest => LinkShape::Single,
        _ => LinkShape::List,
    }
}

/// Executable view of [`spec_has_moderators`].
pub fn has_moderators(kind: ResourceKind) -> (r: bool)
    ensures
        r == spec_has_moderators(kind),
{
    match kind {
        ResourceKind::Game => true,
        _ => false,
    }
}

fn field(name: &str, shape: Shape, default: &str) -> (r: FieldSpec)
    ensures
        r@ == fm(name@, shape, default@),
{
    let r = FieldSpec {
        name: String::from_str(name),
        path: vec![String::from_str(name)],
        shape,
        default: String::from_str(default),
    };
    proof {
        assert(r.path.deep_view() =~= seq![name@]);
    }
    r
}

fn field1(name: &str, p0: &str, shape: Shape, default: &str) -> (r: FieldSpec)
    ensures
        r@ == fm1(name@, p0@, shape, default@),
{
    let r = FieldSpec {
        name: String::from_str(name),
        path: vec![String::from_str(p0)],
        shape,
        default: String::from_str(default),
    };
    proof {
        assert(r.path.deep_view() =~= seq![p0@]);
    }
    r
}

fn field2(name: &str, p0: &str, p1: &str, shape: Shape, default: &str) -> (r: FieldSpec)
    ensures
        r@ == fm2(name@, p0@, p1@, shape, default@),
{
    let r = FieldSpec {
        name: String::from_str(name),
        path: vec![String::from_str(p0), String::from_str(p1)],
        shape,
        default: String::from_str(default),
    };
    proof {
        assert(r.path.deep_view() =~= seq![p0@, p1@]);
    }
    r
}

fn field3(name: &str, p0: &str, p1: &str, p2: &str, shape: Shape, default: &str) -> (r: FieldSpec)
    ensures
        r@ == fm3(name@, p0@, p1@, p2@, shape, default@),
{
    let r = FieldSpec {
        name: String::from_str(name),
        path: vec![String::from_str(p0), String::from_str(p1), String::from_str(p2)],
        shape,
        default: String::from_str(default),
    };
    proof {
        assert(r.path.deep_view() =~= seq![p0@, p1@, p2@]);
    }
    r
}

fn field4(
    name: &str,
    p0: &str,
    p1: &str,
    p2: &str,
    p3: &str,
    shape: Shape,
    default: &str,
) -> (r: FieldSpec)
    ensures
        r@ == fm4(name@, p0@, p1@, p2@, p3@, shape, default@),
{
    let r = FieldSpec {
        name: String::from_str(name),
        path: vec![
            String::from_str(p0),
            String::from_str(p1),
            String::from_str(p2),
            String::from_str(p3),
        ],
        shape,
        default: String::from_str(default),
    };
    proof {
        assert(r.path.deep_view() =~= seq![p0@, p1@, p2@, p3@]);
    }
    r
}

/// Builds the executable field table of a kind; the result is exactly the
/// spec-level table.
pub fn fields_for(kind: ResourceKind) -> (r: Vec<FieldSpec>)
    ensures
        r@.len() == kind_fields(kind).len(),
        forall|i: int| 0 <= i < r@.len() ==> (#[trigger] r@[i])@ == kind_fields(kind)[i],
{
    let mut v: Vec<FieldSpec> = Vec::new();
    match kind {
        ResourceKind::User => {
            v.push(field("id", Shape::Text, ""));
            v.push(field2("name", "names", "international", Shape::Text, ""));
            v.push(field2("japanese_name", "names", "japanese", Shape::OptText, "None"));
            v.push(field1("supporter_animation", "supporterAnimation", Shape::Flag, ""));
            v.push(field("pronouns", Shape::OptText, "None"));
            v.push(field("weblink", Shape::Text, ""));
            v.push(field("role", Shape::Text, ""));
            v.push(field("signup", Shape::OptStamp, "None"));
            v.push(field3("region_code", "location", "region", "code", Shape::OptText, "None"));
            v.push(
                field4(
                    "region",
                    "location",
                    "region",
                    "names",
                    "international",
                    Shape::OptText,
                    "None",
                ),
            );
            v.push(
                field4(
                    "region_japanese",
                    "location",
                    "region",
                    "names",
                    "japanese",
                    Shape::OptText,
                    "None",
                ),
            );
            v.push(field3("country_code", "location", "country", "code", Shape::Text, ""));
            v.push(
                field4(
                    "country",
                    "location",
                    "country",
                    "names",
                    "international",
                    Shape::Text,
                    "",
                ),
            );
            v.push(
                field4(
                    "country_japanese",
                    "location",
                    "country",
                    "names",
                    "japanese",
                    Shape::OptText,
                    "None",
                ),
            );
            v.push(field("twitch", Shape::OptText, "None"));
            v.push(field("hitbox", Shape::OptText, "None"));
            v.push(field("youtube", Shape::OptText, "None"));
            v.push(field("twitter", Shape::OptText, "None"));
            v.push(field("speedrunslive", Shape::OptText, "None"));
            v.push(field2("icon", "assets", "icon", Shape::Uri, "None"));
            v.push(field2("supporter_icon", "assets", "supporterIcon", Shape::OptUri, "None"));
            v.push(field2("image", "assets", "image", Shape::Uri, "None"));
        },
        ResourceKind::Guest => {
            v.push(field("name", Shape::Text, ""));
        },
        ResourceKind::Game => {
            v.push(field2("name", "names", "international", Shape::Text, ""));
            v.push(field2("japanese_name", "names", "japanese", Shape::OptText, "None"));
            v.push(field2("twitch_name", "names", "twitch", Shape::Text, ""));
            v.push(field("id", Shape::Text, ""));
            v.push(field1("boosts", "boost_received", Shape::OptNumber, "0"));
            v.push(field1("boosters", "boost_distinct_donors", Shape::OptNumber, "0"));
            v.push(field("abbreviation", Shape::Text, ""));
            v.push(field("weblink", Shape::Text, ""));
            v.push(field("discord", Shape::Text, ""));
            v.push(field("released", Shape::Number, ""));
            v.push(field("release_date", Shape::OptText, "None"));
            v.push(field2("show_milliseconds", "ruleset", "show-milliseconds", Shape::Flag, ""));
            v.push(
                field2(
                    "require_verification",
                    "ruleset",
                    "require-verification",
                    Shape::Flag,
                    "",
                ),
            );
            v.push(field2("require_video", "ruleset", "require-video", Shape::Flag, ""));
            v.push(field2("run_times", "ruleset", "run-times", Shape::TextList, ""));
            v.push(field2("default_time", "ruleset", "default-time", Shape::Text, ""));
            v.push(field2("emulators_allowed", "ruleset", "emulators-allowed", Shape::Flag, ""));
            v.push(field("romhack", Shape::Flag, ""));
            v.push(field("gametypes", Shape::OptList, "None"));
            v.push(field("platforms", Shape::OptList, "None"));
            v.push(field("regions", Shape::OptList, "None"));
            v.push(field("genres", Shape::OptList, "None"));
            v.push(field("engines", Shape::OptList, "None"));
            v.push(field("developers", Shape::OptList, "None"));
            v.push(field("publishers", Shape::OptList, "None"));
            v.push(field("created", Shape::Stamp, ""));
            v.push(field2("logo", "assets", "logo", Shape::Uri, "None"));
            v.push(field2("cover_tiny", "assets", "cover-tiny", Shape::Uri, "None"));
            v.push(field2("cover_small", "assets", "cover-small", Shape::Uri, "None"));
            v.push(field2("cover_medium", "assets", "cover-medium", Shape::Uri, "None"));
            v.push(field2("cover_large", "assets", "cover-large", Shape::Uri, "None"));
            v.push(field2("icon", "assets", "icon", Shape::Uri, "None"));
            v.push(field2("trophy_1st", "assets", "trophy-1st", Shape::Uri, "None"));
            v.push(field2("trophy_2nd", "assets", "trophy-2nd", Shape::Uri, "None"));
            v.push(field2("trophy_3rd", "assets", "trophy-3rd", Shape::Uri, "None"));
            v.push(field2("trophy_4th", "assets", "trophy-4th", Shape::OptUri, ""));
            v.push(field2("background", "assets", "background", Shape::Uri, "None"));
            v.push(field2("foreground", "assets", "foreground", Shape::OptUri, ""));
        },
        ResourceKind::GameType => {
            v.push(field("name", Shape::Text, ""));
            v.push(field("id", Shape::Text, ""));
        },
        ResourceKind::Level => {
            v.push(field("id", Shape::Text, ""));
            v.push(field("name", Shape::Text, ""));
            v.push(field("weblink", Shape::Text, ""));
            v.push(field("rules", Shape::Rules, ""));
        },
    }
    v
}

} // verus!
