//! A JSON document model, its reading from and writing to JSON text, and
//! the template-context transformation that the configuration page applies
//! to it.

use vstd::prelude::*;

verus! {

/// A JSON value as the library holds it.  Numbers are carried as their
/// textual form: the library never computes with them, it only moves them.
/// Objects keep their members in order, one member per key.
#[derive(Debug, PartialEq)]
pub enum JsonValue {
    Null,
    Bool(bool),
    Number(String),
    Str(String),
    Array(Vec<JsonValue>),
    Object(Vec<(String, JsonValue)>),
}

/// The mathematical JSON value that a [`JsonValue`] stands for.
pub enum Json {
    Null,
    Bool(bool),
    Number(Seq<char>),
    Str(Seq<char>),
    Array(Seq<Json>),
    Object(Seq<(Seq<char>, Json)>),
}

impl JsonValue {
    /// The model of this value.
    pub open spec fn model(self) -> Json
        decreases self,
    {
        match self {
            JsonValue::Null => Json::Null,
            JsonValue::Bool(b) => Json::Bool(b),
            JsonValue::Number(n) => Json::Number(n@),
            JsonValue::Str(s) => Json::Str(s@),
            JsonValue::Array(items) => Json::Array(item_models(items@)),
            JsonValue::Object(members) => Json::Object(member_models(members@)),
        }
    }
}

/// The models of a sequence of values.
pub open spec fn item_models(items: Seq<JsonValue>) -> Seq<Json>
    decreases items,
{
    if items.len() == 0 {
        Seq::empty()
    } else {
        item_models(items.drop_last()).push(items.last().model())
    }
}

/// The models of a sequence of object members.
pub open spec fn member_models(members: Seq<(String, JsonValue)>) -> Seq<(Seq<char>, Json)>
    decreases members,
{
    if members.len() == 0 {
        Seq::empty()
    } else {
        member_models(members.drop_last()).push((members.last().0@, members.last().1.model()))
    }
}


/// `item_models` keeps the length and maps each item to its model.
pub proof fn lemma_item_models(items: Seq<JsonValue>)
    ensures
        item_models(items).len() == items.len(),
        forall|i: int| 0 <= i < items.len() ==> #[trigger] item_models(items)[i] == items[i].model(),
    decreases items.len(),
{
    if items.len() > 0 {
        lemma_item_models(items.drop_last());
    }
}

/// `member_models` keeps the length, the keys, and maps each value to its model.
pub proof fn lemma_member_models(members: Seq<(String, JsonValue)>)
    ensures
        member_models(members).len() == members.len(),
        forall|i: int|
            0 <= i < members.len() ==> #[trigger] member_models(members)[i] == (
                members[i].0@,
                members[i].1.model(),
            ),
    decreases members.len(),
{
    if members.len() > 0 {
        lemma_member_models(members.drop_last());
    }
}

/// Whether an object's members include the key `key`.
pub open spec fn has_key(members: Seq<(Seq<char>, Json)>, key: Seq<char>) -> bool {
    exists|i: int| 0 <= i < members.len() && #[trigger] members[i].0 == key
}

/// A scalar wrapped as `{"type": tag, "value": value}`.
pub open spec fn tagged(tag: Seq<char>, value: Json) -> Json {
    Json::Object(seq![("type"@, Json::Str(tag)), ("value"@, value)])
}

/// The template form of a JSON value: every scalar is replaced by an
/// object that names its type (`{"type": "string", "value": ...}`, and
/// `{"type": "null"}` for null), arrays and objects are transformed member
/// by member, and an object that has a `"kind"` member is kept as it is.
pub open spec fn tera_form(j: Json) -> Json
    decreases j,
{
    match j {
        Json::Null => Json::Object(seq![("type"@, Json::Str("null"@))]),
        Json::Bool(_) => tagged("bool"@, j),
        Json::Number(_) => tagged("number"@, j),
        Json::Str(_) => tagged("string"@, j),
        Json::Array(items) => Json::Array(tera_items(items)),
        Json::Object(members) => if has_key(members, "kind"@) {
            j
        } else {
            Json::Object(tera_members(members))
        },
    }
}

/// The template form of each item.
pub open spec fn tera_items(items: Seq<Json>) -> Seq<Json>
    decreases items,
{
    if items.len() == 0 {
        Seq::empty()
    } else {
        tera_items(items.drop_last()).push(tera_form(items.last()))
    }
}

/// The template form of each member's value, under the same key.
pub open spec fn tera_members(members: Seq<(Seq<char>, Json)>) -> Seq<(Seq<char>, Json)>
    decreases members,
{
    if members.len() == 0 {
        Seq::empty()
    } else {
        tera_members(members.drop_last()).push((members.last().0, tera_form(members.last().1)))
    }
}

/// `tera_items` keeps the length and transforms each item.
pub proof fn lemma_tera_items(items: Seq<Json>)
    ensures
        tera_items(items).len() == items.len(),
        forall|i: int| 0 <= i < items.len() ==> #[trigger] tera_items(items)[i] == tera_form(items[i]),
    decreases items.len(),
{
    if items.len() > 0 {
        lemma_tera_items(items.drop_last());
    }
}

/// `tera_members` keeps the length and the keys and transforms each value.
pub proof fn lemma_tera_members(members: Seq<(Seq<char>, Json)>)
    ensures
        tera_members(members).len() == members.len(),
        forall|i: int|
            0 <= i < members.len() ==> #[trigger] tera_members(members)[i] == (
                members[i].0,
                tera_form(members[i].1),
            ),
    decreases members.len(),
{
    if members.len() > 0 {
        lemma_tera_members(members.drop_last());
    }
}


impl JsonValue {
    /// A copy of this value with the same model.
    #[verifier::loop_isolation(false)]
    pub fn deep_copy(&self) -> (r: JsonValue)
        ensures
            r.model() == self.model(),
        decreases self,
    {
        match self {
            JsonValue::Null => JsonValue::Null,
            JsonValue::Bool(b) => JsonValue::Bool(*b),
            JsonValue::Number(n) => JsonValue::Number(n.clone()),
            JsonValue::Str(s) => JsonValue::Str(s.clone()),
            JsonValue::Array(items) => {
                let mut out: Vec<JsonValue> = Vec::new();
                let mut i: usize = 0;
                while i < items.len()
                    invariant
                        i <= items.len(),
                        out.len() == i,
                        forall|j: int| 0 <= j < i ==> #[trigger] out@[j].model() == items@[j].model(),
                    decreases items.len() - i,
                {
                    proof {
                        assert(decreases_to!(*self => items@[i as int]));
                    }
                    let c = items[i].deep_copy();
                    out.push(c);
                    i = i + 1;
                }
                proof {
                    lemma_item_models(out@);
                    lemma_item_models(items@);
                    assert(item_models(out@) =~= item_models(items@));
                }
                JsonValue::Array(out)
            },
            JsonValue::Object(members) => {
                let mut out: Vec<(String, JsonValue)> = Vec::new();
                let mut i: usize = 0;
                while i < members.len()
                    invariant
                        i <= members.len(),
                        out.len() == i,
                        forall|j: int|
                            0 <= j < i ==> #[trigger] out@[j].0@ == members@[j].0@
                                && out@[j].1.model() == members@[j].1.model(),
                    decreases members.len() - i,
                {
                    let k = members[i].0.clone();
                    proof {
                        assert(decreases_to!(*self => members@[i as int].1));
                    }
                    let c = members[i].1.deep_copy();
                    out.push((k, c));
                    i = i + 1;
                }
                proof {
                    lemma_member_models(out@);
                    lemma_member_models(members@);
                    assert(member_models(out@) =~= member_models(members@));
                }
                JsonValue::Object(out)
            },
        }
    }
}

/// Builds `{"type": tag, "value": value}`.
fn tagged_value(tag: &str, value: JsonValue) -> (r: JsonValue)
    ensures
        r.model() == tagged(tag@, value.model()),
{
    let ghost vm = value.model();
    let mut members: Vec<(String, JsonValue)> = Vec::new();
    members.push((String::from_str("type"), JsonValue::Str(String::from_str(tag))));
    members.push((String::from_str("value"), value));
    proof {
        lemma_member_models(members@);
        assert(member_models(members@) =~= seq![("type"@, Json::Str(tag@)), ("value"@, vm)]);
    }
    JsonValue::Object(members)
}

/// Whether the members include the key `"kind"`.
fn has_kind_member(members: &Vec<(String, JsonValue)>) -> (r: bool)
    ensures
        r == has_key(member_models(members@), "kind"@),
{
    proof {
        lemma_member_models(members@);
    }
    let kind = String::from_str("kind");
    let mut i: usize = 0;
    while i < members.len()
        invariant
            i <= members.len(),
            kind@ == "kind"@,
            member_models(members@).len() == members@.len(),
            forall|j: int| 0 <= j < members@.len() ==> #[trigger] member_models(members@)[j] == (
                members@[j].0@,
                members@[j].1.model(),
            ),
            forall|j: int| 0 <= j < i ==> members@[j].0@ != "kind"@,
        decreases members.len() - i,
    {
        if members[i].0 == kind {
            assert(member_models(members@)[i as int].0 == "kind"@);
            return true;
        }
        i = i + 1;
    }
    proof {
        assert forall|j: int| 0 <= j < member_models(members@).len() implies #[trigger] member_models(
            members@,
        )[j].0 != "kind"@ by {
            assert(members@[j].0@ != "kind"@);
        }
    }
    false
}

/// Transforms a JSON value into the form the configuration template reads
/// (see [`tera_form`]).
#[verifier::loop_isolation(false)]
pub fn recursive_map(src: &JsonValue) -> (dst: JsonValue)
    ensures
        dst.model() == tera_form(src.model()),
    decreases src,
{
    match src {
        JsonValue::Null => {
            let mut members: Vec<(String, JsonValue)> = Vec::new();
            members.push((String::from_str("type"), JsonValue::Str(String::from_str("null"))));
            proof {
                lemma_member_models(members@);
                assert(member_models(members@) =~= seq![("type"@, Json::Str("null"@))]);
            }
            JsonValue::Object(members)
        },
        JsonValue::Bool(_) => tagged_value("bool", src.deep_copy()),
        JsonValue::Number(_) => tagged_value("number", src.deep_copy()),
        JsonValue::Str(_) => tagged_value("string", src.deep_copy()),
        JsonValue::Array(items) => {
            let mut out: Vec<JsonValue> = Vec::new();
            let mut i: usize = 0;
            while i < items.len()
                invariant
                    i <= items.len(),
                    out.len() == i,
                    forall|j: int|
                        0 <= j < i ==> #[trigger] out@[j].model() == tera_form(items@[j].model()),
                decreases items.len() - i,
            {
                proof {
                    assert(decreases_to!(*src => items@[i as int]));
                }
                let c = recursive_map(&items[i]);
                out.push(c);
                i = i + 1;
            }
            proof {
                lemma_item_models(out@);
                lemma_item_models(items@);
                lemma_tera_items(item_models(items@));
                assert(item_models(out@) =~= tera_items(item_models(items@)));
            }
            JsonValue::Array(out)
        },
        JsonValue::Object(members) => {
            if has_kind_member(members) {
                src.deep_copy()
            } else {
                let mut out: Vec<(String, JsonValue)> = Vec::new();
                let mut i: usize = 0;
                while i < members.len()
                    invariant
                        i <= members.len(),
                        out.len() == i,
                        forall|j: int|
                            0 <= j < i ==> #[trigger] out@[j].0@ == members@[j].0@
                                && out@[j].1.model() == tera_form(members@[j].1.model()),
                    decreases members.len() - i,
                {
                    let k = members[i].0.clone();
                    proof {
                        assert(decreases_to!(*src => members@[i as int].1));
                    }
                    let c = recursive_map(&members[i].1);
                    out.push((k, c));
                    i = i + 1;
                }
                proof {
                    lemma_member_models(out@);
                    lemma_member_models(members@);
                    lemma_tera_members(member_models(members@));
                    assert(member_models(out@) =~= tera_members(member_models(members@)));
                }
                JsonValue::Object(out)
            }
        },
    }
}


/// The keys of an object's members, in order.
pub open spec fn keys(members: Seq<(Seq<char>, Json)>) -> Seq<Seq<char>> {
    members.map_values(|m: (Seq<char>, Json)| m.0)
}

/// No key occurs twice among the members.
pub open spec fn distinct_keys(members: Seq<(Seq<char>, Json)>) -> bool {
    forall|a: int, b: int|
        0 <= a < b < members.len() ==> #[trigger] members[a].0 != #[trigger] members[b].0
}

/// A JSON value in which every object, at any depth, has distinct keys:
/// the values that a parsed JSON document can hold.
pub open spec fn well_formed(j: Json) -> bool
    decreases j,
{
    match j {
        Json::Array(items) => all_well_formed(items),
        Json::Object(members) => distinct_keys(members) && all_members_well_formed(members),
        _ => true,
    }
}

/// Every item is well formed.
pub open spec fn all_well_formed(items: Seq<Json>) -> bool
    decreases items,
{
    if items.len() == 0 {
        true
    } else {
        all_well_formed(items.drop_last()) && well_formed(items.last())
    }
}

/// Every member's value is well formed.
pub open spec fn all_members_well_formed(members: Seq<(Seq<char>, Json)>) -> bool
    decreases members,
{
    if members.len() == 0 {
        true
    } else {
        all_members_well_formed(members.drop_last()) && well_formed(members.last().1)
    }
}

proof fn lemma_all_well_formed(items: Seq<Json>)
    ensures
        all_well_formed(items) <==> forall|i: int|
            0 <= i < items.len() ==> #[trigger] well_formed(items[i]),
    decreases items.len(),
{
    if items.len() > 0 {
        lemma_all_well_formed(items.drop_last());
        if forall|i: int| 0 <= i < items.len() ==> #[trigger] well_formed(items[i]) {
            assert forall|i: int| 0 <= i < items.drop_last().len() implies #[trigger] well_formed(
                items.drop_last()[i],
            ) by {
                assert(items.drop_last()[i] == items[i]);
            }
            assert(well_formed(items[items.len() - 1]));
        }
        if all_well_formed(items) {
            assert forall|i: int| 0 <= i < items.len() implies #[trigger] well_formed(items[i]) by {
                if i < items.len() - 1 {
                    assert(items.drop_last()[i] == items[i]);
                }
            }
        }
    }
}

proof fn lemma_all_members_well_formed(members: Seq<(Seq<char>, Json)>)
    ensures
        all_members_well_formed(members) <==> forall|i: int|
            0 <= i < members.len() ==> #[trigger] well_formed(members[i].1),
    decreases members.len(),
{
    if members.len() > 0 {
        lemma_all_members_well_formed(members.drop_last());
        if forall|i: int| 0 <= i < members.len() ==> #[trigger] well_formed(members[i].1) {
            assert forall|i: int|
                0 <= i < members.drop_last().len() implies #[trigger] well_formed(
                members.drop_last()[i].1,
            ) by {
                assert(members.drop_last()[i] == members[i]);
            }
            assert(well_formed(members[members.len() - 1].1));
        }
        if all_members_well_formed(members) {
            assert forall|i: int| 0 <= i < members.len() implies #[trigger] well_formed(
                members[i].1,
            ) by {
                if i < members.len() - 1 {
                    assert(members.drop_last()[i] == members[i]);
                }
            }
        }
    }
}

/// No scalar is left bare: the template form of any value is an object or
/// an array.
pub proof fn law_tera_form_is_container(j: Json)
    ensures
        tera_form(j) is Object || tera_form(j) is Array,
{
}

/// The template form of an array has one item for each item of the array,
/// in the same order, each in template form.
pub proof fn law_tera_form_array(items: Seq<Json>)
    ensures
        tera_form(Json::Array(items)) matches Json::Array(out) && out.len() == items.len() && (
        forall|i: int| 0 <= i < items.len() ==> #[trigger] out[i] == tera_form(items[i])),
{
    lemma_tera_items(items);
}

/// An object with a `"kind"` member is kept unchanged; any other object
/// keeps exactly its keys, in the same order, each value in template form.
pub proof fn law_tera_form_object(members: Seq<(Seq<char>, Json)>)
    ensures
        has_key(members, "kind"@) ==> tera_form(Json::Object(members)) == Json::Object(members),
        !has_key(members, "kind"@) ==> (tera_form(Json::Object(members)) matches Json::Object(out)
            && keys(out) == keys(members) && (forall|i: int|
            0 <= i < members.len() ==> #[trigger] out[i].1 == tera_form(members[i].1))),
{
    lemma_tera_members(members);
    assert(keys(tera_members(members)) =~= keys(members));
}

/// The template form of a well-formed value is well formed: the
/// transformation never makes two members share a key.
pub proof fn law_tera_form_well_formed(j: Json)
    requires
        well_formed(j),
    ensures
        well_formed(tera_form(j)),
    decreases j,
{
    reveal_strlit("type");
    reveal_strlit("value");
    match j {
        Json::Array(items) => {
            lemma_tera_items(items);
            lemma_all_well_formed(items);
            lemma_all_well_formed(tera_items(items));
            assert forall|i: int| 0 <= i < tera_items(items).len() implies #[trigger] well_formed(
                tera_items(items)[i],
            ) by {
                assert(well_formed(items[i]));
                law_tera_form_well_formed(items[i]);
            }
            assert(all_well_formed(tera_items(items)));
            assert(tera_form(j) == Json::Array(tera_items(items)));
        },
        Json::Object(members) => {
            if !has_key(members, "kind"@) {
                let out = tera_members(members);
                lemma_tera_members(members);
                lemma_all_members_well_formed(members);
                lemma_all_members_well_formed(out);
                assert forall|i: int| 0 <= i < out.len() implies #[trigger] well_formed(out[i].1) by {
                    assert(well_formed(members[i].1));
                    law_tera_form_well_formed(members[i].1);
                }
                assert(distinct_keys(out));
                assert(all_members_well_formed(out));
                assert(tera_form(j) == Json::Object(out));
            }
        },
        _ => {
            assert("type"@.len() != "value"@.len());
            let out = match tera_form(j) {
                Json::Object(m) => m,
                _ => Seq::empty(),
            };
            lemma_all_members_well_formed(out);
            assert(distinct_keys(out));
        },
    }
}

/// Reads a value back from its template form: a kept object stays, a
/// wrapped scalar gives its `"value"` (or null), and arrays and other
/// objects are read back member by member.
pub open spec fn from_tera_form(j: Json) -> Json
    decreases j,
{
    match j {
        Json::Array(items) => Json::Array(from_tera_items(items)),
        Json::Object(members) => if has_key(members, "kind"@) {
            j
        } else if members.len() == 1 && members[0] == ("type"@, Json::Str("null"@)) {
            Json::Null
        } else if members.len() == 2 && members[0].0 == "type"@ && members[0].1 is Str
            && members[1].0 == "value"@ {
            members[1].1
        } else {
            Json::Object(from_tera_members(members))
        },
        _ => j,
    }
}

/// Each item read back from its template form.
pub open spec fn from_tera_items(items: Seq<Json>) -> Seq<Json>
    decreases items,
{
    if items.len() == 0 {
        Seq::empty()
    } else {
        from_tera_items(items.drop_last()).push(from_tera_form(items.last()))
    }
}

/// Each member's value read back from its template form.
pub open spec fn from_tera_members(members: Seq<(Seq<char>, Json)>) -> Seq<(Seq<char>, Json)>
    decreases members,
{
    if members.len() == 0 {
        Seq::empty()
    } else {
        from_tera_members(members.drop_last()).push(
            (members.last().0, from_tera_form(members.last().1)),
        )
    }
}

proof fn lemma_from_tera_items(items: Seq<Json>)
    ensures
        from_tera_items(items).len() == items.len(),
        forall|i: int|
            0 <= i < items.len() ==> #[trigger] from_tera_items(items)[i] == from_tera_form(items[i]),
    decreases items.len(),
{
    if items.len() > 0 {
        lemma_from_tera_items(items.drop_last());
    }
}

proof fn lemma_from_tera_members(members: Seq<(Seq<char>, Json)>)
    ensures
        from_tera_members(members).len() == members.len(),
        forall|i: int|
            0 <= i < members.len() ==> #[trigger] from_tera_members(members)[i] == (
                members[i].0,
                from_tera_form(members[i].1),
            ),
    decreases members.len(),
{
    if members.len() > 0 {
        lemma_from_tera_members(members.drop_last());
    }
}

/// The template form loses nothing: reading it back gives the value it was
/// made from.
pub proof fn law_tera_form_round_trip(j: Json)
    ensures
        from_tera_form(tera_form(j)) == j,
    decreases j,
{
    reveal_strlit("type");
    reveal_strlit("value");
    reveal_strlit("kind");
    assert("type"@[0] != "kind"@[0]);
    assert("value"@.len() != "kind"@.len());
    match j {
        Json::Array(items) => {
            let out = tera_items(items);
            lemma_tera_items(items);
            lemma_from_tera_items(out);
            assert forall|i: int| 0 <= i < items.len() implies #[trigger] from_tera_items(out)[i]
                == items[i] by {
                law_tera_form_round_trip(items[i]);
            }
            assert(from_tera_items(out) =~= items);
        },
        Json::Object(members) => {
            if !has_key(members, "kind"@) {
                let out = tera_members(members);
                lemma_tera_members(members);
                lemma_from_tera_members(out);
                assert(!has_key(out, "kind"@)) by {
                    if has_key(out, "kind"@) {
                        let i = choose|i: int| 0 <= i < out.len() && #[trigger] out[i].0 == "kind"@;
                        assert(members[i].0 == "kind"@);
                    }
                }
                if out.len() > 0 {
                    law_tera_form_is_container(members[0].1);
                    assert(!(out[0].1 is Str));
                }
                assert forall|i: int| 0 <= i < members.len() implies #[trigger] from_tera_members(
                    out,
                )[i] == members[i] by {
                    law_tera_form_round_trip(members[i].1);
                }
                assert(from_tera_members(out) =~= members);
            }
        },
        _ => {
            let out = match tera_form(j) {
                Json::Object(m) => m,
                _ => Seq::empty(),
            };
            assert(!has_key(out, "kind"@)) by {
                if has_key(out, "kind"@) {
                    let i = choose|i: int| 0 <= i < out.len() && #[trigger] out[i].0 == "kind"@;
                }
            }
        },
    }
}

/// No two values share a template form.
pub proof fn law_tera_form_injective(a: Json, b: Json)
    requires
        tera_form(a) == tera_form(b),
    ensures
        a == b,
{
    law_tera_form_round_trip(a);
    law_tera_form_round_trip(b);
}

impl JsonValue {
    /// Whether every object in this value has distinct keys.
    pub open spec fn well_formed(self) -> bool {
        well_formed(self.model())
    }
}

/// Values that the configuration page can render: they give their
/// template form as a JSON value.
pub trait ToTera {
    fn to_tera(&self) -> JsonValue;
}

impl ToTera for JsonValue {
    /// The template form of this value (see [`tera_form`]).
    fn to_tera(&self) -> (r: JsonValue)
        ensures
            r.model() == tera_form(self.model()),
    {
        recursive_map(self)
    }
}

/// `serde_json::Value`, which the parser hands back before it is read into
/// a [`JsonValue`].
#[verifier::external_type_specification]
#[verifier::external_body]
pub struct ExSerdeValue(serde_json::Value);

/// The value that `serde_json` reads from a text, read into the library's
/// model (objects come out in the order of `serde_json::Map`), or `None`
/// where `serde_json` refuses the text.
pub uninterp spec fn json_parse(text: Seq<char>) -> Option<Json>;

/// A text that can stand between two double quotes as a JSON string as it
/// is: no quote, no backslash, no control character.
pub open spec fn plain_text(s: Seq<char>) -> bool {
    forall|i: int| 0 <= i < s.len() ==> {
        let c = #[trigger] s[i];
        c != '"' && c != '\\' && c as int >= 0x20
    }
}

/// The text between two double quotes.
pub open spec fn quoted(s: Seq<char>) -> Seq<char> {
    seq!['"'] + s + seq!['"']
}

/// A `serde_json::Value` read into a [`JsonValue`], variant for variant;
/// numbers keep the text that `serde_json` writes for them.
#[verifier::external_body]
fn json_value_of(v: &serde_json::Value) -> (r: JsonValue) {
    match v {
        serde_json::Value::Null => JsonValue::Null,
        serde_json::Value::Bool(b) => JsonValue::Bool(*b),
        serde_json::Value::Number(n) => JsonValue::Number(n.to_string()),
        serde_json::Value::String(t) => JsonValue::Str(t.clone()),
        serde_json::Value::Array(a) => JsonValue::Array(a.iter().map(json_value_of).collect()),
        serde_json::Value::Object(m) => JsonValue::Object(
            m.iter().map(|(k, x)| (k.clone(), json_value_of(x))).collect(),
        ),
    }
}

/// `serde_json::from_str::<serde_json::Value>`: the value that a JSON text
/// holds.  Claimed of it: the result is the one named by [`json_parse`] on
/// the text (the same text always gives the same value), and a plain text
/// between double quotes reads as that string, as the JSON grammar and
/// `serde_json`'s string reader give it.
#[verifier::external_body]
pub(crate) fn parse_json(text: &str) -> (r: Option<JsonValue>)
    ensures
        r is Some <==> json_parse(text@) is Some,
        r matches Some(v) ==> json_parse(text@) == Some(v.model()),
        r matches Some(v) ==> forall|s: Seq<char>|
            plain_text(s) && text@ == quoted(s) ==> v.model() == Json::Str(s),
        forall|s: Seq<char>| plain_text(s) && text@ == quoted(s) ==> r is Some,
{
    serde_json::from_str::<serde_json::Value>(text).ok().map(|v| json_value_of(&v))
}

/// The strings of a sequence of names.
pub open spec fn name_strings(names: Seq<String>) -> Seq<Json>
    decreases names,
{
    if names.len() == 0 {
        Seq::empty()
    } else {
        name_strings(names.drop_last()).push(Json::Str(names.last()@))
    }
}

/// The layout of an enumeration value: its type `"enum"`, the names of all
/// its members, and the name of the member it holds as its kind.
pub open spec fn enum_layout(members: Seq<String>, kind: Seq<char>) -> Json {
    Json::Object(
        seq![
            ("type"@, Json::Str("enum"@)),
            ("members"@, Json::Array(name_strings(members))),
            ("kind"@, Json::Str(kind)),
        ],
    )
}

/// An enumeration value laid out as `{"type": "enum", "members": [...],
/// "kind": ...}`, so that a template can offer every member and mark the
/// one held.
pub fn enum_json(members: &Vec<String>, kind: &str) -> (r: JsonValue)
    ensures
        r.model() == enum_layout(members@, kind@),
{
    let mut names: Vec<JsonValue> = Vec::new();
    let mut i: usize = 0;
    while i < members.len()
        invariant
            i <= members.len(),
            item_models(names@) == name_strings(members@.subrange(0, i as int)),
        decreases members.len() - i,
    {
        let name = members[i].clone();
        let ghost before = names@;
        let ghost item = JsonValue::Str(name);
        names.push(JsonValue::Str(name));
        proof {
            assert(names@ == before.push(item));
            assert(names@.last() == item);
            assert(item.model() == Json::Str(members@[i as int]@));
            assert(names@.drop_last() =~= before);
            assert(members@.subrange(0, i + 1).drop_last() =~= members@.subrange(0, i as int));
            assert(item_models(names@) == item_models(before).push(Json::Str(members@[i as int]@)));
            assert(name_strings(members@.subrange(0, i + 1)) == name_strings(
                members@.subrange(0, i as int),
            ).push(Json::Str(members@[i as int]@)));
        }
        i = i + 1;
    }
    proof {
        assert(members@.subrange(0, members@.len() as int) =~= members@);
    }
    let mut fields: Vec<(String, JsonValue)> = Vec::new();
    fields.push((String::from_str("type"), JsonValue::Str(String::from_str("enum"))));
    fields.push((String::from_str("members"), JsonValue::Array(names)));
    fields.push((String::from_str("kind"), JsonValue::Str(String::from_str(kind))));
    proof {
        lemma_member_models(fields@);
        assert(member_models(fields@) =~= seq![
            ("type"@, Json::Str("enum"@)),
            ("members"@, Json::Array(name_strings(members@))),
            ("kind"@, Json::Str(kind@)),
        ]);
    }
    JsonValue::Object(fields)
}

/// The template form keeps an enumeration's layout as it is: the object
/// has a `"kind"` member.
pub proof fn law_tera_form_keeps_enum(members: Seq<String>, kind: Seq<char>)
    ensures
        tera_form(enum_layout(members, kind)) == enum_layout(members, kind),
{
    let fields = seq![
        ("type"@, Json::Str("enum"@)),
        ("members"@, Json::Array(name_strings(members))),
        ("kind"@, Json::Str(kind)),
    ];
    assert(fields[2].0 == "kind"@);
    assert(has_key(fields, "kind"@));
}

/// A [`JsonValue`] written as a `serde_json::Value`, variant for variant;
/// `None` when a number's text is no JSON number.  Object members go into
/// a `serde_json::Map`, where a later member of the same key replaces an
/// earlier one.
#[verifier::external_body]
pub(crate) fn serde_value_of(v: &JsonValue) -> (r: Option<serde_json::Value>) {
    Some(match v {
        JsonValue::Null => serde_json::Value::Null,
        JsonValue::Bool(b) => serde_json::Value::Bool(*b),
        JsonValue::Number(n) => serde_json::Value::Number(n.parse().ok()?),
        JsonValue::Str(t) => serde_json::Value::String(t.clone()),
        JsonValue::Array(a) => serde_json::Value::Array(a.iter().map(serde_value_of).collect::<Option<_>>()?),
        JsonValue::Object(m) => serde_json::Value::Object(
            m.iter().map(|(k, x)| Some((k.clone(), serde_value_of(x)?))).collect::<Option<_>>()?,
        ),
    })
}

/// The JSON text that `serde_json` writes for a value, or `None` where a
/// number's text is no JSON number.
pub uninterp spec fn json_written(value: Json) -> Option<Seq<char>>;

/// `serde_json::to_string` on the value written as a `serde_json::Value`:
/// compact JSON text.  Claimed of it: the result is the one named by
/// [`json_written`] on the value's model.
#[verifier::external_body]
pub(crate) fn write_json(v: &JsonValue) -> (r: Option<String>)
    ensures
        r is Some <==> json_written(v.model()) is Some,
        r matches Some(s) ==> json_written(v.model()) == Some(s@),
{
    serde_json::to_string(&serde_value_of(v)?).ok()
}

/// Every scalar's template form names its type beside the value: a boolean
/// becomes `{"type": "bool", "value": b}`, a number `{"type": "number",
/// "value": n}`, a string `{"type": "string", "value": s}`, and null
/// `{"type": "null"}`.
pub proof fn law_tera_form_scalars(b: bool, n: Seq<char>, t: Seq<char>)
    ensures
        tera_form(Json::Bool(b)) == Json::Object(seq![("type"@, Json::Str("bool"@)), ("value"@, Json::Bool(b))]),
        tera_form(Json::Number(n)) == Json::Object(
            seq![("type"@, Json::Str("number"@)), ("value"@, Json::Number(n))],
        ),
        tera_form(Json::Str(t)) == Json::Object(
            seq![("type"@, Json::Str("string"@)), ("value"@, Json::Str(t))],
        ),
        tera_form(Json::Null) == Json::Object(seq![("type"@, Json::Str("null"@))]),
{
}

} // verus!
