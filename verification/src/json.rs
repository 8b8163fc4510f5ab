//! JSON documents as the mesh reads them.
//!
//! Text is turned into a [`JsonValue`] tree and back by `serde_json`; every
//! question the mesh asks of a document (which members it has, what kind of
//! value a member holds) is answered on the tree by verified code.

use serde_json::Value;
use vstd::prelude::*;

verus! {

/// `serde_json::Number`, carried as an opaque value.
#[verifier::external_type_specification]
#[verifier::external_body]
pub struct ExNumber(serde_json::Number);

/// `serde_json::Value`, carried as an opaque value between `serde_json` and
/// the conversions below.
#[verifier::external_type_specification]
#[verifier::external_body]
pub struct ExValue(Value);

/// A JSON number. Whole numbers are held as integers; any other number is
/// carried through untouched.
#[derive(Debug, PartialEq)]
pub enum JsonNumber {
    Unsigned(u64),
    Signed(i64),
    Real(serde_json::Number),
}

/// A JSON document. The members of an object keep the order in which they
/// were written.
#[derive(Debug, PartialEq)]
pub enum JsonValue {
    Null,
    Bool(bool),
    Number(JsonNumber),
    Text(String),
    Array(Vec<JsonValue>),
    Object(Vec<(String, JsonValue)>),
}

/// The mathematical model of a [`JsonValue`].
pub enum JsonModel {
    Null,
    Bool(bool),
    Number(JsonNumber),
    Text(Seq<char>),
    Array(Seq<JsonModel>),
    Object(Seq<(Seq<char>, JsonModel)>),
}

impl View for JsonValue {
    type V = JsonModel;

    open spec fn view(&self) -> JsonModel
        decreases self,
    {
        match self {
            JsonValue::Null => JsonModel::Null,
            JsonValue::Bool(flag) => JsonModel::Bool(*flag),
            JsonValue::Number(number) => JsonModel::Number(*number),
            JsonValue::Text(text) => JsonModel::Text(text@),
            JsonValue::Array(items) => JsonModel::Array(
                Seq::new(
                    items.len() as nat,
                    |i: int|
                        if 0 <= i < items.len() {
                            items[i]@
                        } else {
                            JsonModel::Null
                        },
                ),
            ),
            JsonValue::Object(members) => JsonModel::Object(
                Seq::new(
                    members.len() as nat,
                    |i: int|
                        if 0 <= i < members.len() {
                            (members[i].0@, members[i].1@)
                        } else {
                            (Seq::empty(), JsonModel::Null)
                        },
                ),
            ),
        }
    }
}

/// The value of the first member named `key` among `members`.
pub open spec fn first_named(members: Seq<(Seq<char>, JsonModel)>, key: Seq<char>) -> Option<
    JsonModel,
>
    decreases members.len(),
{
    if members.len() == 0 {
        None
    } else if members[0].0 == key {
        Some(members[0].1)
    } else {
        first_named(members.drop_first(), key)
    }
}

/// No two of `members` share a name.
pub open spec fn names_distinct(members: Seq<(Seq<char>, JsonModel)>) -> bool {
    forall|i: int, j: int| 0 <= i < j < members.len() ==> members[i].0 != members[j].0
}

impl JsonModel {
    /// The document is well formed: no object in it, at any depth, names a
    /// member twice. Every document that was read from text is well formed.
    pub open spec fn well_formed(self) -> bool
        decreases self,
    {
        match self {
            JsonModel::Array(items) => {
                forall|i: int|
                    0 <= i < items.len() ==> ({
                        let item = #[trigger] items[i];
                        item.well_formed()
                    })
            },
            JsonModel::Object(members) => {
                &&& names_distinct(members)
                &&& forall|i: int|
                    0 <= i < members.len() ==> (#[trigger] members[i]).1.well_formed()
            },
            _ => true,
        }
    }

    /// The member named `key`, where the document is an object that has one.
    pub open spec fn member(self, key: Seq<char>) -> Option<JsonModel> {
        match self {
            JsonModel::Object(members) => first_named(members, key),
            _ => None,
        }
    }

    /// The characters of a string value.
    pub open spec fn as_text(self) -> Option<Seq<char>> {
        match self {
            JsonModel::Text(text) => Some(text),
            _ => None,
        }
    }

    /// The truth value of `true` or `false`.
    pub open spec fn as_flag(self) -> Option<bool> {
        match self {
            JsonModel::Bool(flag) => Some(flag),
            _ => None,
        }
    }

    /// The items of an array.
    pub open spec fn as_items(self) -> Option<Seq<JsonModel>> {
        match self {
            JsonModel::Array(items) => Some(items),
            _ => None,
        }
    }
}

/// The models of `items`, in order.
pub open spec fn models_of(items: Seq<JsonValue>) -> Seq<JsonModel> {
    Seq::new(items.len(), |i: int| items[i]@)
}

/// The models of the members of an object, in order.
pub open spec fn member_models(members: Seq<(String, JsonValue)>) -> Seq<(Seq<char>, JsonModel)> {
    Seq::new(members.len(), |i: int| (members[i].0@, members[i].1@))
}

/// The model of an array holds the models of its items.
pub proof fn lemma_array_model(items: Vec<JsonValue>)
    ensures
        JsonValue::Array(items)@ == JsonModel::Array(models_of(items@)),
{
    reveal_with_fuel(<JsonValue as View>::view, 2);
    assert(JsonValue::Array(items)@->Array_0 =~= models_of(items@));
}

/// The model of an object holds the names and the models of its members.
pub proof fn lemma_object_model(members: Vec<(String, JsonValue)>)
    ensures
        JsonValue::Object(members)@ == JsonModel::Object(member_models(members@)),
{
    reveal_with_fuel(<JsonValue as View>::view, 2);
    assert(JsonValue::Object(members)@->Object_0 =~= member_models(members@));
}

/// Among members with distinct names, a member is the one that its name
/// finds: no other member can answer for it.
pub proof fn lemma_name_finds_its_member(
    members: Seq<(Seq<char>, JsonModel)>,
    key: Seq<char>,
    i: int,
)
    requires
        names_distinct(members),
        0 <= i < members.len(),
        members[i].0 == key,
    ensures
        first_named(members, key) == Some(members[i].1),
    decreases members.len(),
{
    if i > 0 {
        let rest = members.drop_first();
        assert(members[0].0 != members[i].0);
        assert(names_distinct(rest)) by {
            assert forall|a: int, b: int| 0 <= a < b < rest.len() implies rest[a].0 != rest[b].0 by {
                assert(rest[a] == members[a + 1] && rest[b] == members[b + 1]);
            }
        }
        lemma_name_finds_its_member(rest, key, i - 1);
    }
}

/// The document that `serde_json` reads from `bytes`, or `None` where it
/// rejects them. Where the text names a member of an object twice,
/// `serde_json` holds the name once, in the place of the first and with the
/// value of the last.
pub uninterp spec fn json_document(bytes: Seq<u8>) -> Option<JsonModel>;

/// The compact text that `serde_json` writes for a well-formed `doc`.
pub uninterp spec fn json_text(doc: JsonModel) -> Seq<char>;

/// Moves a `serde_json::Value` into the library's tree, variant by variant.
/// A number that `as_u64` knows becomes `Unsigned`, one that only `as_i64`
/// knows (a negative whole number) becomes `Signed`, any other is kept as it
/// is.
#[verifier::external_body]
fn tree_from_serde(value: Value) -> JsonValue {
    match value {
        Value::Null => JsonValue::Null,
        Value::Bool(flag) => JsonValue::Bool(flag),
        Value::Number(number) => JsonValue::Number(match (number.as_u64(), number.as_i64()) {
            (Some(whole), _) => JsonNumber::Unsigned(whole),
            (None, Some(whole)) => JsonNumber::Signed(whole),
            (None, None) => JsonNumber::Real(number),
        }),
        Value::String(text) => JsonValue::Text(text),
        Value::Array(items) => JsonValue::Array(items.into_iter().map(tree_from_serde).collect()),
        Value::Object(members) => JsonValue::Object(
            members.into_iter().map(|(key, member)| (key, tree_from_serde(member))).collect(),
        ),
    }
}

/// Calls `serde_json::from_slice`. The whole input must be one JSON value,
/// surrounded by white space at most; the result depends on the bytes alone.
/// `serde_json` holds the members of every object in a map keyed by name, so
/// no object of the result names a member twice.
#[verifier::external_body]
fn parse_with_serde(bytes: &[u8]) -> (doc: Option<JsonValue>)
    ensures
        match doc {
            Some(tree) => json_document(bytes@) == Some(tree@) && tree@.well_formed(),
            None => json_document(bytes@) is None,
        },
{
    match serde_json::from_slice::<Value>(bytes) {
        Ok(value) => Some(tree_from_serde(value)),
        Err(_) => None,
    }
}

/// Moves a tree of the library into a `serde_json::Value`, variant by
/// variant. On a well-formed tree, which is all that it is handed, no member
/// is lost: `serde_json` keeps one member for each name.
#[verifier::external_body]
fn tree_to_serde(tree: &JsonValue) -> Value {
    match tree {
        JsonValue::Null => Value::Null,
        JsonValue::Bool(flag) => Value::Bool(*flag),
        JsonValue::Number(JsonNumber::Unsigned(whole)) => Value::from(*whole),
        JsonValue::Number(JsonNumber::Signed(whole)) => Value::from(*whole),
        JsonValue::Number(JsonNumber::Real(number)) => Value::Number(number.clone()),
        JsonValue::Text(text) => Value::String(text.clone()),
        JsonValue::Array(items) => Value::Array(items.iter().map(tree_to_serde).collect()),
        JsonValue::Object(members) => Value::Object(
            members.iter().map(|(key, member)| (key.clone(), tree_to_serde(member))).collect(),
        ),
    }
}

/// Calls `to_string` of `serde_json::Value`, which writes the value in
/// compact form: no white space, members in the order they are held. The
/// result depends on the document alone.
#[verifier::external_body]
fn render_with_serde(tree: &JsonValue) -> (text: String)
    requires
        tree@.well_formed(),
    ensures
        text@ == json_text(tree@),
{
    tree_to_serde(tree).to_string()
}

impl JsonValue {
    /// Writes the document as compact JSON text.
    pub fn render(&self) -> (text: String)
        requires
            self@.well_formed(),
        ensures
            text@ == json_text(self@),
    {
        render_with_serde(self)
    }

    /// Looks up the member named `key`. Anything but an object has no
    /// members.
    pub fn get(&self, key: &str) -> (found: Option<&JsonValue>)
        ensures
            match found {
                Some(value) => self@.member(key@) == Some(value@),
                None => self@.member(key@) is None,
            },
    {
        match self {
            JsonValue::Object(members) => {
                let wanted = key.to_owned();
                let ghost model = member_models(members@);
                proof {
                    lemma_object_model(*members);
                    assert(model.skip(0) =~= model);
                }
                let mut i: usize = 0;
                while i < members.len()
                    invariant
                        i <= members.len(),
                        wanted@ == key@,
                        model == member_models(members@),
                        self@ == JsonModel::Object(model),
                        first_named(model, key@) == first_named(model.skip(i as int), key@),
                    decreases members.len() - i,
                {
                    assert(model.skip(i as int)[0] == model[i as int]);
                    if members[i].0 == wanted {
                        return Some(&members[i].1);
                    }
                    assert(model.skip(i as int).drop_first() =~= model.skip(i + 1));
                    i += 1;
                }
                None
            },
            _ => None,
        }
    }

    /// The text of a string value.
    pub fn as_text(&self) -> (text: Option<&str>)
        ensures
            match text {
                Some(chars) => self@.as_text() == Some(chars@),
                None => self@.as_text() is None,
            },
    {
        match self {
            JsonValue::Text(text) => Some(text.as_str()),
            _ => None,
        }
    }

    /// The truth value of `true` or `false`.
    pub fn as_flag(&self) -> (flag: Option<bool>)
        ensures
            flag == self@.as_flag(),
    {
        match self {
            JsonValue::Bool(flag) => Some(*flag),
            _ => None,
        }
    }

    /// The items of an array.
    pub fn as_items(&self) -> (items: Option<&Vec<JsonValue>>)
        ensures
            match items {
                Some(values) => self@.as_items() == Some(models_of(values@)),
                None => self@.as_items() is None,
            },
    {
        match self {
            JsonValue::Array(items) => {
                proof {
                    lemma_array_model(*items);
                }
                Some(items)
            },
            _ => None,
        }
    }

    /// Whether the value is `null`.
    pub fn is_null(&self) -> (null: bool)
        ensures
            null == (self@ is Null),
    {
        match self {
            JsonValue::Null => true,
            _ => false,
        }
    }

    /// Whether the document is well formed: no object in it names a member
    /// twice.
    pub fn is_well_formed(&self) -> (well_formed: bool)
        ensures
            well_formed == self@.well_formed(),
        decreases self,
    {
        match self {
            JsonValue::Array(items) => {
                proof {
                    lemma_array_model(*items);
                }
                let mut i: usize = 0;
                while i < items.len()
                    invariant
                        i <= items.len(),
                        self == JsonValue::Array(*items),
                        self@ == JsonModel::Array(models_of(items@)),
                        forall|k: int| 0 <= k < i ==> (#[trigger] items[k])@.well_formed(),
                    decreases items.len() - i,
                {
                    proof {
                        vstd::std_specs::vec::axiom_vec_index_decreases(*items, i as int);
                    }
                    if !items[i].is_well_formed() {
                        assert(!models_of(items@)[i as int].well_formed());
                        return false;
                    }
                    i += 1;
                }
                assert forall|k: int| 0 <= k < models_of(items@).len() implies (
                #[trigger] models_of(items@)[k]).well_formed() by {
                    assert(items[k]@.well_formed());
                }
                true
            },
            JsonValue::Object(members) => {
                proof {
                    lemma_object_model(*members);
                }
                let ghost model = member_models(members@);
                let mut i: usize = 0;
                while i < members.len()
                    invariant
                        i <= members.len(),
                        self == JsonValue::Object(*members),
                        self@ == JsonModel::Object(model),
                        model == member_models(members@),
                        forall|k: int| 0 <= k < i ==> (#[trigger] members[k]).1@.well_formed(),
                        forall|a: int, b: int| 0 <= a < b < i ==> model[a].0 != model[b].0,
                    decreases members.len() - i,
                {
                    let mut j: usize = 0;
                    while j < i
                        invariant
                            j <= i,
                            i < members.len(),
                            self@ == JsonModel::Object(model),
                            model == member_models(members@),
                            forall|a: int| 0 <= a < j ==> model[a].0 != model[i as int].0,
                        decreases i - j,
                    {
                        if members[j].0 == members[i].0 {
                            assert(model[j as int].0 == model[i as int].0);
                            return false;
                        }
                        j += 1;
                    }
                    proof {
                        vstd::std_specs::vec::axiom_vec_index_decreases(*members, i as int);
                    }
                    if !members[i].1.is_well_formed() {
                        assert(!model[i as int].1.well_formed());
                        return false;
                    }
                    i += 1;
                }
                assert(names_distinct(model));
                assert forall|k: int| 0 <= k < model.len() implies (#[trigger] model[k]).1.well_formed() by {
                    assert(members[k].1@.well_formed());
                }
                true
            },
            _ => true,
        }
    }

    /// Reads one JSON document from `bytes`. What is read is well formed.
    pub fn parse(bytes: &[u8]) -> (doc: Option<JsonValue>)
        ensures
            match doc {
                Some(tree) => json_document(bytes@) == Some(tree@) && tree@.well_formed(),
                None => json_document(bytes@) is None,
            },
    {
        parse_with_serde(bytes)
    }
}

} // verus!
