//! JSON values, as events carry them.

use vstd::prelude::*;

use crate::text::same_text;

verus! {

/// A JSON value. A number that is not an integer is kept as the bits of its double.
#[derive(Debug, PartialEq, Eq)]
pub enum Json {
    Null,
    Bool(bool),
    Unsigned(u64),
    Negative(i64),
    FloatBits(u64),
    Text(String),
    Array(Vec<Json>),
    Object(Vec<JsonMember>),
}

/// A named value inside an object.
#[derive(Debug, PartialEq, Eq)]
pub struct JsonMember {
    pub key: String,
    pub value: Json,
}

/// The contents of a [`Json`].
#[verifier::ext_equal]
pub enum JsonModel {
    Null,
    Bool(bool),
    Unsigned(u64),
    Negative(i64),
    FloatBits(u64),
    Text(Seq<char>),
    Array(Seq<JsonModel>),
    Object(Seq<(Seq<char>, JsonModel)>),
}

/// The contents of a JSON value.
pub open spec fn json_model(value: Json) -> JsonModel
    decreases value,
{
    match value {
        Json::Null => JsonModel::Null,
        Json::Bool(flag) => JsonModel::Bool(flag),
        Json::Unsigned(number) => JsonModel::Unsigned(number),
        Json::Negative(number) => JsonModel::Negative(number),
        Json::FloatBits(bits) => JsonModel::FloatBits(bits),
        Json::Text(text) => JsonModel::Text(text@),
        Json::Array(items) => JsonModel::Array(
            Seq::new(
                items@.len(),
                |i: int|
                    if 0 <= i < items@.len() {
                        json_model(items@[i])
                    } else {
                        JsonModel::Null
                    },
            ),
        ),
        Json::Object(members) => JsonModel::Object(
            Seq::new(
                members@.len(),
                |i: int|
                    if 0 <= i < members@.len() {
                        (members@[i].key@, json_model(members@[i].value))
                    } else {
                        (Seq::empty(), JsonModel::Null)
                    },
            ),
        ),
    }
}

impl View for Json {
    type V = JsonModel;

    open spec fn view(&self) -> JsonModel {
        json_model(*self)
    }
}

/// The contents of a list of JSON values.
pub open spec fn json_items(items: Seq<Json>) -> Seq<JsonModel> {
    Seq::new(items.len(), |i: int| items[i]@)
}

/// The contents of a list of members.
pub open spec fn json_members(members: Seq<JsonMember>) -> Seq<(Seq<char>, JsonModel)> {
    Seq::new(members.len(), |i: int| (members[i].key@, members[i].value@))
}

proof fn lemma_array_model(items: Vec<Json>)
    ensures
        Json::Array(items)@ == JsonModel::Array(json_items(items@)),
{
    assert(Json::Array(items)@->Array_0 =~= json_items(items@));
}

pub proof fn lemma_object_model(members: Vec<JsonMember>)
    ensures
        Json::Object(members)@ == JsonModel::Object(json_members(members@)),
{
    assert(Json::Object(members)@->Object_0 =~= json_members(members@));
}

impl Clone for Json {
    fn clone(&self) -> (r: Self)
        ensures
            r@ == self@,
        decreases self,
    {
        match self {
            Json::Null => Json::Null,
            Json::Bool(flag) => Json::Bool(*flag),
            Json::Unsigned(number) => Json::Unsigned(*number),
            Json::Negative(number) => Json::Negative(*number),
            Json::FloatBits(bits) => Json::FloatBits(*bits),
            Json::Text(text) => Json::Text(text.clone()),
            Json::Array(items) => {
                let mut copy: Vec<Json> = Vec::new();
                let mut i: usize = 0;
                while i < items.len()
                    invariant
                        i <= items.len(),
                        *self == Json::Array(*items),
                        copy.len() == i,
                        forall|j: int| 0 <= j < i ==> (#[trigger] copy@[j])@ == items@[j]@,
                    decreases items.len() - i,
                {
                    assert(decreases_to!(*self => self->Array_0));
                    assert(decreases_to!(*items => items@));
                    assert(decreases_to!(items@ => items@[i as int]));
                    copy.push(items[i].clone());
                    i = i + 1;
                }
                proof {
                    lemma_array_model(*items);
                    lemma_array_model(copy);
                    assert(json_items(copy@) =~= json_items(items@));
                }
                Json::Array(copy)
            },
            Json::Object(members) => {
                let mut copy: Vec<JsonMember> = Vec::new();
                let mut i: usize = 0;
                while i < members.len()
                    invariant
                        i <= members.len(),
                        *self == Json::Object(*members),
                        copy.len() == i,
                        forall|j: int|
                            0 <= j < i ==> (#[trigger] copy@[j]).key@ == members@[j].key@
                                && copy@[j].value@ == members@[j].value@,
                    decreases members.len() - i,
                {
                    assert(decreases_to!(*self => self->Object_0));
                    assert(decreases_to!(*members => members@));
                    assert(decreases_to!(members@ => members@[i as int]));
                    assert(decreases_to!(members@[i as int] => members@[i as int].value));
                    copy.push(
                        JsonMember {
                            key: members[i].key.clone(),
                            value: members[i].value.clone(),
                        },
                    );
                    i = i + 1;
                }
                proof {
                    lemma_object_model(*members);
                    lemma_object_model(copy);
                    assert(json_members(copy@) =~= json_members(members@));
                }
                Json::Object(copy)
            },
        }
    }
}

/// The contents of a text value.
pub open spec fn json_text(text: Seq<char>) -> JsonModel {
    JsonModel::Text(text)
}

/// The contents of an integer.
pub open spec fn json_int(number: int) -> JsonModel {
    if number >= 0 {
        JsonModel::Unsigned(number as u64)
    } else {
        JsonModel::Negative(number as i64)
    }
}

/// Text, or null where there is none.
pub open spec fn json_opt_text(text: Option<Seq<char>>) -> JsonModel {
    match text {
        Some(text) => JsonModel::Text(text),
        None => JsonModel::Null,
    }
}

/// A number, or null where there is none.
pub open spec fn json_opt_uint(number: Option<u64>) -> JsonModel {
    match number {
        Some(number) => JsonModel::Unsigned(number),
        None => JsonModel::Null,
    }
}

/// A list of texts.
pub open spec fn json_text_list(texts: Seq<Seq<char>>) -> JsonModel {
    JsonModel::Array(Seq::new(texts.len(), |i: int| JsonModel::Text(texts[i])))
}

impl Json {
    pub fn text(text: &str) -> (r: Json)
        ensures
            r@ == json_text(text@),
    {
        Json::Text(String::from_str(text))
    }

    pub fn unsigned(number: u64) -> (r: Json)
        ensures
            r@ == json_int(number as int),
            r@ == JsonModel::Unsigned(number),
    {
        Json::Unsigned(number)
    }

    pub fn integer(number: i64) -> (r: Json)
        ensures
            r@ == json_int(number as int),
    {
        if number >= 0 {
            Json::Unsigned(number as u64)
        } else {
            Json::Negative(number)
        }
    }

    pub fn opt_text(text: Option<&str>) -> (r: Json)
        ensures
            r@ == json_opt_text(
                match text {
                    Some(text) => Some(text@),
                    None => None,
                },
            ),
    {
        match text {
            Some(text) => Json::text(text),
            None => Json::Null,
        }
    }

    pub fn opt_string(text: &Option<String>) -> (r: Json)
        ensures
            r@ == json_opt_text(crate::collections::opt_view(*text)),
    {
        match text {
            Some(text) => Json::text(text.as_str()),
            None => Json::Null,
        }
    }

    pub fn opt_uint(number: Option<u64>) -> (r: Json)
        ensures
            r@ == json_opt_uint(number),
    {
        match number {
            Some(number) => Json::Unsigned(number),
            None => Json::Null,
        }
    }

    pub fn list(items: Vec<Json>) -> (r: Json)
        ensures
            r@ == JsonModel::Array(json_items(items@)),
    {
        proof {
            lemma_array_model(items);
        }
        Json::Array(items)
    }

    pub fn text_list(texts: &Vec<String>) -> (r: Json)
        ensures
            r@ == json_text_list(crate::collections::views(texts@)),
    {
        let mut items: Vec<Json> = Vec::new();
        let mut i: usize = 0;
        while i < texts.len()
            invariant
                i <= texts.len(),
                items.len() == i,
                forall|j: int| 0 <= j < i ==> (#[trigger] items@[j])@ == JsonModel::Text(texts@[j]@),
            decreases texts.len() - i,
        {
            items.push(Json::text(texts[i].as_str()));
            i = i + 1;
        }
        assert(json_items(items@) =~= json_text_list(
            crate::collections::views(texts@),
        )->Array_0);
        Json::list(items)
    }
}

/// The members of an empty object.
pub open spec fn no_members() -> Seq<(Seq<char>, JsonModel)> {
    Seq::empty()
}

/// An object under construction.
pub struct JsonObject {
    pub members: Vec<JsonMember>,
}

impl View for JsonObject {
    type V = Seq<(Seq<char>, JsonModel)>;

    open spec fn view(&self) -> Seq<(Seq<char>, JsonModel)> {
        json_members(self.members@)
    }
}

impl JsonObject {
    pub fn new() -> (r: JsonObject)
        ensures
            r@ == no_members(),
    {
        JsonObject { members: Vec::new() }
    }

    pub fn with(self, key: &str, value: Json) -> (r: JsonObject)
        ensures
            r@ == self@.push((key@, value@)),
    {
        let mut members = self.members;
        let ghost before = members@;
        members.push(JsonMember { key: String::from_str(key), value });
        assert(json_members(members@) =~= json_members(before).push((key@, value@)));
        JsonObject { members }
    }

    pub fn build(self) -> (r: Json)
        ensures
            r@ == JsonModel::Object(self@),
    {
        proof {
            lemma_object_model(self.members);
        }
        Json::Object(self.members)
    }
}

/// The value of the first member with the given key.
pub open spec fn member_of(members: Seq<(Seq<char>, JsonModel)>, key: Seq<char>) -> Option<JsonModel>
    decreases members.len(),
{
    if members.len() == 0 {
        None
    } else if members[0].0 == key {
        Some(members[0].1)
    } else {
        member_of(members.drop_first(), key)
    }
}

impl JsonModel {
    /// The member of an object with the given key; nothing else has members.
    pub open spec fn get(self, key: Seq<char>) -> Option<JsonModel> {
        match self {
            JsonModel::Object(members) => member_of(members, key),
            _ => None,
        }
    }

    pub open spec fn as_text(self) -> Option<Seq<char>> {
        match self {
            JsonModel::Text(text) => Some(text),
            _ => None,
        }
    }

    pub open spec fn as_u64(self) -> Option<u64> {
        match self {
            JsonModel::Unsigned(number) => Some(number),
            _ => None,
        }
    }

    pub open spec fn as_bool(self) -> Option<bool> {
        match self {
            JsonModel::Bool(flag) => Some(flag),
            _ => None,
        }
    }

    pub open spec fn as_array(self) -> Option<Seq<JsonModel>> {
        match self {
            JsonModel::Array(items) => Some(items),
            _ => None,
        }
    }
}

/// A member that is put last is found where none before it has its key.
pub broadcast proof fn lemma_member_added(
    members: Seq<(Seq<char>, JsonModel)>,
    member: (Seq<char>, JsonModel),
    key: Seq<char>,
)
    ensures
        #[trigger] member_of(members.push(member), key) == match member_of(members, key) {
            Some(value) => Some(value),
            None => if member.0 == key {
                Some(member.1)
            } else {
                None
            },
        },
    decreases members.len(),
{
    let all = members.push(member);
    if members.len() == 0 {
        assert(all.drop_first() =~= members);
    } else {
        assert(all.drop_first() =~= members.drop_first().push(member));
        lemma_member_added(members.drop_first(), member, key);
    }
}

proof fn lemma_member_found(members: Seq<(Seq<char>, JsonModel)>, key: Seq<char>, at: int)
    requires
        0 <= at <= members.len(),
        forall|i: int| 0 <= i < at ==> members[i].0 != key,
    ensures
        at < members.len() && members[at].0 == key ==> member_of(members, key) == Some(
            members[at].1,
        ),
        at == members.len() ==> member_of(members, key) is None,
    decreases members.len(),
{
    if at > 0 {
        lemma_member_found(members.drop_first(), key, at - 1);
    }
}

impl Json {
    /// The member of an object with the given key; nothing else has members.
    pub fn get(&self, key: &str) -> (r: Option<&Json>)
        ensures
            match r {
                Some(value) => self@.get(key@) == Some(value@),
                None => self@.get(key@) is None,
            },
    {
        match self {
            Json::Object(members) => {
                proof {
                    lemma_object_model(*members);
                }
                let mut i: usize = 0;
                while i < members.len()
                    invariant
                        i <= members.len(),
                        self@ == JsonModel::Object(json_members(members@)),
                        forall|j: int|
                            0 <= j < i ==> (#[trigger] json_members(members@)[j]).0 != key@,
                    decreases members.len() - i,
                {
                    if same_text(members[i].key.as_str(), key) {
                        proof {
                            lemma_member_found(json_members(members@), key@, i as int);
                        }
                        return Some(&members[i].value);
                    }
                    i = i + 1;
                }
                proof {
                    lemma_member_found(json_members(members@), key@, i as int);
                }
                None
            },
            _ => None,
        }
    }

    pub fn as_str(&self) -> (r: Option<&String>)
        ensures
            match r {
                Some(text) => self@.as_text() == Some(text@),
                None => self@.as_text() is None,
            },
    {
        match self {
            Json::Text(text) => Some(text),
            _ => None,
        }
    }

    pub fn as_u64(&self) -> (r: Option<u64>)
        ensures
            r == self@.as_u64(),
    {
        match self {
            Json::Unsigned(number) => Some(*number),
            _ => None,
        }
    }

    pub fn as_bool(&self) -> (r: Option<bool>)
        ensures
            r == self@.as_bool(),
    {
        match self {
            Json::Bool(flag) => Some(*flag),
            _ => None,
        }
    }

    pub fn as_array(&self) -> (r: Option<&Vec<Json>>)
        ensures
            match r {
                Some(items) => self@.as_array() == Some(json_items(items@)),
                None => self@.as_array() is None,
            },
    {
        match self {
            Json::Array(items) => {
                proof {
                    lemma_array_model(*items);
                }
                Some(items)
            },
            _ => None,
        }
    }

    pub fn is_null(&self) -> (r: bool)
        ensures
            r == (self@ is Null),
    {
        match self {
            Json::Null => true,
            _ => false,
        }
    }
}

} // verus!
