//! JSON documents as trees of plain values.

use vstd::prelude::*;

verus! {

/// A JSON document held as plain values.
#[derive(Debug, PartialEq, Eq)]
pub enum Json {
    Null,
    Bool(bool),
    Unsigned(u64),
    Signed(i64),
    Decimal(String),
    Text(String),
    List(Vec<Json>),
    Object(Vec<(String, Json)>),
}

/// The mathematical model of a JSON document.
pub ghost enum JsonView {
    Null,
    Bool(bool),
    Unsigned(u64),
    Signed(i64),
    Decimal(Seq<char>),
    Text(Seq<char>),
    List(Seq<JsonView>),
    Object(Seq<(Seq<char>, JsonView)>),
}

/// The models of the items of a list.
pub open spec fn items_view(items: Seq<Json>) -> Seq<JsonView>
    decreases items,
{
    Seq::new(
        items.len(),
        |i: int|
            if 0 <= i < items.len() {
                json_view(items[i])
            } else {
                JsonView::Null
            },
    )
}

/// The models of the members of an object.
pub open spec fn members_view(members: Seq<(String, Json)>) -> Seq<(Seq<char>, JsonView)>
    decreases members,
{
    Seq::new(
        members.len(),
        |i: int|
            if 0 <= i < members.len() {
                (members[i].0@, json_view(members[i].1))
            } else {
                (Seq::empty(), JsonView::Null)
            },
    )
}

/// The model of a document.
pub open spec fn json_view(doc: Json) -> JsonView
    decreases doc,
{
    match doc {
        Json::Null => JsonView::Null,
        Json::Bool(b) => JsonView::Bool(b),
        Json::Unsigned(n) => JsonView::Unsigned(n),
        Json::Signed(n) => JsonView::Signed(n),
        Json::Decimal(s) => JsonView::Decimal(s@),
        Json::Text(s) => JsonView::Text(s@),
        Json::List(items) => JsonView::List(items_view(items@)),
        Json::Object(members) => JsonView::Object(members_view(members@)),
    }
}

impl View for Json {
    type V = JsonView;

    open spec fn view(&self) -> JsonView {
        json_view(*self)
    }
}

/// The value of the last member named `key`, if there is one.
pub open spec fn lookup(members: Seq<(Seq<char>, JsonView)>, key: Seq<char>) -> Option<JsonView>
    decreases members.len(),
{
    if members.len() == 0 {
        None
    } else if members.last().0 == key {
        Some(members.last().1)
    } else {
        lookup(members.drop_last(), key)
    }
}

/// The texts that the items stand for, where each of them is a text.
pub open spec fn texts(items: Seq<JsonView>) -> Option<Seq<Seq<char>>> {
    if forall|i: int| 0 <= i < items.len() ==> #[trigger] items[i] is Text {
        Some(Seq::new(items.len(), |i: int| items[i]->Text_0))
    } else {
        None
    }
}

impl JsonView {
    /// The member of an object under `key`; `None` for a missing member and
    /// for a document that is no object.
    pub open spec fn member(self, key: Seq<char>) -> Option<JsonView> {
        match self {
            JsonView::Object(members) => lookup(members, key),
            _ => None,
        }
    }

    /// The characters of a text; `None` for any other document.
    pub open spec fn text(self) -> Option<Seq<char>> {
        match self {
            JsonView::Text(text) => Some(text),
            _ => None,
        }
    }

    /// The texts of a list of texts; `None` for any other document.
    pub open spec fn text_list(self) -> Option<Seq<Seq<char>>> {
        match self {
            JsonView::List(items) => texts(items),
            _ => None,
        }
    }
}

/// The model of a list of strings.
pub open spec fn strings_view(list: Seq<String>) -> Seq<Seq<char>> {
    Seq::new(list.len(), |i: int| list[i]@)
}

impl Json {
    /// Whether the document is an object.
    pub fn is_object(&self) -> (r: bool)
        ensures
            r == (self@ is Object),
    {
        match self {
            Json::Object(_) => true,
            _ => false,
        }
    }

    /// Whether the document is `null`.
    pub fn is_null(&self) -> (r: bool)
        ensures
            r == (self@ is Null),
    {
        match self {
            Json::Null => true,
            _ => false,
        }
    }

    /// The member of an object under `key`. Where several members share
    /// the name, the last one counts.
    pub fn member(&self, key: &str) -> (r: Option<&Json>)
        ensures
            r is Some <==> self@.member(key@) is Some,
            r matches Some(found) ==> self@.member(key@) == Some(found@),
    {
        match self {
            Json::Object(members) => {
                let wanted = key.to_string();
                let ghost model = self@->Object_0;
                let mut i: usize = members.len();
                assert(model.take(i as int) =~= model);
                while i > 0
                    invariant
                        i <= members.len(),
                        wanted@ == key@,
                        self@ == JsonView::Object(model),
                        model.len() == members@.len(),
                        forall|k: int|
                            0 <= k < members@.len() ==> #[trigger] model[k] == (
                                members@[k].0@,
                                members@[k].1@,
                            ),
                        lookup(model, key@) == lookup(model.take(i as int), key@),
                    decreases i,
                {
                    i = i - 1;
                    proof {
                        let prefix = model.take(i + 1);
                        assert(prefix.last() == model[i as int]);
                        assert(prefix.drop_last() =~= model.take(i as int));
                        assert(model[i as int] == (members@[i as int].0@, members@[i as int].1@));
                    }
                    if members[i].0 == wanted {
                        return Some(&members[i].1);
                    }
                }
                proof {
                    assert(model.take(0).len() == 0);
                }
                None
            },
            _ => None,
        }
    }

    /// The characters of a text.
    pub fn as_text(&self) -> (r: Option<&String>)
        ensures
            r is Some <==> self@.text() is Some,
            r matches Some(text) ==> self@.text() == Some(text@),
    {
        match self {
            Json::Text(text) => Some(text),
            _ => None,
        }
    }

    /// The texts of a list of texts.
    pub fn as_text_list(&self) -> (r: Option<Vec<String>>)
        ensures
            r is Some <==> self@.text_list() is Some,
            r matches Some(list) ==> self@.text_list() == Some(strings_view(list@)),
    {
        match self {
            Json::List(items) => {
                let ghost model = self@->List_0;
                let mut list: Vec<String> = Vec::new();
                let mut i: usize = 0;
                while i < items.len()
                    invariant
                        i <= items.len(),
                        list@.len() == i,
                        self@ == JsonView::List(model),
                        model.len() == items@.len(),
                        forall|k: int| 0 <= k < items@.len() ==> #[trigger] model[k] == items@[k]@,
                        forall|k: int| 0 <= k < i ==> #[trigger] model[k] is Text,
                        forall|k: int| 0 <= k < i ==> #[trigger] list@[k]@ == model[k]->Text_0,
                    decreases items.len() - i,
                {
                    match &items[i] {
                        Json::Text(text) => {
                            list.push(text.clone());
                        },
                        _ => {
                            assert(model[i as int] == items@[i as int]@);
                            assert(!(model[i as int] is Text));
                            return None;
                        },
                    }
                    i = i + 1;
                }
                assert(strings_view(list@) =~= texts(model)->Some_0);
                Some(list)
            },
            _ => None,
        }
    }
}

/// Complaint about a document that is no object.
pub const NOT_AN_OBJECT: &'static str = "invalid type: expected an object";

/// Complaint about a document that is no object, as characters.
pub open spec fn not_an_object() -> Seq<char> {
    "invalid type: expected an object"@
}

/// Complaint about an object that lacks the member `key`.
pub open spec fn missing_field(key: Seq<char>) -> Seq<char> {
    "missing field `"@ + key + "`"@
}

/// Complaint about a member `key` that holds a value of the wrong kind.
pub open spec fn invalid_field(key: Seq<char>) -> Seq<char> {
    "invalid type for field `"@ + key + "`"@
}

/// The text under `key` in an object, or the complaint that the document earns.
pub open spec fn spec_text_field(doc: JsonView, key: Seq<char>) -> Result<Seq<char>, Seq<char>> {
    if !(doc is Object) {
        Err(not_an_object())
    } else {
        match doc.member(key) {
            None => Err(missing_field(key)),
            Some(value) => match value.text() {
                Some(text) => Ok(text),
                None => Err(invalid_field(key)),
            },
        }
    }
}

/// The list of texts under `key` in an object, `None` where the member is
/// missing or `null`, or the complaint that the document earns.
pub open spec fn spec_optional_text_list_field(doc: JsonView, key: Seq<char>) -> Result<
    Option<Seq<Seq<char>>>,
    Seq<char>,
> {
    if !(doc is Object) {
        Err(not_an_object())
    } else {
        match doc.member(key) {
            None => Ok(None),
            Some(JsonView::Null) => Ok(None),
            Some(value) => match value.text_list() {
                Some(list) => Ok(Some(list)),
                None => Err(invalid_field(key)),
            },
        }
    }
}

/// The number under `key` in an object, `None` where the member is missing
/// or `null`, or the complaint that the document earns. Only a number
/// without sign or fraction that fits the machine word counts.
pub open spec fn spec_optional_number_field(doc: JsonView, key: Seq<char>) -> Result<
    Option<usize>,
    Seq<char>,
> {
    if !(doc is Object) {
        Err(not_an_object())
    } else {
        match doc.member(key) {
            None => Ok(None),
            Some(JsonView::Null) => Ok(None),
            Some(JsonView::Unsigned(number)) => if number <= usize::MAX {
                Ok(Some(number as usize))
            } else {
                Err(invalid_field(key))
            },
            Some(_) => Err(invalid_field(key)),
        }
    }
}

/// The model of an optional list of strings.
pub open spec fn optional_strings_view(list: Option<Vec<String>>) -> Option<Seq<Seq<char>>> {
    match list {
        Some(list) => Some(strings_view(list@)),
        None => None,
    }
}

fn complaint(start: &str, key: &str) -> (r: String)
    ensures
        r@ == start@ + key@ + "`"@,
{
    let mut text = start.to_string();
    text.append(key);
    text.append("`");
    text
}

/// Reads the text that an object holds under `key`.
pub fn text_field(doc: &Json, key: &str) -> (r: Result<String, String>)
    ensures
        r matches Ok(text) ==> spec_text_field(doc@, key@) == Ok::<Seq<char>, Seq<char>>(text@),
        r matches Err(fault) ==> spec_text_field(doc@, key@) == Err::<Seq<char>, Seq<char>>(
            fault@,
        ),
{
    if !doc.is_object() {
        return Err(NOT_AN_OBJECT.to_string());
    }
    match doc.member(key) {
        None => Err(complaint("missing field `", key)),
        Some(value) => match value.as_text() {
            Some(text) => Ok(text.clone()),
            None => Err(complaint("invalid type for field `", key)),
        },
    }
}

/// Reads the list of texts that an object may hold under `key`.
pub fn optional_text_list_field(doc: &Json, key: &str) -> (r: Result<Option<Vec<String>>, String>)
    ensures
        r matches Ok(list) ==> spec_optional_text_list_field(doc@, key@) == Ok::<
            Option<Seq<Seq<char>>>,
            Seq<char>,
        >(optional_strings_view(list)),
        r matches Err(fault) ==> spec_optional_text_list_field(doc@, key@) == Err::<
            Option<Seq<Seq<char>>>,
            Seq<char>,
        >(fault@),
{
    if !doc.is_object() {
        return Err(NOT_AN_OBJECT.to_string());
    }
    match doc.member(key) {
        None => Ok(None),
        Some(value) => {
            if value.is_null() {
                Ok(None)
            } else {
                match value.as_text_list() {
                    Some(list) => Ok(Some(list)),
                    None => Err(complaint("invalid type for field `", key)),
                }
            }
        },
    }
}

/// Reads the number that an object may hold under `key`.
pub fn optional_number_field(doc: &Json, key: &str) -> (r: Result<Option<usize>, String>)
    ensures
        r matches Ok(number) ==> spec_optional_number_field(doc@, key@) == Ok::<
            Option<usize>,
            Seq<char>,
        >(number),
        r matches Err(fault) ==> spec_optional_number_field(doc@, key@) == Err::<
            Option<usize>,
            Seq<char>,
        >(fault@),
{
    if !doc.is_object() {
        return Err(NOT_AN_OBJECT.to_string());
    }
    match doc.member(key) {
        None => Ok(None),
        Some(value) => match value {
            Json::Null => Ok(None),
            Json::Unsigned(number) => {
                if *number <= usize::MAX as u64 {
                    Ok(Some(*number as usize))
                } else {
                    Err(complaint("invalid type for field `", key))
                }
            },
            _ => Err(complaint("invalid type for field `", key)),
        },
    }
}

/// What parsing a text as JSON yields: the document, or the parser's complaint.
pub uninterp spec fn json_parsed(text: Seq<char>) -> Result<JsonView, Seq<char>>;

/// The document that a `serde_json::Value` holds.
pub uninterp spec fn value_model(value: serde_json::Value) -> JsonView;

/// The model of a document or a complaint.
pub open spec fn parsed_view(r: Result<Json, String>) -> Result<JsonView, Seq<char>> {
    match r {
        Ok(doc) => Ok(doc@),
        Err(fault) => Err(fault@),
    }
}

/// The model of a parsed value or a complaint.
pub open spec fn value_result_view(r: Result<serde_json::Value, String>) -> Result<
    JsonView,
    Seq<char>,
> {
    match r {
        Ok(value) => Ok(value_model(value)),
        Err(fault) => Err(fault@),
    }
}

/// `serde_json::Value`, the parser's own document type; opaque here.
#[verifier::external_type_specification]
#[verifier::external_body]
pub struct ExValue(serde_json::Value);

/// Calls `serde_json::from_str` for a `serde_json::Value`. The contract
/// claims only that the outcome is a function of the text: the document
/// that the value holds on success, the display text of the error on
/// failure.
#[verifier::external_body]
fn parse_value(text: &str) -> (r: Result<serde_json::Value, String>)
    ensures
        value_result_view(r) == json_parsed(text@),
{
    match serde_json::from_str::<serde_json::Value>(text) {
        Ok(value) => Ok(value),
        Err(e) => Err(e.to_string()),
    }
}

/// Takes a `serde_json::Value` apart into a `Json`, variant by variant: a
/// number becomes `Unsigned` where `as_u64` gives it, `Signed` where
/// `as_i64` does, and else `Decimal` with its display text; the members of
/// an object come in the order in which its map hands them out.
#[verifier::external_body]
fn tree_of(value: serde_json::Value) -> (tree: Json)
    ensures
        tree@ == value_model(value),
{
    match value {
        serde_json::Value::Null => Json::Null,
        serde_json::Value::Bool(b) => Json::Bool(b),
        serde_json::Value::Number(n) => match (n.as_u64(), n.as_i64()) {
            (Some(u), _) => Json::Unsigned(u),
            (None, Some(i)) => Json::Signed(i),
            (None, None) => Json::Decimal(n.to_string()),
        },
        serde_json::Value::String(s) => Json::Text(s),
        serde_json::Value::Array(a) => Json::List(a.into_iter().map(tree_of).collect()),
        serde_json::Value::Object(o) => {
            Json::Object(o.into_iter().map(|(k, v)| (k, tree_of(v))).collect())
        },
    }
}

/// Parses a text as a JSON document.
pub fn parse(text: &str) -> (r: Result<Json, String>)
    ensures
        parsed_view(r) == json_parsed(text@),
{
    match parse_value(text) {
        Ok(value) => Ok(tree_of(value)),
        Err(fault) => Err(fault),
    }
}

impl super::resp::Wire for Json {
    open spec fn wire(model: JsonView) -> JsonView {
        model
    }

    fn to_wire(&self) -> (doc: Json) {
        self.duplicate()
    }
}

impl Json {
    /// A copy of the document.
    pub fn duplicate(&self) -> (copy: Json)
        ensures
            copy@ == self@,
        decreases self,
    {
        match self {
            Json::Null => Json::Null,
            Json::Bool(b) => Json::Bool(*b),
            Json::Unsigned(n) => Json::Unsigned(*n),
            Json::Signed(n) => Json::Signed(*n),
            Json::Decimal(text) => Json::Decimal(text.clone()),
            Json::Text(text) => Json::Text(text.clone()),
            Json::List(items) => {
                let mut copies: Vec<Json> = Vec::new();
                let mut i: usize = 0;
                while i < items.len()
                    invariant
                        i <= items.len(),
                        copies@.len() == i,
                        self == Json::List(*items),
                        forall|k: int|
                            0 <= k < i ==> #[trigger] json_view(copies@[k]) == json_view(
                                items@[k],
                            ),
                    decreases items.len() - i,
                {
                    assert(decreases_to!(*self => self->List_0));
                    assert(decreases_to!(*items => items[i as int]));
                    copies.push(items[i].duplicate());
                    i = i + 1;
                }
                assert(items_view(copies@) =~= items_view(items@)) by {
                    assert forall|k: int| 0 <= k < items@.len() implies items_view(copies@)[k]
                        == items_view(items@)[k] by {
                        assert(json_view(copies@[k]) == json_view(items@[k]));
                    }
                }
                Json::List(copies)
            },
            Json::Object(members) => {
                let mut copies: Vec<(String, Json)> = Vec::new();
                let mut i: usize = 0;
                while i < members.len()
                    invariant
                        i <= members.len(),
                        copies@.len() == i,
                        self == Json::Object(*members),
                        forall|k: int|
                            0 <= k < i ==> (#[trigger] copies@[k]).0@ == members@[k].0@
                                && json_view(copies@[k].1) == json_view(members@[k].1),
                    decreases members.len() - i,
                {
                    assert(decreases_to!(*self => self->Object_0));
                    assert(decreases_to!(*members => members[i as int]));
                    assert(decreases_to!(members[i as int] => members[i as int].1));
                    copies.push((members[i].0.clone(), members[i].1.duplicate()));
                    i = i + 1;
                }
                assert(members_view(copies@) =~= members_view(members@)) by {
                    assert forall|k: int| 0 <= k < members@.len() implies members_view(copies@)[k]
                        == members_view(members@)[k] by {
                        assert(copies@[k].0@ == members@[k].0@);
                    }
                }
                Json::Object(copies)
            },
        }
    }
}

} // verus!
