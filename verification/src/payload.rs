//! The structured value handed to a task, and the operations on its fields.
use vstd::prelude::*;

verus! {

/// The mathematical content of a payload. Numbers are kept as their decimal
/// text, and an object is a map from field name to content.
pub enum Json {
    Null,
    Bool(bool),
    Number(Seq<char>),
    Text(Seq<char>),
    Array(Seq<Json>),
    Object(Map<Seq<char>, Json>),
}

impl Json {
    /// The fields of an object; a value that is no object has none.
    pub open spec fn fields(self) -> Map<Seq<char>, Json> {
        match self {
            Json::Object(fields) => fields,
            _ => Map::empty(),
        }
    }

    /// The content of the field `key`, if the value is an object that has it.
    pub open spec fn field(self, key: Seq<char>) -> Option<Json> {
        if self.fields().contains_key(key) {
            Some(self.fields()[key])
        } else {
            None
        }
    }

    /// The characters of a text value.
    pub open spec fn text(self) -> Option<Seq<char>> {
        match self {
            Json::Text(text) => Some(text),
            _ => None,
        }
    }

    /// An object with the field `key` set to `value`; any other value as it is.
    pub open spec fn with_field(self, key: Seq<char>, value: Json) -> Json {
        match self {
            Json::Object(fields) => Json::Object(fields.insert(key, value)),
            _ => self,
        }
    }

    /// An object without the field `key`; any other value as it is.
    pub open spec fn without_field(self, key: Seq<char>) -> Json {
        match self {
            Json::Object(fields) => Json::Object(fields.remove(key)),
            _ => self,
        }
    }

    /// An object with every field of the object `other` written over its
    /// own; where either is no object, the value as it is.
    pub open spec fn merged(self, other: Json) -> Json {
        match (self, other) {
            (Json::Object(fields), Json::Object(more)) => Json::Object(
                fields.union_prefer_right(more),
            ),
            _ => self,
        }
    }
}

/// The map that a list of fields stands for: a later field replaces an
/// earlier one of the same key.
pub open spec fn json_fields(entries: Seq<(Seq<char>, Json)>) -> Map<Seq<char>, Json>
    decreases entries.len(),
{
    if entries.len() == 0 {
        Map::empty()
    } else {
        json_fields(entries.drop_last()).insert(entries.last().0, entries.last().1)
    }
}

/// A structured input value. An object is a list of named fields, of which
/// the last one of a name counts.
#[derive(Debug, PartialEq, Eq)]
pub enum Payload {
    Null,
    Bool(bool),
    Number(String),
    Text(String),
    Array(Vec<Payload>),
    Object(Vec<(String, Payload)>),
}

/// The content of a payload.
pub open spec fn payload_content(payload: Payload) -> Json
    decreases payload, 0nat,
{
    match payload {
        Payload::Null => Json::Null,
        Payload::Bool(flag) => Json::Bool(flag),
        Payload::Number(digits) => Json::Number(digits@),
        Payload::Text(text) => Json::Text(text@),
        Payload::Array(items) => Json::Array(items_view(items@)),
        Payload::Object(fields) => Json::Object(json_fields(entries_view(fields@))),
    }
}

/// The contents of a list of items, in the list's order.
pub open spec fn items_view(items: Seq<Payload>) -> Seq<Json>
    decreases items, 1nat,
{
    Seq::new(
        items.len(),
        |i: int|
            if 0 <= i < items.len() {
                payload_content(items[i])
            } else {
                Json::Null
            },
    )
}

/// The named contents of a list of fields, in the list's order.
pub open spec fn entries_view(fields: Seq<(String, Payload)>) -> Seq<(Seq<char>, Json)>
    decreases fields, 1nat,
{
    Seq::new(
        fields.len(),
        |i: int|
            if 0 <= i < fields.len() {
                (fields[i].0@, payload_content(fields[i].1))
            } else {
                (Seq::empty(), Json::Null)
            },
    )
}

impl View for Payload {
    type V = Json;

    open spec fn view(&self) -> Json {
        payload_content(*self)
    }
}

proof fn lemma_fields_push(entries: Seq<(Seq<char>, Json)>, entry: (Seq<char>, Json))
    ensures
        json_fields(entries.push(entry)) == json_fields(entries).insert(entry.0, entry.1),
{
    assert(entries.push(entry).drop_last() =~= entries);
}

proof fn lemma_fields_absent(entries: Seq<(Seq<char>, Json)>, key: Seq<char>)
    requires
        forall|j: int| 0 <= j < entries.len() ==> entries[j].0 != key,
    ensures
        !json_fields(entries).contains_key(key),
    decreases entries.len(),
{
    if entries.len() > 0 {
        lemma_fields_absent(entries.drop_last(), key);
    }
}

proof fn lemma_fields_last_match(entries: Seq<(Seq<char>, Json)>, key: Seq<char>, at: int)
    requires
        0 <= at < entries.len(),
        entries[at].0 == key,
        forall|j: int| at < j < entries.len() ==> entries[j].0 != key,
    ensures
        json_fields(entries).contains_key(key),
        json_fields(entries)[key] == entries[at].1,
    decreases entries.len(),
{
    if at < entries.len() - 1 {
        lemma_fields_last_match(entries.drop_last(), key, at);
    }
}

proof fn lemma_fields_remove_at(entries: Seq<(Seq<char>, Json)>, key: Seq<char>, at: int)
    requires
        0 <= at < entries.len(),
        entries[at].0 == key,
    ensures
        json_fields(entries.remove(at)).remove(key) == json_fields(entries).remove(key),
    decreases entries.len(),
{
    let rest = entries.drop_last();
    if at == entries.len() - 1 {
        assert(entries.remove(at) =~= rest);
        assert(json_fields(rest).insert(key, entries.last().1).remove(key) =~= json_fields(
            rest,
        ).remove(key));
    } else {
        lemma_fields_remove_at(rest, key, at);
        assert(entries.remove(at).drop_last() =~= rest.remove(at));
        assert(entries.remove(at).last() == entries.last());
        let last = entries.last();
        let kept = json_fields(rest.remove(at));
        let full = json_fields(rest);
        if last.0 == key {
            assert(kept.insert(last.0, last.1).remove(key) =~= kept.remove(key));
            assert(full.insert(last.0, last.1).remove(key) =~= full.remove(key));
        } else {
            assert(kept.insert(last.0, last.1).remove(key) =~= kept.remove(key).insert(
                last.0,
                last.1,
            ));
            assert(full.insert(last.0, last.1).remove(key) =~= full.remove(key).insert(
                last.0,
                last.1,
            ));
        }
    }
}

proof fn lemma_fields_append(first: Seq<(Seq<char>, Json)>, second: Seq<(Seq<char>, Json)>)
    ensures
        json_fields(first + second) == json_fields(first).union_prefer_right(json_fields(second)),
    decreases second.len(),
{
    if second.len() == 0 {
        assert(first + second =~= first);
        assert(json_fields(first).union_prefer_right(Map::empty()) =~= json_fields(first));
    } else {
        let last = second.last();
        lemma_fields_append(first, second.drop_last());
        assert((first + second).drop_last() =~= first + second.drop_last());
        assert(json_fields(first).union_prefer_right(json_fields(second.drop_last())).insert(
            last.0,
            last.1,
        ) =~= json_fields(first).union_prefer_right(json_fields(second)));
    }
}

/// Takes every field named `key` out of `fields` and keeps the others in
/// their order.
fn drop_fields(fields: &mut Vec<(String, Payload)>, key: &String)
    ensures
        json_fields(entries_view(final(fields)@)) == json_fields(entries_view(old(fields)@)).remove(
            key@,
        ),
{
    let mut at: usize = 0;
    while at < fields.len()
        invariant
            at <= fields.len(),
            forall|j: int| 0 <= j < at ==> entries_view(fields@)[j].0 != key@,
            json_fields(entries_view(fields@)).remove(key@) == json_fields(
                entries_view(old(fields)@),
            ).remove(key@),
        decreases fields.len() - at,
    {
        if fields[at].0 == *key {
            proof {
                lemma_fields_remove_at(entries_view(fields@), key@, at as int);
                assert(entries_view(fields@.remove(at as int)) =~= entries_view(fields@).remove(
                    at as int,
                ));
            }
            let _ = fields.remove(at);
        } else {
            at = at + 1;
        }
    }
    proof {
        lemma_fields_absent(entries_view(fields@), key@);
        assert(json_fields(entries_view(fields@)).remove(key@) =~= json_fields(
            entries_view(fields@),
        ));
    }
}

impl Payload {
    /// An object without fields.
    pub fn object() -> (payload: Payload)
        ensures
            payload@ == Json::Object(Map::empty()),
    {
        let fields: Vec<(String, Payload)> = Vec::new();
        assert(entries_view(fields@) =~= Seq::empty());
        Payload::Object(fields)
    }

    /// The field `key` of an object. A value that is no object, or an object
    /// without that field, gives `None`.
    pub fn get(&self, key: &str) -> (found: Option<&Payload>)
        ensures
            match found {
                Some(value) => self@.field(key@) == Some(value@),
                None => self@.field(key@) is None,
            },
    {
        match self {
            Payload::Object(fields) => {
                let wanted = key.to_owned();
                let mut at: usize = fields.len();
                while at > 0
                    invariant
                        at <= fields.len(),
                        wanted@ == key@,
                        self@ == Json::Object(json_fields(entries_view(fields@))),
                        forall|j: int| at <= j < fields.len() ==> entries_view(fields@)[j].0 != key@,
                    decreases at,
                {
                    at = at - 1;
                    if fields[at].0 == wanted {
                        proof {
                            lemma_fields_last_match(entries_view(fields@), key@, at as int);
                        }
                        return Some(&fields[at].1);
                    }
                }
                proof {
                    lemma_fields_absent(entries_view(fields@), key@);
                }
                None
            },
            _ => None,
        }
    }

    /// The text of a text value; `None` for every other kind of value.
    pub fn as_str(&self) -> (found: Option<&str>)
        ensures
            match found {
                Some(text) => self@.text() == Some(text@),
                None => self@.text() is None,
            },
    {
        match self {
            Payload::Text(text) => Some(text.as_str()),
            _ => None,
        }
    }

    /// Sets the field `key` of an object to `value`, replacing a field of
    /// that name. A value that is no object is left as it is.
    pub fn insert(&mut self, key: String, value: Payload)
        ensures
            final(self)@ == old(self)@.with_field(key@, value@),
    {
        let mut taken = Payload::Null;
        std::mem::swap(self, &mut taken);
        match taken {
            Payload::Object(mut fields) => {
                drop_fields(&mut fields, &key);
                proof {
                    lemma_fields_push(entries_view(fields@), (key@, value@));
                    assert(entries_view(fields@.push((key, value))) =~= entries_view(
                        fields@,
                    ).push((key@, value@)));
                    assert(json_fields(entries_view(fields@)).insert(key@, value@) =~= old(
                        self,
                    )@.fields().insert(key@, value@));
                }
                fields.push((key, value));
                *self = Payload::Object(fields);
            },
            other => {
                *self = other;
            },
        }
    }

    /// Takes the field `key` out of an object. A value that is no object, or
    /// an object without that field, is left as it is.
    pub fn remove(&mut self, key: &str)
        ensures
            final(self)@ == old(self)@.without_field(key@),
    {
        let mut taken = Payload::Null;
        std::mem::swap(self, &mut taken);
        match taken {
            Payload::Object(mut fields) => {
                let wanted = key.to_owned();
                drop_fields(&mut fields, &wanted);
                *self = Payload::Object(fields);
            },
            other => {
                *self = other;
            },
        }
    }

    /// Writes every field of the object `other` over the fields of this
    /// object. Where either is no object, this value is left as it is.
    pub fn merge(&mut self, other: Payload)
        ensures
            final(self)@ == old(self)@.merged(other@),
    {
        let mut taken = Payload::Null;
        std::mem::swap(self, &mut taken);
        match (taken, other) {
            (Payload::Object(mut fields), Payload::Object(mut more)) => {
                proof {
                    lemma_fields_append(entries_view(fields@), entries_view(more@));
                    assert(entries_view(fields@ + more@) =~= entries_view(fields@) + entries_view(
                        more@,
                    ));
                }
                fields.append(&mut more);
                *self = Payload::Object(fields);
            },
            (kept, _) => {
                *self = kept;
            },
        }
    }
}

impl Clone for Payload {
    /// A copy with the same content.
    fn clone(&self) -> (copy: Payload)
        ensures
            copy@ == self@,
        decreases self,
    {
        match self {
            Payload::Null => Payload::Null,
            Payload::Bool(flag) => Payload::Bool(*flag),
            Payload::Number(digits) => Payload::Number(digits.clone()),
            Payload::Text(text) => Payload::Text(text.clone()),
            Payload::Array(items) => {
                let mut copies: Vec<Payload> = Vec::new();
                let mut at: usize = 0;
                while at < items.len()
                    invariant
                        at <= items.len(),
                        copies@.len() == at,
                        *self == Payload::Array(*items),
                        forall|j: int| 0 <= j < at ==> copies@[j]@ == items@[j]@,
                    decreases items.len() - at,
                {
                    let item = &items[at];
                    assert(decreases_to!(self => item)) by {
                        assert(self->Array_0 == *items);
                        assert(decreases_to!(*self => self->Array_0));
                        assert(decreases_to!(*items => items@[at as int]));
                    }
                    copies.push(item.clone());
                    at = at + 1;
                }
                assert(items_view(copies@) =~= items_view(items@));
                Payload::Array(copies)
            },
            Payload::Object(fields) => {
                let mut copies: Vec<(String, Payload)> = Vec::new();
                let mut at: usize = 0;
                while at < fields.len()
                    invariant
                        at <= fields.len(),
                        copies@.len() == at,
                        *self == Payload::Object(*fields),
                        forall|j: int|
                            0 <= j < at ==> copies@[j].0@ == fields@[j].0@ && copies@[j].1@
                                == fields@[j].1@,
                    decreases fields.len() - at,
                {
                    let field = &fields[at];
                    assert(decreases_to!(self => field.1)) by {
                        assert(self->Object_0 == *fields);
                        assert(decreases_to!(*self => self->Object_0));
                        assert(decreases_to!(*fields => fields@[at as int]));
                        assert(decreases_to!(fields@[at as int] => fields@[at as int].1));
                    }
                    copies.push((field.0.clone(), field.1.clone()));
                    at = at + 1;
                }
                assert(entries_view(copies@) =~= entries_view(fields@));
                Payload::Object(copies)
            },
        }
    }
}

} // verus!
