//! A small JSON value type that models the wire format of the remote API.
//!
//! The resources of this model carry only strings, booleans, arrays and
//! objects on the wire (integral quantities such as grade weights travel as
//! strings), so the value type has no number variant. An object keeps its
//! members in order as a list of key/value pairs; lookup takes the first
//! member with a matching key.

use vstd::prelude::*;

use crate::error::DecodeError;

verus! {

/// One member of a JSON object: a key and the value under it.
#[derive(Debug, PartialEq, Eq)]
pub struct JsonMember {
    pub key: String,
    pub value: Json,
}

/// A JSON value as exchanged with the remote service.
#[derive(Debug, PartialEq, Eq)]
pub enum Json {
    Null,
    Bool(bool),
    Str(String),
    Arr(Vec<Json>),
    Obj(Vec<JsonMember>),
}

/// The model of one object member.
#[verifier::ext_equal]
pub struct JsonMemberV {
    pub key: Seq<char>,
    pub value: JsonV,
}

/// The mathematical model of a [`Json`] value: strings become character
/// sequences, vectors become sequences.
#[verifier::ext_equal]
pub enum JsonV {
    Null,
    Bool(bool),
    Str(Seq<char>),
    Arr(Seq<JsonV>),
    Obj(Seq<JsonMemberV>),
}

impl View for JsonMember {
    type V = JsonMemberV;

    open spec fn view(&self) -> JsonMemberV
        decreases self,
    {
        JsonMemberV { key: self.key@, value: self.value@ }
    }
}

impl View for Json {
    type V = JsonV;

    open spec fn view(&self) -> JsonV
        decreases self,
    {
        match self {
            Json::Null => JsonV::Null,
            Json::Bool(b) => JsonV::Bool(*b),
            Json::Str(s) => JsonV::Str(s@),
            Json::Arr(items) => JsonV::Arr(arr_view(items@)),
            Json::Obj(fields) => JsonV::Obj(fields_view(fields@)),
        }
    }
}

/// The model of an array's elements.
pub open spec fn arr_view(items: Seq<Json>) -> Seq<JsonV>
    decreases items,
{
    Seq::new(
        items.len(),
        |i: int| if 0 <= i < items.len() {
            items[i]@
        } else {
            JsonV::Null
        },
    )
}

/// The model of an object's member list.
pub open spec fn fields_view(fields: Seq<JsonMember>) -> Seq<JsonMemberV>
    decreases fields,
{
    Seq::new(
        fields.len(),
        |i: int| if 0 <= i < fields.len() {
            fields[i]@
        } else {
            JsonMemberV { key: Seq::empty(), value: JsonV::Null }
        },
    )
}

/// First member of `fields` whose key equals `k`, if any.
pub open spec fn lookup(fields: Seq<JsonMemberV>, k: Seq<char>) -> Option<JsonV>
    decreases fields.len(),
{
    if fields.len() == 0 {
        None
    } else if fields[0].key == k {
        Some(fields[0].value)
    } else {
        lookup(fields.drop_first(), k)
    }
}

/// Member lookup on an object value; `None` on every other kind of value.
pub open spec fn obj_lookup(j: JsonV, k: Seq<char>) -> Option<JsonV> {
    match j {
        JsonV::Obj(fields) => lookup(fields, k),
        _ => None,
    }
}

/// True when an object value has a member named `k`.
pub open spec fn obj_has_key(j: JsonV, k: Seq<char>) -> bool {
    obj_lookup(j, k) is Some
}

proof fn lemma_lookup_skip(fields: Seq<JsonMemberV>, k: Seq<char>, i: int)
    requires
        0 <= i <= fields.len(),
        forall|j: int| 0 <= j < i ==> fields[j].key != k,
    ensures
        lookup(fields, k) == lookup(fields.skip(i), k),
    decreases i,
{
    if i > 0 {
        assert(fields.skip(0) =~= fields);
        lemma_lookup_skip(fields.drop_first(), k, i - 1);
        assert(fields.drop_first().skip(i - 1) =~= fields.skip(i));
    } else {
        assert(fields.skip(0) =~= fields);
    }
}

impl Json {
    /// Looks a key up among the members of an object value.
    pub fn get<'a>(&'a self, k: &str) -> (r: Option<&'a Json>)
        ensures
            match r {
                Some(v) => obj_lookup(self@, k@) == Some(v@),
                None => obj_lookup(self@, k@) is None,
            },
    {
        match self {
            Json::Obj(fields) => {
                let ghost gf: Seq<JsonMemberV> = self@->Obj_0;
                proof {
                    assert(self@ is Obj);
                    assert(gf =~= fields_view(fields@));
                }
                let n = fields.len();
                for i in 0..n
                    invariant
                        n == fields.len(),
                        self@ is Obj,
                        gf == self@->Obj_0,
                        gf.len() == fields@.len(),
                        forall|j: int| 0 <= j < gf.len() ==> gf[j] == fields@[j]@,
                        forall|j: int| 0 <= j < i ==> gf[j].key != k@,
                {
                    if str_eq(fields[i].key.as_str(), k) {
                        proof {
                            lemma_lookup_skip(gf, k@, i as int);
                            assert(gf.skip(i as int)[0] == gf[i as int]);
                            assert(lookup(gf.skip(i as int), k@) == Some(gf[i as int].value));
                        }
                        return Some(&fields[i].value);
                    }
                }
                proof {
                    lemma_lookup_skip(gf, k@, n as int);
                    assert(gf.skip(n as int).len() == 0);
                }
                None
            },
            _ => None,
        }
    }
}

impl DeepView for Json {
    type V = JsonV;

    open spec fn deep_view(&self) -> JsonV {
        self.view()
    }
}

impl DeepView for JsonMember {
    type V = JsonMemberV;

    open spec fn deep_view(&self) -> JsonMemberV {
        self.view()
    }
}

/// The value under `k` when it is present and not `null`.
pub open spec fn present_field(j: JsonV, k: Seq<char>) -> Option<JsonV> {
    match obj_lookup(j, k) {
        Option::None => Option::None,
        Option::Some(JsonV::Null) => Option::None,
        Option::Some(v) => Option::Some(v),
    }
}

/// A required string field: its characters, or `None` when the member is
/// missing or not a string.
pub open spec fn req_str_field(j: JsonV, k: Seq<char>) -> Option<Seq<char>> {
    match obj_lookup(j, k) {
        Option::Some(JsonV::Str(s)) => Option::Some(s),
        _ => Option::None,
    }
}

/// An optional string field. The outer `None` is a schema mismatch (present
/// but not a string); the inner option tells absence apart from a value.
pub open spec fn opt_str_field(j: JsonV, k: Seq<char>) -> Option<Option<Seq<char>>> {
    match present_field(j, k) {
        Option::None => Option::Some(Option::None),
        Option::Some(JsonV::Str(s)) => Option::Some(Option::Some(s)),
        Option::Some(_) => Option::None,
    }
}

/// A required boolean field, or `None` when missing or not a boolean.
pub open spec fn req_bool_field(j: JsonV, k: Seq<char>) -> Option<bool> {
    match obj_lookup(j, k) {
        Option::Some(JsonV::Bool(b)) => Option::Some(b),
        _ => Option::None,
    }
}

/// Reads a required string field out of an object value.
pub fn get_req_str(j: &Json, k: &str) -> (r: Result<String, DecodeError>)
    ensures
        match r {
            Ok(s) => req_str_field(j@, k@) == Some(s@),
            Err(_) => req_str_field(j@, k@) is None,
        },
{
    match j.get(k) {
        Some(v) => match v {
            Json::Str(s) => Ok(s.clone()),
            _ => Err(DecodeError::at(k)),
        },
        None => Err(DecodeError::at(k)),
    }
}

/// Reads an optional string field out of an object value; a missing member
/// and a `null` member both read as `None`.
pub fn get_opt_str(j: &Json, k: &str) -> (r: Result<Option<String>, DecodeError>)
    ensures
        match r {
            Ok(Some(s)) => opt_str_field(j@, k@) == Some(Some(s@)),
            Ok(None) => opt_str_field(j@, k@) == Some(Option::<Seq<char>>::None),
            Err(_) => opt_str_field(j@, k@) is None,
        },
{
    match j.get(k) {
        Some(v) => match v {
            Json::Str(s) => Ok(Some(s.clone())),
            Json::Null => Ok(None),
            _ => Err(DecodeError::at(k)),
        },
        None => Ok(None),
    }
}

/// Reads a required boolean field out of an object value.
pub fn get_req_bool(j: &Json, k: &str) -> (r: Result<bool, DecodeError>)
    ensures
        match r {
            Ok(b) => req_bool_field(j@, k@) == Some(b),
            Err(_) => req_bool_field(j@, k@) is None,
        },
{
    match j.get(k) {
        Some(v) => match v {
            Json::Bool(b) => Ok(*b),
            _ => Err(DecodeError::at(k)),
        },
        None => Err(DecodeError::at(k)),
    }
}

/// Reads the member under `k` when it is present and not `null`.
pub fn get_present<'a>(j: &'a Json, k: &str) -> (r: Option<&'a Json>)
    ensures
        match r {
            Some(v) => present_field(j@, k@) == Some(v@),
            None => present_field(j@, k@) is None,
        },
{
    match j.get(k) {
        Some(v) => match v {
            Json::Null => None,
            _ => Some(v),
        },
        None => None,
    }
}

/// True when every element of an array is a string value.
pub open spec fn all_strings(items: Seq<JsonV>) -> bool {
    forall|i: int| 0 <= i < items.len() ==> items[i] is Str
}

/// The characters of each element of an array of strings.
pub open spec fn string_values(items: Seq<JsonV>) -> Seq<Seq<char>> {
    Seq::new(items.len(), |i: int| items[i]->Str_0)
}

/// A required field holding an array of strings, or `None` when the member
/// is missing, not an array, or holds a non-string element.
pub open spec fn req_str_arr_field(j: JsonV, k: Seq<char>) -> Option<Seq<Seq<char>>> {
    match obj_lookup(j, k) {
        Option::Some(JsonV::Arr(items)) => if all_strings(items) {
            Option::Some(string_values(items))
        } else {
            Option::None
        },
        _ => Option::None,
    }
}

/// The wire array of a list of strings.
pub open spec fn str_arr_json(items: Seq<Seq<char>>) -> JsonV {
    JsonV::Arr(Seq::new(items.len(), |i: int| JsonV::Str(items[i])))
}

/// Reads a required array-of-strings field out of an object value.
pub fn get_req_str_arr(j: &Json, k: &str) -> (r: Result<Vec<String>, DecodeError>)
    ensures
        match r {
            Ok(v) => req_str_arr_field(j@, k@) == Some(v.deep_view()),
            Err(_) => req_str_arr_field(j@, k@) is None,
        },
{
    let arr = match j.get(k) {
        Some(v) => v,
        None => {
            return Err(DecodeError::at(k));
        },
    };
    match arr {
        Json::Arr(items) => {
            let ghost gitems: Seq<JsonV> = arr@->Arr_0;
            proof {
                assert(arr@ is Arr);
                assert(gitems =~= arr_view(items@));
            }
            let mut out: Vec<String> = Vec::new();
            let n = items.len();
            for i in 0..n
                invariant
                    n == items.len(),
                    obj_lookup(j@, k@) == Some(arr@),
                    arr@ is Arr,
                    gitems == arr@->Arr_0,
                    gitems.len() == items@.len(),
                    forall|x: int| 0 <= x < gitems.len() ==> gitems[x] == items@[x]@,
                    out@.len() == i,
                    forall|x: int| 0 <= x < i ==> gitems[x] is Str && out@[x]@ == gitems[x]->Str_0,
            {
                match &items[i] {
                    Json::Str(s) => {
                        out.push(s.clone());
                    },
                    _ => {
                        proof {
                            assert(!(gitems[i as int] is Str));
                        }
                        return Err(DecodeError::at(k));
                    },
                }
            }
            proof {
                assert(out.deep_view() =~= string_values(gitems));
            }
            Ok(out)
        },
        _ => Err(DecodeError::at(k)),
    }
}

/// Encodes a list of strings as a wire array.
pub fn encode_str_arr(items: &Vec<String>) -> (r: Json)
    ensures
        r@ == str_arr_json(items.deep_view()),
{
    let mut out: Vec<Json> = Vec::new();
    let n = items.len();
    for i in 0..n
        invariant
            n == items.len(),
            out@.len() == i,
            forall|x: int| 0 <= x < i ==> out@[x]@ == JsonV::Str(items@[x]@),
    {
        out.push(Json::Str(items[i].clone()));
    }
    let r = Json::Arr(out);
    proof {
        assert(r@->Arr_0 =~= str_arr_json(items.deep_view())->Arr_0);
        assert(r@ =~= str_arr_json(items.deep_view()));
    }
    r
}

/// An encoded array of strings reads back as the same list.
pub proof fn lemma_str_arr_round_trip(items: Seq<Seq<char>>)
    ensures
        str_arr_json(items) is Arr,
        all_strings(str_arr_json(items)->Arr_0),
        string_values(str_arr_json(items)->Arr_0) == items,
{
    assert(string_values(str_arr_json(items)->Arr_0) =~= items);
}

/// The member list of an always-present member.
pub open spec fn member_v(k: Seq<char>, v: JsonV) -> Seq<JsonMemberV> {
    seq![JsonMemberV { key: k, value: v }]
}

/// The member list of an optional member: empty when the value is unset,
/// so an unset field is omitted from the output, not written as `null`.
pub open spec fn opt_member(k: Seq<char>, v: Option<JsonV>) -> Seq<JsonMemberV> {
    match v {
        Option::Some(jv) => seq![JsonMemberV { key: k, value: jv }],
        Option::None => Seq::empty(),
    }
}

/// The member list of an optional string member.
pub open spec fn opt_str_member(k: Seq<char>, v: Option<Seq<char>>) -> Seq<JsonMemberV> {
    match v {
        Option::Some(s) => seq![JsonMemberV { key: k, value: JsonV::Str(s) }],
        Option::None => Seq::empty(),
    }
}

/// Appends a member to an object under construction.
pub fn push_member(fields: &mut Vec<JsonMember>, k: &str, v: Json)
    ensures
        fields_view(final(fields)@) == fields_view(old(fields)@) + member_v(k@, v@),
{
    let ghost gv: JsonV = v@;
    fields.push(JsonMember { key: k.to_owned(), value: v });
    proof {
        assert(fields_view(fields@) =~= fields_view(old(fields)@) + member_v(k@, gv));
    }
}

/// Appends a member holding a string value.
pub fn push_str_member(fields: &mut Vec<JsonMember>, k: &str, s: &String)
    ensures
        fields_view(final(fields)@) == fields_view(old(fields)@) + member_v(
            k@,
            JsonV::Str(s@),
        ),
{
    push_member(fields, k, Json::Str(s.clone()));
}

/// Appends an optional member; an unset value appends nothing.
pub fn push_opt(fields: &mut Vec<JsonMember>, k: &str, v: Option<Json>)
    ensures
        fields_view(final(fields)@) == fields_view(old(fields)@) + opt_member(k@, v.deep_view()),
{
    match v {
        Some(jv) => {
            push_member(fields, k, jv);
        },
        None => {
            proof {
                assert(fields_view(fields@) =~= fields_view(fields@) + Seq::<
                    JsonMemberV,
                >::empty());
            }
        },
    }
}

/// Appends an optional string member; an unset value appends nothing.
pub fn push_opt_str(fields: &mut Vec<JsonMember>, k: &str, v: &Option<String>)
    ensures
        fields_view(final(fields)@) == fields_view(old(fields)@) + opt_str_member(
            k@,
            v.deep_view(),
        ),
{
    match v {
        Some(s) => {
            push_member(fields, k, Json::Str(s.clone()));
        },
        None => {
            proof {
                assert(fields_view(fields@) =~= fields_view(fields@) + Seq::<
                    JsonMemberV,
                >::empty());
            }
        },
    }
}

/// Lookup distributes over concatenation: the first list wins where it has
/// the key.
pub proof fn lemma_lookup_append(a: Seq<JsonMemberV>, b: Seq<JsonMemberV>, k: Seq<char>)
    ensures
        lookup(a + b, k) == if lookup(a, k) is Some {
            lookup(a, k)
        } else {
            lookup(b, k)
        },
    decreases a.len(),
{
    if a.len() == 0 {
        assert(a + b =~= b);
    } else {
        assert((a + b)[0] == a[0]);
        if a[0].key == k {
        } else {
            lemma_lookup_append(a.drop_first(), b, k);
            assert((a + b).drop_first() =~= a.drop_first() + b);
        }
    }
}

/// Lookup in the one-member list of an always-present member.
pub proof fn lemma_lookup_member_v(k: Seq<char>, v: JsonV, q: Seq<char>)
    ensures
        lookup(member_v(k, v), q) == if k == q {
            Some(v)
        } else {
            None::<JsonV>
        },
{
    reveal_with_fuel(lookup, 2);
    assert(member_v(k, v).len() == 1);
    assert(member_v(k, v)[0] == (JsonMemberV { key: k, value: v }));
    assert(member_v(k, v).drop_first() =~= Seq::<JsonMemberV>::empty());
}

/// Lookup in the member list of an optional member: nothing is found under
/// an unset value.
pub proof fn lemma_lookup_opt_member(k: Seq<char>, v: Option<JsonV>, q: Seq<char>)
    ensures
        lookup(opt_member(k, v), q) == if k == q && v is Some {
            Some(v.unwrap())
        } else {
            None::<JsonV>
        },
{
    reveal_with_fuel(lookup, 2);
    match v {
        Option::Some(jv) => {
            assert(opt_member(k, v).len() == 1);
            assert(opt_member(k, v)[0] == (JsonMemberV { key: k, value: jv }));
            assert(opt_member(k, v).drop_first() =~= Seq::<JsonMemberV>::empty());
        },
        Option::None => {},
    }
}

/// Lookup in the member list of an optional string member.
pub proof fn lemma_lookup_opt_str_member(k: Seq<char>, v: Option<Seq<char>>, q: Seq<char>)
    ensures
        lookup(opt_str_member(k, v), q) == if k == q && v is Some {
            Some(JsonV::Str(v.unwrap()))
        } else {
            None::<JsonV>
        },
{
    reveal_with_fuel(lookup, 2);
    match v {
        Option::Some(s) => {
            assert(opt_str_member(k, v).len() == 1);
            assert(opt_str_member(k, v)[0] == (JsonMemberV { key: k, value: JsonV::Str(s) }));
            assert(opt_str_member(k, v).drop_first() =~= Seq::<JsonMemberV>::empty());
        },
        Option::None => {},
    }
}

/// Equality of two string slices, by characters.
pub fn str_eq(a: &str, b: &str) -> (r: bool)
    ensures
        r == (a@ == b@),
{
    let na = a.unicode_len();
    let nb = b.unicode_len();
    if na != nb {
        return false;
    }
    for i in 0..na
        invariant
            na == a@.len(),
            nb == b@.len(),
            na == nb,
            forall|j: int| 0 <= j < i ==> a@[j] == b@[j],
    {
        if a.get_char(i) != b.get_char(i) {
            return false;
        }
    }
    proof {
        assert(a@ =~= b@);
    }
    true
}

} // verus!
