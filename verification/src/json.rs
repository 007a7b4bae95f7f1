//! The shape of an opaque JSON payload, as far as the library reads it.
//!
//! Payload values ride through the pipeline untouched except for one
//! transformation: the older input schema spells object keys in lower camel
//! case, and those keys are capitalized before the value is persisted. The
//! library therefore models a payload as a tree whose object structure and
//! keys are plain values, while every other JSON node stays an opaque
//! `serde_json::Value` carried through unchanged.

use vstd::prelude::*;
use vstd::string::StrSliceExecFns;
use vstd::string::StringExecFns;

verus! {

/// Declares `serde_json::Value` so payload atoms can be held and carried
/// through; the library never looks inside one.
#[verifier::external_type_specification]
#[verifier::external_body]
pub struct ExValue(serde_json::Value);

/// Relies on `serde_json::Value`'s `Clone`: it produces a value equal to its
/// input.
pub assume_specification[ <serde_json::Value as Clone>::clone ](
    v: &serde_json::Value,
) -> (r: serde_json::Value)
    ensures
        r == *v,
;

/// A JSON payload: objects and arrays are explicit so their keys can be
/// read and rewritten; every other node is an opaque atom.
pub enum JsonTree {
    Object(Vec<(String, JsonTree)>),
    Array(Vec<JsonTree>),
    Atom(serde_json::Value),
}

/// The mathematical value of a `JsonTree`: keys as character sequences,
/// children in order, atoms as they are.
pub enum JsonModel {
    Object(Seq<(Seq<char>, JsonModel)>),
    Array(Seq<JsonModel>),
    Atom(serde_json::Value),
}

/// The mathematical value of a `JsonTree`.
pub open spec fn tree_model(t: JsonTree) -> JsonModel
    decreases t,
{
    match t {
        JsonTree::Object(kvs) => JsonModel::Object(
            Seq::new(
                kvs@.len(),
                |i: int|
                    if 0 <= i < kvs@.len() {
                        (kvs@[i].0@, tree_model(kvs@[i].1))
                    } else {
                        arbitrary()
                    },
            ),
        ),
        JsonTree::Array(items) => JsonModel::Array(
            Seq::new(
                items@.len(),
                |i: int|
                    if 0 <= i < items@.len() {
                        tree_model(items@[i])
                    } else {
                        arbitrary()
                    },
            ),
        ),
        JsonTree::Atom(v) => JsonModel::Atom(v),
    }
}

impl View for JsonTree {
    type V = JsonModel;

    open spec fn view(&self) -> JsonModel {
        tree_model(*self)
    }
}

/// The name for what `char::to_uppercase` yields for one character.
pub uninterp spec fn upper_of(c: char) -> Seq<char>;

/// Relies on `char::to_uppercase`, collected with `ToString`: the Unicode
/// uppercase mapping of the character, one or more characters, a function of
/// the character alone.
#[verifier::external_body]
fn upper_str(c: char) -> (r: String)
    ensures
        r@ == upper_of(c),
        r@.len() >= 1,
{
    c.to_uppercase().to_string()
}

/// A string with its first character uppercased and the rest unchanged.
pub open spec fn cap_str(s: Seq<char>) -> Seq<char> {
    if s.len() == 0 {
        s
    } else {
        upper_of(s[0]) + s.skip(1)
    }
}

/// Capitalizes the first character of a string.
pub fn capitalize(s: &str) -> (r: String)
    ensures
        r@ == cap_str(s@),
{
    let n = s.unicode_len();
    if n == 0 {
        let r = String::new();
        proof {
            assert(r@ =~= cap_str(s@));
        }
        r
    } else {
        let mut r = upper_str(s.get_char(0));
        r.append(s.substring_char(1, n));
        proof {
            assert(s@.subrange(1, s@.len() as int) =~= s@.skip(1));
        }
        r
    }
}

/// A `JsonModel` with every object key capitalized, at every depth.
pub open spec fn cap_model(m: JsonModel) -> JsonModel
    decreases m,
{
    match m {
        JsonModel::Object(kvs) => JsonModel::Object(
            Seq::new(
                kvs.len(),
                |i: int|
                    if 0 <= i < kvs.len() {
                        (cap_str(kvs[i].0), cap_model(kvs[i].1))
                    } else {
                        arbitrary()
                    },
            ),
        ),
        JsonModel::Array(items) => JsonModel::Array(
            Seq::new(
                items.len(),
                |i: int|
                    if 0 <= i < items.len() {
                        cap_model(items[i])
                    } else {
                        arbitrary()
                    },
            ),
        ),
        JsonModel::Atom(v) => JsonModel::Atom(v),
    }
}

impl JsonTree {
    /// Clones a payload tree.
    #[verifier::loop_isolation(false)]
    pub fn deep_clone(&self) -> (r: JsonTree)
        ensures
            r@ == self@,
        decreases *self,
    {
        match self {
            JsonTree::Object(kvs) => {
                let mut out: Vec<(String, JsonTree)> = Vec::new();
                let mut i: usize = 0;
                while i < kvs.len()
                    invariant
                        i <= kvs.len(),
                        out@.len() == i as int,
                        forall|j: int|
                            0 <= j < i as int ==> #[trigger] out@[j].0@ == kvs@[j].0@
                                && out@[j].1@ == kvs@[j].1@,
                    decreases kvs.len() - i,
                {
                    proof {
                        assert(decreases_to!(*self => self->Object_0));
                        assert(decreases_to!(self->Object_0 => self->Object_0@));
                        assert(kvs@ == self->Object_0@);
                        assert(decreases_to!(kvs@ => kvs@[i as int]));
                        assert(decreases_to!(kvs@[i as int] => kvs@[i as int].1));
                    }
                    let key = kvs[i].0.clone();
                    let child = kvs[i].1.deep_clone();
                    out.push((key, child));
                    i += 1;
                }
                let r = JsonTree::Object(out);
                proof {
                    let s_in = self@->Object_0;
                    let got = r@->Object_0;
                    assert forall|j: int| 0 <= j < kvs@.len() implies got[j] == s_in[j] by {
                        assert(s_in[j] == (kvs@[j].0@, kvs@[j].1@));
                        assert(got[j] == (out@[j].0@, out@[j].1@));
                    }
                    assert(got =~= s_in);
                }
                r
            },
            JsonTree::Array(items) => {
                let mut out: Vec<JsonTree> = Vec::new();
                let mut i: usize = 0;
                while i < items.len()
                    invariant
                        i <= items.len(),
                        out@.len() == i as int,
                        forall|j: int| 0 <= j < i as int ==> #[trigger] out@[j]@ == items@[j]@,
                    decreases items.len() - i,
                {
                    proof {
                        assert(decreases_to!(*self => self->Array_0));
                        assert(decreases_to!(self->Array_0 => self->Array_0@));
                        assert(items@ == self->Array_0@);
                        assert(decreases_to!(items@ => items@[i as int]));
                    }
                    let child = items[i].deep_clone();
                    out.push(child);
                    i += 1;
                }
                let r = JsonTree::Array(out);
                proof {
                    let s_in = self@->Array_0;
                    let got = r@->Array_0;
                    assert forall|j: int| 0 <= j < items@.len() implies got[j] == s_in[j] by {
                        assert(s_in[j] == items@[j]@);
                        assert(got[j] == out@[j]@);
                    }
                    assert(got =~= s_in);
                }
                r
            },
            JsonTree::Atom(v) => JsonTree::Atom(v.clone()),
        }
    }
}

/// The capability the older input schema needs of a payload: produce a copy
/// with every object key capitalized.
pub trait CapitalizeKeys: Sized {
    /// Whether `r` is this value with every object key capitalized.
    spec fn capitalized_to(&self, r: &Self) -> bool;

    fn capitalize_keys(&self) -> (r: Self)
        ensures
            self.capitalized_to(&r),
    ;
}

impl CapitalizeKeys for JsonTree {
    open spec fn capitalized_to(&self, r: &JsonTree) -> bool {
        r@ == cap_model(self@)
    }

    #[verifier::loop_isolation(false)]
    fn capitalize_keys(&self) -> (r: JsonTree)
        decreases *self,
    {
        match self {
            JsonTree::Object(kvs) => {
                let mut out: Vec<(String, JsonTree)> = Vec::new();
                let mut i: usize = 0;
                while i < kvs.len()
                    invariant
                        i <= kvs.len(),
                        out@.len() == i as int,
                        forall|j: int|
                            0 <= j < i as int ==> #[trigger] out@[j].0@ == cap_str(kvs@[j].0@)
                                && out@[j].1@ == cap_model(kvs@[j].1@),
                    decreases kvs.len() - i,
                {
                    let key = capitalize(kvs[i].0.as_str());
                    proof {
                        assert(decreases_to!(*self => self->Object_0));
                        assert(decreases_to!(self->Object_0 => self->Object_0@));
                        assert(kvs@ == self->Object_0@);
                        assert(decreases_to!(kvs@ => kvs@[i as int]));
                        assert(decreases_to!(kvs@[i as int] => kvs@[i as int].1));
                    }
                    let child = kvs[i].1.capitalize_keys();
                    out.push((key, child));
                    i += 1;
                }
                let r = JsonTree::Object(out);
                proof {
                    let s_in = self@->Object_0;
                    let target = cap_model(self@)->Object_0;
                    let got = r@->Object_0;
                    assert forall|j: int| 0 <= j < kvs@.len() implies got[j] == target[j] by {
                        assert(s_in[j] == (kvs@[j].0@, kvs@[j].1@));
                        assert(got[j] == (out@[j].0@, out@[j].1@));
                        assert(target[j] == (cap_str(s_in[j].0), cap_model(s_in[j].1)));
                    }
                    assert(got =~= target);
                }
                r
            },
            JsonTree::Array(items) => {
                let mut out: Vec<JsonTree> = Vec::new();
                let mut i: usize = 0;
                while i < items.len()
                    invariant
                        i <= items.len(),
                        out@.len() == i as int,
                        forall|j: int|
                            0 <= j < i as int ==> #[trigger] out@[j]@ == cap_model(items@[j]@),
                    decreases items.len() - i,
                {
                    proof {
                        assert(decreases_to!(*self => self->Array_0));
                        assert(decreases_to!(self->Array_0 => self->Array_0@));
                        assert(items@ == self->Array_0@);
                        assert(decreases_to!(items@ => items@[i as int]));
                    }
                    let child = items[i].capitalize_keys();
                    out.push(child);
                    i += 1;
                }
                let r = JsonTree::Array(out);
                proof {
                    let s_in = self@->Array_0;
                    let target = cap_model(self@)->Array_0;
                    let got = r@->Array_0;
                    assert forall|j: int| 0 <= j < items@.len() implies got[j] == target[j] by {
                        assert(s_in[j] == items@[j]@);
                        assert(got[j] == out@[j]@);
                        assert(target[j] == cap_model(s_in[j]));
                    }
                    assert(got =~= target);
                }
                r
            },
            JsonTree::Atom(v) => JsonTree::Atom(v.clone()),
        }
    }
}

impl<T: CapitalizeKeys> CapitalizeKeys for Option<T> {
    open spec fn capitalized_to(&self, r: &Option<T>) -> bool {
        match (self, r) {
            (Some(v), Some(w)) => v.capitalized_to(w),
            (None, None) => true,
            _ => false,
        }
    }

    fn capitalize_keys(&self) -> (r: Option<T>) {
        match self {
            Some(v) => Some(v.capitalize_keys()),
            None => None,
        }
    }
}

} // verus!
