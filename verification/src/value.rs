//! The value bridge: from the script's dynamic values to a JSON model.
//!
//! A script produces dynamically typed values. [`ScriptValue`] is their
//! tagged representation inside this library: scalars are carried as plain
//! values, floating-point numbers as the decimal text captured at the
//! engine boundary, and anything the script language adds beyond this model
//! as its debug text. [`JsonValue`] is the library's JSON model, and
//! [`script_to_json`] is the total conversion between the two, specified
//! exactly by [`json_of`] over the ghost model [`JVal`].
//!
//! The same module renders a script's final value as text
//! ([`render_output`]): strings pass through unchanged, a missing value
//! becomes empty text, and every other value gets a debug-style form,
//! specified exactly by [`rendered_output`].

use vstd::prelude::*;

use crate::text::append_dec_i64;
use crate::text::dec_int;

verus! {

/// A dynamically typed value produced by a script.
#[derive(Debug)]
pub enum ScriptValue {
    /// A text value.
    Str(String),
    /// An integer.
    Int(i64),
    /// A floating-point number, carried as its decimal text.
    Float(String),
    /// A boolean.
    Bool(bool),
    /// An array, in the script's element order.
    Array(Vec<ScriptValue>),
    /// A map, with keys already stringified.
    Object(Vec<(String, ScriptValue)>),
    /// The absence of a value.
    Unit,
    /// Any other engine value, carried as its debug text.
    Other(String),
}

/// A JSON value, as handed to tool handlers and kept in audit records.
#[derive(Debug)]
pub enum JsonValue {
    /// JSON `null`.
    Null,
    /// A JSON boolean.
    Bool(bool),
    /// A JSON number holding an integer.
    Int(i64),
    /// A JSON number, carried as its decimal text.
    Float(String),
    /// A JSON string.
    Str(String),
    /// A JSON array.
    Array(Vec<JsonValue>),
    /// A JSON object, in insertion order.
    Object(Vec<(String, JsonValue)>),
}

/// The mathematical model of a JSON value.
pub enum JVal {
    /// JSON `null`.
    Null,
    /// A JSON boolean.
    Bool(bool),
    /// A JSON number holding an integer.
    Int(int),
    /// A JSON number, as its decimal text.
    Float(Seq<char>),
    /// A JSON string.
    Str(Seq<char>),
    /// A JSON array.
    Array(Seq<JVal>),
    /// A JSON object.
    Object(Seq<(Seq<char>, JVal)>),
}

/// The model of an executable [`JsonValue`].
pub open spec fn jval(j: JsonValue) -> JVal
    decreases j,
{
    match j {
        JsonValue::Null => JVal::Null,
        JsonValue::Bool(b) => JVal::Bool(b),
        JsonValue::Int(i) => JVal::Int(i as int),
        JsonValue::Float(t) => JVal::Float(t@),
        JsonValue::Str(s) => JVal::Str(s@),
        JsonValue::Array(a) => JVal::Array(jval_seq(a@)),
        JsonValue::Object(m) => JVal::Object(jval_entries(m@)),
    }
}

/// The models of a sequence of executable JSON values, in order.
pub open spec fn jval_seq(s: Seq<JsonValue>) -> Seq<JVal>
    decreases s,
{
    if s.len() == 0 {
        Seq::empty()
    } else {
        jval_seq(s.drop_last()).push(jval(s.last()))
    }
}

/// The models of a sequence of executable JSON object entries, in order.
pub open spec fn jval_entries(s: Seq<(String, JsonValue)>) -> Seq<(Seq<char>, JVal)>
    decreases s,
{
    if s.len() == 0 {
        Seq::empty()
    } else {
        jval_entries(s.drop_last()).push((s.last().0@, jval(s.last().1)))
    }
}

/// What the bridge turns a script value into, checked in this precedence:
/// strings, integers and floats and booleans stay themselves; arrays and
/// maps convert element by element in order; the absence of a value becomes
/// `null`; anything else becomes a JSON string holding its debug text.
pub open spec fn json_of(v: ScriptValue) -> JVal
    decreases v,
{
    match v {
        ScriptValue::Str(s) => JVal::Str(s@),
        ScriptValue::Int(i) => JVal::Int(i as int),
        ScriptValue::Float(t) => JVal::Float(t@),
        ScriptValue::Bool(b) => JVal::Bool(b),
        ScriptValue::Array(a) => JVal::Array(json_of_seq(a@)),
        ScriptValue::Object(m) => JVal::Object(json_of_entries(m@)),
        ScriptValue::Unit => JVal::Null,
        ScriptValue::Other(s) => JVal::Str(s@),
    }
}

/// The bridge applied to each element of a sequence, in order.
pub open spec fn json_of_seq(s: Seq<ScriptValue>) -> Seq<JVal>
    decreases s,
{
    if s.len() == 0 {
        Seq::empty()
    } else {
        json_of_seq(s.drop_last()).push(json_of(s.last()))
    }
}

/// The bridge applied to each map entry of a sequence, in order.
pub open spec fn json_of_entries(s: Seq<(String, ScriptValue)>) -> Seq<(Seq<char>, JVal)>
    decreases s,
{
    if s.len() == 0 {
        Seq::empty()
    } else {
        json_of_entries(s.drop_last()).push((s.last().0@, json_of(s.last().1)))
    }
}

proof fn lemma_jval_seq_step(s: Seq<JsonValue>, i: int)
    requires
        0 <= i < s.len(),
    ensures
        jval_seq(s.take(i + 1)) == jval_seq(s.take(i)).push(jval(s[i])),
{
    assert(s.take(i + 1).drop_last() =~= s.take(i));
    assert(s.take(i + 1).last() == s[i]);
}

proof fn lemma_jval_entries_step(s: Seq<(String, JsonValue)>, i: int)
    requires
        0 <= i < s.len(),
    ensures
        jval_entries(s.take(i + 1)) == jval_entries(s.take(i)).push((s[i].0@, jval(s[i].1))),
{
    assert(s.take(i + 1).drop_last() =~= s.take(i));
    assert(s.take(i + 1).last() == s[i]);
}

impl Clone for JsonValue {
    /// A deep copy with an identical JSON model.
    #[verifier::loop_isolation(false)]
    fn clone(&self) -> (r: Self)
        ensures
            jval(r) == jval(*self),
        decreases self,
    {
        match self {
            JsonValue::Null => JsonValue::Null,
            JsonValue::Bool(b) => JsonValue::Bool(*b),
            JsonValue::Int(i) => JsonValue::Int(*i),
            JsonValue::Float(t) => JsonValue::Float(t.clone()),
            JsonValue::Str(s) => JsonValue::Str(s.clone()),
            JsonValue::Array(a) => {
                let mut out: Vec<JsonValue> = Vec::new();
                let mut i: usize = 0;
                while i < a.len()
                    invariant
                        i <= a.len(),
                        jval_seq(out@) == jval_seq(a@.take(i as int)),
                    decreases a.len() - i,
                {
                    proof {
                        assert(decreases_to!(*self => *a));
                        assert(decreases_to!(*a => a@));
                        assert(decreases_to!(a@ => a@[i as int]));
                    }
                    let j = a[i].clone();
                    proof {
                        lemma_jval_seq_push(out@, j);
                        lemma_jval_seq_step(a@, i as int);
                    }
                    out.push(j);
                    i += 1;
                }
                proof {
                    assert(a@.take(a@.len() as int) =~= a@);
                }
                JsonValue::Array(out)
            },
            JsonValue::Object(m) => {
                let mut out: Vec<(String, JsonValue)> = Vec::new();
                let mut i: usize = 0;
                while i < m.len()
                    invariant
                        i <= m.len(),
                        jval_entries(out@) == jval_entries(m@.take(i as int)),
                    decreases m.len() - i,
                {
                    proof {
                        assert(decreases_to!(*self => *m));
                        assert(decreases_to!(*m => m@));
                        assert(decreases_to!(m@ => m@[i as int]));
                        assert(decreases_to!(m@[i as int] => m@[i as int].1));
                    }
                    let entry = &m[i];
                    let k = entry.0.clone();
                    let j = entry.1.clone();
                    proof {
                        lemma_jval_entries_push(out@, (k, j));
                        lemma_jval_entries_step(m@, i as int);
                    }
                    out.push((k, j));
                    i += 1;
                }
                proof {
                    assert(m@.take(m@.len() as int) =~= m@);
                }
                JsonValue::Object(out)
            },
        }
    }
}

proof fn lemma_jval_seq_push(s: Seq<JsonValue>, x: JsonValue)
    ensures
        jval_seq(s.push(x)) == jval_seq(s).push(jval(x)),
{
    assert(s.push(x).drop_last() =~= s);
    assert(s.push(x).last() == x);
}

proof fn lemma_jval_entries_push(s: Seq<(String, JsonValue)>, x: (String, JsonValue))
    ensures
        jval_entries(s.push(x)) == jval_entries(s).push((x.0@, jval(x.1))),
{
    assert(s.push(x).drop_last() =~= s);
    assert(s.push(x).last() == x);
}

proof fn lemma_json_of_seq_step(s: Seq<ScriptValue>, i: int)
    requires
        0 <= i < s.len(),
    ensures
        json_of_seq(s.take(i + 1)) == json_of_seq(s.take(i)).push(json_of(s[i])),
{
    assert(s.take(i + 1).drop_last() =~= s.take(i));
    assert(s.take(i + 1).last() == s[i]);
}

proof fn lemma_json_of_entries_step(s: Seq<(String, ScriptValue)>, i: int)
    requires
        0 <= i < s.len(),
    ensures
        json_of_entries(s.take(i + 1)) == json_of_entries(s.take(i)).push(
            (s[i].0@, json_of(s[i].1)),
        ),
{
    assert(s.take(i + 1).drop_last() =~= s.take(i));
    assert(s.take(i + 1).last() == s[i]);
}

/// Converts a script value to the JSON model. Total: every script value
/// has a JSON image, and the conversion never fails.
#[verifier::loop_isolation(false)]
pub fn script_to_json(v: &ScriptValue) -> (r: JsonValue)
    ensures
        jval(r) == json_of(*v),
    decreases v,
{
    match v {
        ScriptValue::Str(s) => JsonValue::Str(s.clone()),
        ScriptValue::Int(i) => JsonValue::Int(*i),
        ScriptValue::Float(t) => JsonValue::Float(t.clone()),
        ScriptValue::Bool(b) => JsonValue::Bool(*b),
        ScriptValue::Unit => JsonValue::Null,
        ScriptValue::Other(s) => JsonValue::Str(s.clone()),
        ScriptValue::Array(a) => {
            let mut out: Vec<JsonValue> = Vec::new();
            let mut i: usize = 0;
            while i < a.len()
                invariant
                    i <= a.len(),
                    jval_seq(out@) == json_of_seq(a@.take(i as int)),
                decreases a.len() - i,
            {
                proof {
                    assert(decreases_to!(*v => *a));
                    assert(decreases_to!(*a => a@));
                    assert(decreases_to!(a@ => a@[i as int]));
                }
                let j = script_to_json(&a[i]);
                proof {
                    lemma_jval_seq_push(out@, j);
                    lemma_json_of_seq_step(a@, i as int);
                }
                out.push(j);
                i += 1;
            }
            proof {
                assert(a@.take(a@.len() as int) =~= a@);
            }
            JsonValue::Array(out)
        },
        ScriptValue::Object(m) => {
            let mut out: Vec<(String, JsonValue)> = Vec::new();
            let mut i: usize = 0;
            while i < m.len()
                invariant
                    i <= m.len(),
                    jval_entries(out@) == json_of_entries(m@.take(i as int)),
                decreases m.len() - i,
            {
                proof {
                    assert(decreases_to!(*v => *m));
                    assert(decreases_to!(*m => m@));
                    assert(decreases_to!(m@ => m@[i as int]));
                    assert(decreases_to!(m@[i as int] => m@[i as int].1));
                }
                let entry = &m[i];
                let k = entry.0.clone();
                let j = script_to_json(&entry.1);
                proof {
                    lemma_jval_entries_push(out@, (k, j));
                    lemma_json_of_entries_step(m@, i as int);
                }
                out.push((k, j));
                i += 1;
            }
            proof {
                assert(m@.take(m@.len() as int) =~= m@);
            }
            JsonValue::Object(out)
        },
    }
}

/// The debug-style text of a script value: strings quoted, integers and
/// floats in decimal, arrays bracketed with `, ` separators, maps written
/// `#{k: v, ..}`, the missing value `()`.
pub open spec fn rendered_value(v: ScriptValue) -> Seq<char>
    decreases v,
{
    match v {
        ScriptValue::Str(s) => seq!['"'] + s@ + seq!['"'],
        ScriptValue::Int(i) => dec_int(i as int),
        ScriptValue::Float(t) => t@,
        ScriptValue::Bool(b) => if b {
            "true"@
        } else {
            "false"@
        },
        ScriptValue::Array(a) => seq!['['] + rendered_elems(a@) + seq![']'],
        ScriptValue::Object(m) => "#{"@ + rendered_entries(m@) + seq!['}'],
        ScriptValue::Unit => "()"@,
        ScriptValue::Other(s) => s@,
    }
}

/// The elements of an array rendered with `, ` separators.
pub open spec fn rendered_elems(s: Seq<ScriptValue>) -> Seq<char>
    decreases s,
{
    if s.len() == 0 {
        Seq::empty()
    } else if s.len() == 1 {
        rendered_value(s.last())
    } else {
        rendered_elems(s.drop_last()) + ", "@ + rendered_value(s.last())
    }
}

/// The entries of a map rendered `k: v` with `, ` separators.
pub open spec fn rendered_entries(s: Seq<(String, ScriptValue)>) -> Seq<char>
    decreases s,
{
    if s.len() == 0 {
        Seq::empty()
    } else if s.len() == 1 {
        s.last().0@ + ": "@ + rendered_value(s.last().1)
    } else {
        rendered_entries(s.drop_last()) + ", "@ + s.last().0@ + ": "@ + rendered_value(s.last().1)
    }
}

/// The text a completed execution reports as its output: a string passes
/// through unchanged, the absence of a value becomes empty text, and every
/// other value uses its debug-style form.
pub open spec fn rendered_output(v: ScriptValue) -> Seq<char> {
    match v {
        ScriptValue::Str(s) => s@,
        ScriptValue::Unit => Seq::empty(),
        _ => rendered_value(v),
    }
}

/// Appends the debug-style text of `v` to `s`.
#[verifier::loop_isolation(false)]
fn append_rendered(s: &mut String, v: &ScriptValue)
    ensures
        final(s)@ == old(s)@ + rendered_value(*v),
    decreases v,
{
    match v {
        ScriptValue::Str(t) => {
            proof { reveal_strlit("\""); }
            s.append("\"");
            s.append(t.as_str());
            s.append("\"");
            proof {
                assert(old(s)@ + "\""@ + t@ + "\""@ =~= old(s)@ + rendered_value(*v));
            }
        },
        ScriptValue::Int(i) => {
            append_dec_i64(s, *i);
        },
        ScriptValue::Float(t) => {
            s.append(t.as_str());
        },
        ScriptValue::Bool(b) => {
            if *b {
                s.append("true");
            } else {
                s.append("false");
            }
        },
        ScriptValue::Unit => {
            s.append("()");
        },
        ScriptValue::Other(t) => {
            s.append(t.as_str());
        },
        ScriptValue::Array(a) => {
            proof { reveal_strlit("["); }
            proof { reveal_strlit("]"); }
            proof { reveal_strlit(", "); }
            s.append("[");
            let ghost open_state: Seq<char> = s@;
            let mut i: usize = 0;
            while i < a.len()
                invariant
                    i <= a.len(),
                    open_state == old(s)@ + seq!['['],
                    s@ == open_state + rendered_elems(a@.take(i as int)),
                decreases a.len() - i,
            {
                proof {
                    assert(decreases_to!(*v => *a));
                    assert(decreases_to!(*a => a@));
                    assert(decreases_to!(a@ => a@[i as int]));
                }
                if i > 0 {
                    s.append(", ");
                }
                append_rendered(s, &a[i]);
                proof {
                    let pre = a@.take(i as int);
                    let post = a@.take(i as int + 1);
                    assert(post.drop_last() =~= pre);
                    assert(post.last() == a@[i as int]);
                    if i == 0 {
                        assert(rendered_elems(post) == rendered_value(a@[0]));
                        assert(pre =~= Seq::<ScriptValue>::empty());
                        assert(rendered_elems(pre) == Seq::<char>::empty());
                        assert(open_state + rendered_elems(pre) + rendered_value(a@[0])
                            =~= open_state + rendered_elems(post));
                    } else {
                        assert(rendered_elems(post) == rendered_elems(pre) + ", "@
                            + rendered_value(a@[i as int]));
                        assert(open_state + rendered_elems(pre) + ", "@
                            + rendered_value(a@[i as int]) =~= open_state + rendered_elems(post));
                    }
                }
                i += 1;
            }
            s.append("]");
            proof {
                assert(a@.take(a@.len() as int) =~= a@);
                assert(open_state + rendered_elems(a@) + "]"@ =~= old(s)@ + rendered_value(*v));
            }
        },
        ScriptValue::Object(m) => {
            proof { reveal_strlit("#{"); }
            proof { reveal_strlit("}"); }
            proof { reveal_strlit(", "); }
            proof { reveal_strlit(": "); }
            s.append("#{");
            let ghost open_state: Seq<char> = s@;
            let mut i: usize = 0;
            while i < m.len()
                invariant
                    i <= m.len(),
                    open_state == old(s)@ + "#{"@,
                    s@ == open_state + rendered_entries(m@.take(i as int)),
                decreases m.len() - i,
            {
                proof {
                    assert(decreases_to!(*v => *m));
                    assert(decreases_to!(*m => m@));
                    assert(decreases_to!(m@ => m@[i as int]));
                    assert(decreases_to!(m@[i as int] => m@[i as int].1));
                }
                if i > 0 {
                    s.append(", ");
                }
                let entry = &m[i];
                s.append(entry.0.as_str());
                s.append(": ");
                append_rendered(s, &entry.1);
                proof {
                    let pre = m@.take(i as int);
                    let post = m@.take(i as int + 1);
                    assert(post.drop_last() =~= pre);
                    assert(post.last() == m@[i as int]);
                    if i == 0 {
                        assert(pre =~= Seq::<(String, ScriptValue)>::empty());
                        assert(rendered_entries(pre) == Seq::<char>::empty());
                        assert(open_state + rendered_entries(pre) + m@[0].0@ + ": "@
                            + rendered_value(m@[0].1) =~= open_state + rendered_entries(post));
                    } else {
                        assert(open_state + rendered_entries(pre) + ", "@ + m@[i as int].0@
                            + ": "@ + rendered_value(m@[i as int].1) =~= open_state
                            + rendered_entries(post));
                    }
                }
                i += 1;
            }
            s.append("}");
            proof {
                assert(m@.take(m@.len() as int) =~= m@);
                assert(open_state + rendered_entries(m@) + "}"@ =~= old(s)@ + rendered_value(*v));
            }
        },
    }
}

/// Renders a script's final value as the execution's output text.
pub fn render_output(v: &ScriptValue) -> (r: String)
    ensures
        r@ == rendered_output(*v),
{
    match v {
        ScriptValue::Str(s) => s.clone(),
        ScriptValue::Unit => String::new(),
        _ => {
            let mut s = String::new();
            append_rendered(&mut s, v);
            proof {
                assert(s@ =~= rendered_output(*v));
            }
            s
        },
    }
}

/// Each scalar script value converts to the exact corresponding JSON
/// primitive: text to a JSON string, an integer or a float to a JSON
/// number, a boolean to a JSON boolean, the missing value to `null`.
pub proof fn law_bridge_scalars(v: ScriptValue)
    ensures
        (v matches ScriptValue::Str(s) ==> json_of(v) == JVal::Str(s@)),
        (v matches ScriptValue::Int(i) ==> json_of(v) == JVal::Int(i as int)),
        (v matches ScriptValue::Float(t) ==> json_of(v) == JVal::Float(t@)),
        (v matches ScriptValue::Bool(b) ==> json_of(v) == JVal::Bool(b)),
        v is Unit ==> json_of(v) == JVal::Null,
{
}

/// Helper: the elementwise bridge keeps length and order.
pub proof fn lemma_json_of_seq_index(s: Seq<ScriptValue>, i: int)
    requires
        0 <= i < s.len(),
    ensures
        json_of_seq(s).len() == s.len(),
        json_of_seq(s)[i] == json_of(s[i]),
    decreases s.len(),
{
    lemma_json_of_seq_len(s);
    if i == s.len() - 1 {
        assert(json_of_seq(s)[i] == json_of(s.last()));
    } else {
        lemma_json_of_seq_index(s.drop_last(), i);
        assert(s.drop_last()[i] == s[i]);
    }
}

/// Helper: the elementwise bridge keeps length.
pub proof fn lemma_json_of_seq_len(s: Seq<ScriptValue>)
    ensures
        json_of_seq(s).len() == s.len(),
    decreases s.len(),
{
    if s.len() > 0 {
        lemma_json_of_seq_len(s.drop_last());
    }
}

/// Helper: the entrywise bridge keeps length and order.
pub proof fn lemma_json_of_entries_index(s: Seq<(String, ScriptValue)>, i: int)
    requires
        0 <= i < s.len(),
    ensures
        json_of_entries(s).len() == s.len(),
        json_of_entries(s)[i] == (s[i].0@, json_of(s[i].1)),
    decreases s.len(),
{
    lemma_json_of_entries_len(s);
    if i == s.len() - 1 {
    } else {
        lemma_json_of_entries_index(s.drop_last(), i);
        assert(s.drop_last()[i] == s[i]);
    }
}

/// Helper: the entrywise bridge keeps length.
pub proof fn lemma_json_of_entries_len(s: Seq<(String, ScriptValue)>)
    ensures
        json_of_entries(s).len() == s.len(),
    decreases s.len(),
{
    if s.len() > 0 {
        lemma_json_of_entries_len(s.drop_last());
    }
}

/// An array converts to a JSON array of the same length whose elements are
/// the converted elements, in the original order.
pub proof fn law_bridge_array_order(a: Vec<ScriptValue>)
    ensures
        json_of(ScriptValue::Array(a)) matches JVal::Array(elems) && elems.len() == a@.len()
            && (forall|i: int| 0 <= i < a@.len() ==> elems[i] == json_of(a@[i])),
{
    lemma_json_of_seq_len(a@);
    assert forall|i: int| 0 <= i < a@.len() implies json_of_seq(a@)[i] == json_of(a@[i]) by {
        lemma_json_of_seq_index(a@, i);
    }
}

/// A map converts to a JSON object with exactly the original entries: the
/// full key set is kept, each value converted, entry for entry.
pub proof fn law_bridge_object_entries(m: Vec<(String, ScriptValue)>)
    ensures
        json_of(ScriptValue::Object(m)) matches JVal::Object(entries) && entries.len() == m@.len()
            && (forall|i: int|
            0 <= i < m@.len() ==> entries[i] == (m@[i].0@, json_of(m@[i].1))),
{
    lemma_json_of_entries_len(m@);
    assert forall|i: int| 0 <= i < m@.len() implies json_of_entries(m@)[i] == (
        m@[i].0@,
        json_of(m@[i].1),
    ) by {
        lemma_json_of_entries_index(m@, i);
    }
}

} // verus!
