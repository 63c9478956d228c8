use vstd::prelude::*;
use vstd::string::*;

use crate::text::{i64_text, int_text};

verus! {

/// The JSON string literal serde_json writes for `s`, or `None` where it
/// reports an error.
pub uninterp spec fn json_string_text(s: Seq<char>) -> Option<Seq<char>>;

/// Relies on serde_json::to_string applied to a `str`: the quoted and
/// escaped JSON string literal, or an error.
#[verifier::external_body]
fn json_string(s: &str) -> (r: Option<String>)
    ensures
        opt_view(r) == json_string_text(s@),
{
    serde_json::to_string(s).ok()
}

/// The value of one member of a JSON object.
#[derive(Debug, PartialEq, Eq)]
pub enum JsonField {
    Null,
    Bool(bool),
    Int(i64),
    Text(String),
    /// Text that is already JSON, such as a nested object.
    Raw(String),
}

/// The model of a member value. `Raw(None)` stands for a nested value whose
/// own encoding failed.
pub enum FieldView {
    Null,
    Bool(bool),
    Int(int),
    Text(Seq<char>),
    Raw(Option<Seq<char>>),
}

impl View for JsonField {
    type V = FieldView;

    open spec fn view(&self) -> FieldView {
        match self {
            JsonField::Null => FieldView::Null,
            JsonField::Bool(b) => FieldView::Bool(*b),
            JsonField::Int(i) => FieldView::Int(*i as int),
            JsonField::Text(s) => FieldView::Text(s@),
            JsonField::Raw(s) => FieldView::Raw(Some(s@)),
        }
    }
}

pub open spec fn opt_view(o: Option<String>) -> Option<Seq<char>> {
    match o {
        Some(s) => Some(s@),
        None => None,
    }
}

/// `null` for an absent string, else the string.
pub open spec fn opt_text_field(o: Option<Seq<char>>) -> FieldView {
    match o {
        Some(s) => FieldView::Text(s),
        None => FieldView::Null,
    }
}

/// `null` for an absent nested value, else its encoding.
pub open spec fn opt_raw_field(o: Option<Option<Seq<char>>>) -> FieldView {
    match o {
        Some(t) => FieldView::Raw(t),
        None => FieldView::Null,
    }
}

/// JSON text of a member value.
pub open spec fn field_text(f: FieldView) -> Option<Seq<char>> {
    match f {
        FieldView::Null => Some(seq!['n', 'u', 'l', 'l']),
        FieldView::Bool(b) => Some(
            if b {
                seq!['t', 'r', 'u', 'e']
            } else {
                seq!['f', 'a', 'l', 's', 'e']
            },
        ),
        FieldView::Int(i) => Some(int_text(i)),
        FieldView::Text(s) => json_string_text(s),
        FieldView::Raw(t) => t,
    }
}

/// JSON text `"key":value` of one member.
pub open spec fn member_text(m: (Seq<char>, FieldView)) -> Option<Seq<char>> {
    match (json_string_text(m.0), field_text(m.1)) {
        (Some(k), Some(v)) => Some(k + seq![':'] + v),
        _ => None,
    }
}

/// The members' texts joined by commas, in order.
pub open spec fn members_text(ms: Seq<(Seq<char>, FieldView)>) -> Option<Seq<char>>
    decreases ms.len(),
{
    if ms.len() == 0 {
        Some(Seq::empty())
    } else {
        match (members_text(ms.drop_last()), member_text(ms.last())) {
            (Some(p), Some(m)) => Some(
                if ms.len() == 1 {
                    m
                } else {
                    p + seq![','] + m
                },
            ),
            _ => None,
        }
    }
}

/// JSON text of an object with the members `ms`, in order.
pub open spec fn object_text(ms: Seq<(Seq<char>, FieldView)>) -> Option<Seq<char>> {
    match members_text(ms) {
        Some(t) => Some(seq!['{'] + t + seq!['}']),
        None => None,
    }
}

/// Once a prefix of the members fails to encode, the whole list fails.
proof fn lemma_members_failure_extends(ms: Seq<(Seq<char>, FieldView)>, k: int)
    requires
        0 <= k <= ms.len(),
        members_text(ms.take(k)) is None,
    ensures
        members_text(ms) is None,
    decreases ms.len() - k,
{
    if k == ms.len() {
        assert(ms.take(k) =~= ms);
    } else {
        assert(ms.take(k + 1).drop_last() =~= ms.take(k));
        lemma_members_failure_extends(ms, k + 1);
    }
}

/// An object with a member that fails to encode fails to encode.
pub proof fn lemma_object_failure(ms: Seq<(Seq<char>, FieldView)>, k: int)
    requires
        0 <= k < ms.len(),
        member_text(ms[k]) is None,
    ensures
        object_text(ms) is None,
{
    assert(ms.take(k + 1).last() == ms[k]);
    lemma_members_failure_extends(ms, k + 1);
}

pub open spec fn members_view(ms: Seq<(&str, JsonField)>) -> Seq<(Seq<char>, FieldView)> {
    ms.map_values(|m: (&str, JsonField)| (m.0@, m.1@))
}

/// A string member value, or `null` when absent.
pub fn opt_text(o: &Option<String>) -> (r: JsonField)
    ensures
        r@ == opt_text_field(opt_view(*o)),
{
    match o {
        Some(s) => JsonField::Text(s.clone()),
        None => JsonField::Null,
    }
}

fn field_json(f: &JsonField) -> (r: Option<String>)
    ensures
        opt_view(r) == field_text(f@),
{
    match f {
        JsonField::Null => {
            let t = "null";
            proof {
                reveal_strlit("null");
            }
            Some(String::from_str(t))
        },
        JsonField::Bool(b) => {
            let t = if *b {
                "true"
            } else {
                "false"
            };
            proof {
                reveal_strlit("true");
                reveal_strlit("false");
            }
            Some(String::from_str(t))
        },
        JsonField::Int(i) => Some(i64_text(*i)),
        JsonField::Text(s) => json_string(s.as_str()),
        JsonField::Raw(s) => Some(s.clone()),
    }
}

/// Encodes a JSON object with the given members, in order; `None` when the
/// encoding of a key or a value fails.
pub fn object_json(ms: &Vec<(&str, JsonField)>) -> (r: Option<String>)
    ensures
        opt_view(r) == object_text(members_view(ms@)),
{
    let ghost mv = members_view(ms@);
    let colon = ":";
    let comma = ",";
    let open_brace = "{";
    let close_brace = "}";
    proof {
        reveal_strlit(":");
        reveal_strlit(",");
        reveal_strlit("{");
        reveal_strlit("}");
    }
    let mut acc = String::new();
    let mut i: usize = 0;
    while i < ms.len()
        invariant
            i <= ms.len(),
            mv == members_view(ms@),
            mv.len() == ms@.len(),
            members_text(mv.take(i as int)) == Some(acc@),
            colon@ == seq![':'],
            comma@ == seq![','],
        decreases ms.len() - i,
    {
        let ghost prefix = mv.take(i as int);
        let ghost next = mv.take(i + 1);
        assert(next.drop_last() =~= prefix);
        assert(next.last() == mv[i as int]);
        assert(mv[i as int] == (ms@[i as int].0@, ms@[i as int].1@));
        let key = match json_string(ms[i].0) {
            Some(k) => k,
            None => {
                proof {
                    lemma_members_failure_extends(mv, i + 1);
                    assert(mv.take(ms.len() as int) =~= mv);
                }
                return None;
            },
        };
        let value = match field_json(&ms[i].1) {
            Some(v) => v,
            None => {
                proof {
                    lemma_members_failure_extends(mv, i + 1);
                }
                return None;
            },
        };
        let ghost acc0 = acc@;
        assert(prefix.len() == i);
        if i > 0 {
            acc.append(comma);
        }
        acc.append(key.as_str());
        acc.append(colon);
        acc.append(value.as_str());
        proof {
            assert(member_text(mv[i as int]) == Some(key@ + seq![':'] + value@));
            if i == 0 {
                assert(acc0 == Seq::<char>::empty());
                assert(acc@ =~= key@ + seq![':'] + value@);
            } else {
                assert(acc@ =~= acc0 + seq![','] + (key@ + seq![':'] + value@));
            }
        }
        i = i + 1;
    }
    assert(mv.take(ms.len() as int) =~= mv);
    let mut out = String::from_str(open_brace);
    out.append(acc.as_str());
    out.append(close_brace);
    Some(out)
}

} // verus!
