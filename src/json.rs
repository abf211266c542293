//! The JSON bodies of the backend calls: flat objects whose members are strings
//! or booleans.
use vstd::prelude::*;

verus! {

/// The compact JSON text of the string `s`: quoted, with what JSON asks for escaped.
pub uninterp spec fn json_string_text(s: Seq<char>) -> Seq<char>;

/// Relies on serde_json's serialisation of a string value (`Value::String`
/// displayed), which is the quoted, escaped text of the characters alone.
#[verifier::external_body]
fn json_quote(s: &str) -> (r: String)
    ensures
        r@ == json_string_text(s@),
{
    serde_json::Value::String(s.to_owned()).to_string()
}

/// The JSON text of a boolean.
pub open spec fn json_bool_text(b: bool) -> Seq<char> {
    if b {
        "true"@
    } else {
        "false"@
    }
}

/// One member `"key":value` of an object, the value given as JSON text.
pub open spec fn member_text(key: Seq<char>, value: Seq<char>) -> Seq<char> {
    json_string_text(key) + seq![':'] + value
}

/// The members, separated by commas.
pub open spec fn join_members(ms: Seq<Seq<char>>) -> Seq<char>
    decreases ms.len(),
{
    if ms.len() == 0 {
        Seq::empty()
    } else if ms.len() == 1 {
        ms[0]
    } else {
        join_members(ms.drop_last()) + seq![','] + ms.last()
    }
}

/// The JSON object with the given members, in order.
pub open spec fn object_text(ms: Seq<Seq<char>>) -> Seq<char> {
    seq!['{'] + join_members(ms) + seq!['}']
}

/// The member `"key":"value"` with a string value.
pub fn string_member(key: &str, value: &str) -> (r: String)
    ensures
        r@ == member_text(key@, json_string_text(value@)),
{
    let k = json_quote(key);
    let v = json_quote(value);
    let r = k.concat(":").concat(v.as_str());
    proof {
        reveal_strlit(":");
        assert(r@ =~= member_text(key@, json_string_text(value@)));
    }
    r
}

/// The member `"key":true` or `"key":false`.
pub fn bool_member(key: &str, value: bool) -> (r: String)
    ensures
        r@ == member_text(key@, json_bool_text(value)),
{
    let k = json_quote(key);
    let r = if value {
        k.concat(":true")
    } else {
        k.concat(":false")
    };
    proof {
        reveal_strlit(":true");
        reveal_strlit(":false");
        reveal_strlit("true");
        reveal_strlit("false");
        assert(r@ =~= member_text(key@, json_bool_text(value)));
    }
    r
}

/// The object whose members are `members`, each already JSON text, in order.
pub fn object(members: &Vec<String>) -> (r: String)
    ensures
        r@ == object_text(members@.map_values(|m: String| m@)),
{
    let ghost ms = members@.map_values(|m: String| m@);
    let mut body = String::from_str("{");
    let mut k: usize = 0;
    proof {
        reveal_strlit("{");
        assert(ms.subrange(0, 0) =~= Seq::<Seq<char>>::empty());
        assert(body@ =~= seq!['{'] + join_members(ms.subrange(0, 0)));
    }
    while k < members.len()
        invariant
            k <= members@.len(),
            ms == members@.map_values(|m: String| m@),
            body@ == seq!['{'] + join_members(ms.subrange(0, k as int)),
        decreases members@.len() - k,
    {
        let ghost before = body@;
        if k > 0 {
            body.append(",");
        }
        body.append(members[k].as_str());
        proof {
            reveal_strlit(",");
            let prev = ms.subrange(0, k as int);
            let next = ms.subrange(0, k + 1);
            assert(next.drop_last() =~= prev);
            assert(next.last() == members@[k as int]@);
            if k == 0 {
                assert(join_members(next) == members@[0]@);
                assert(body@ =~= seq!['{'] + join_members(next));
            } else {
                assert(body@ =~= seq!['{'] + join_members(next));
            }
        }
        k = k + 1;
    }
    body.append("}");
    proof {
        reveal_strlit("}");
        assert(ms.subrange(0, members@.len() as int) =~= ms);
        assert(body@ =~= object_text(ms));
    }
    body
}

} // verus!
