//! JSON text for strings, string arrays and objects.
//!
//! String escaping is done by `serde_json`; this module frames the
//! escaped strings into arrays and objects.
use vstd::prelude::*;

verus! {

/// The lower-case hexadecimal digit for `n` (which is below 16).
pub open spec fn hex_digit(n: u32) -> char {
    if n < 10 {
        (('0' as u32) + n) as char
    } else {
        (('a' as u32) + n - 10) as char
    }
}

/// How one character appears inside a JSON string literal.
pub open spec fn escape_char(c: char) -> Seq<char> {
    if c == '"' {
        seq!['\\', '"']
    } else if c == '\\' {
        seq!['\\', '\\']
    } else if c == '\x08' {
        seq!['\\', 'b']
    } else if c == '\t' {
        seq!['\\', 't']
    } else if c == '\n' {
        seq!['\\', 'n']
    } else if c == '\x0c' {
        seq!['\\', 'f']
    } else if c == '\r' {
        seq!['\\', 'r']
    } else if (c as u32) < 0x20 {
        seq!['\\', 'u', '0', '0', hex_digit((c as u32) / 16), hex_digit((c as u32) % 16)]
    } else {
        seq![c]
    }
}

/// The characters of `s`, each escaped.
pub open spec fn escaped(s: Seq<char>) -> Seq<char>
    decreases s.len(),
{
    if s.len() == 0 {
        Seq::empty()
    } else {
        escaped(s.drop_last()) + escape_char(s.last())
    }
}

/// `s` as a JSON string literal.
pub open spec fn quoted(s: Seq<char>) -> Seq<char> {
    seq!['"'] + escaped(s) + seq!['"']
}

/// The given strings as JSON string literals, with a comma between each two
/// neighbours.
pub open spec fn quoted_list(items: Seq<Seq<char>>) -> Seq<char>
    decreases items.len(),
{
    if items.len() == 0 {
        Seq::empty()
    } else if items.len() == 1 {
        quoted(items[0])
    } else {
        quoted_list(items.drop_last()) + seq![','] + quoted(items.last())
    }
}

/// A JSON array of the given strings.
pub open spec fn array_text(items: Seq<Seq<char>>) -> Seq<char> {
    seq!['['] + quoted_list(items) + seq![']']
}

/// One member of a JSON object: the quoted key, a colon, the value's text.
pub open spec fn member_text(key: Seq<char>, value: Seq<char>) -> Seq<char> {
    quoted(key) + seq![':'] + value
}

/// The given members, with a comma between each two neighbours; each member
/// is a key and the JSON text of its value.
pub open spec fn member_list(members: Seq<(Seq<char>, Seq<char>)>) -> Seq<char>
    decreases members.len(),
{
    if members.len() == 0 {
        Seq::empty()
    } else if members.len() == 1 {
        member_text(members[0].0, members[0].1)
    } else {
        member_list(members.drop_last()) + seq![','] + member_text(
            members.last().0,
            members.last().1,
        )
    }
}

/// A JSON object of the given members, in the given order.
pub open spec fn object_text(members: Seq<(Seq<char>, Seq<char>)>) -> Seq<char> {
    seq!['{'] + member_list(members) + seq!['}']
}

/// The view of a list of members: each key and value as characters.
pub open spec fn members_view(members: Seq<(String, String)>) -> Seq<(Seq<char>, Seq<char>)> {
    members.map_values(|m: (String, String)| (m.0@, m.1@))
}

/// A JSON array of the given strings.
pub fn string_array(items: &Vec<String>) -> (r: String)
    ensures
        r@ == array_text(items.deep_view()),
{
    let ghost all = items.deep_view();
    let mut acc = String::new();
    proof {
        reveal_strlit("[");
        reveal_strlit(",");
        reveal_strlit("]");
    }
    acc.append("[");
    let mut i: usize = 0;
    while i < items.len()
        invariant
            i <= items.len(),
            all == items.deep_view(),
            acc@ == seq!['['] + quoted_list(all.subrange(0, i as int)),
        decreases items.len() - i,
    {
        let q = quote(items[i].as_str());
        let ghost done = all.subrange(0, i as int);
        let ghost next = all.subrange(0, i + 1);
        proof {
            reveal_strlit(",");
            assert(next.drop_last() =~= done);
            assert(next.last() == items@[i as int]@);
        }
        if i > 0 {
            acc.append(",");
        }
        acc.append(q.as_str());
        proof {
            assert(acc@ =~= seq!['['] + quoted_list(next));
        }
        i = i + 1;
    }
    acc.append("]");
    proof {
        assert(all.subrange(0, i as int) =~= all);
    }
    acc
}

/// A JSON object of the given members, in the given order; each member is a
/// key and the JSON text of its value.
pub fn object(members: &Vec<(String, String)>) -> (r: String)
    ensures
        r@ == object_text(members_view(members@)),
{
    let ghost all = members_view(members@);
    let mut acc = String::new();
    proof {
        reveal_strlit("{");
        reveal_strlit(",");
        reveal_strlit(":");
        reveal_strlit("}");
    }
    acc.append("{");
    let mut i: usize = 0;
    while i < members.len()
        invariant
            i <= members.len(),
            all == members_view(members@),
            acc@ == seq!['{'] + member_list(all.subrange(0, i as int)),
        decreases members.len() - i,
    {
        proof {
            reveal_strlit(",");
            reveal_strlit(":");
        }
        let mut m = quote(members[i].0.as_str());
        m.append(":");
        m.append(members[i].1.as_str());
        let ghost done = all.subrange(0, i as int);
        let ghost next = all.subrange(0, i + 1);
        proof {
            assert(next.drop_last() =~= done);
            assert(next.last() == (members@[i as int].0@, members@[i as int].1@));
        }
        if i > 0 {
            acc.append(",");
        }
        acc.append(m.as_str());
        proof {
            assert(acc@ =~= seq!['{'] + member_list(next));
        }
        i = i + 1;
    }
    acc.append("}");
    proof {
        assert(all.subrange(0, i as int) =~= all);
    }
    acc
}

/// serde_json's error type, carried through opaquely from `serde_json::to_string`.
#[verifier::external_type_specification]
#[verifier::external_body]
pub struct ExJsonError(serde_json::Error);

/// Relies on serde_json::to_string on a `&str`: it writes the string between
/// double quotes, escaping `"`, `\` and the control characters below 0x20
/// (`\b \t \n \f \r` by name, the others as `\u00xx` in lower-case hex) and
/// copying every other character. Serialising a `str` into the in-memory
/// buffer that `to_string` uses never fails.
#[verifier::external_body]
fn serde_quote(s: &str) -> (r: Result<String, serde_json::Error>)
    ensures
        r is Ok,
        r matches Ok(t) ==> t@ == quoted(s@),
{
    serde_json::to_string(s)
}

/// `s` as a JSON string literal.
pub fn quote(s: &str) -> (r: String)
    ensures
        r@ == quoted(s@),
{
    match serde_quote(s) {
        Ok(t) => t,
        Err(_) => {
            proof {
                assert(false);
            }
            String::new()
        },
    }
}

} // verus!
