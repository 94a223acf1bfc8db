//! The wire shape of a status tree: JSON with `description` omitted when
//! absent or empty and `subservices` omitted when empty, string values
//! escaped.

use vstd::prelude::*;
use vstd::string::{StrSliceExecFns, StringExecFns};

use crate::tree::{lemma_forest_full, tree_of, ServiceStatus, StatusTree};

verus! {

broadcast use vstd::std_specs::vec::axiom_vec_index_decreases;

/// Lowercase hexadecimal digit for a value below sixteen.
pub open spec fn hex_digit(n: int) -> char {
    if n == 0 {
        '0'
    } else if n == 1 {
        '1'
    } else if n == 2 {
        '2'
    } else if n == 3 {
        '3'
    } else if n == 4 {
        '4'
    } else if n == 5 {
        '5'
    } else if n == 6 {
        '6'
    } else if n == 7 {
        '7'
    } else if n == 8 {
        '8'
    } else if n == 9 {
        '9'
    } else if n == 10 {
        'a'
    } else if n == 11 {
        'b'
    } else if n == 12 {
        'c'
    } else if n == 13 {
        'd'
    } else if n == 14 {
        'e'
    } else {
        'f'
    }
}

/// How one character appears inside a JSON string value: the named short
/// escapes, a `\u00` escape for the remaining control characters, and the
/// character itself otherwise.
pub open spec fn escape_char(c: char) -> Seq<char> {
    if c == '"' {
        seq!['\\', '"']
    } else if c == '\\' {
        seq!['\\', '\\']
    } else if c == '\u{0008}' {
        seq!['\\', 'b']
    } else if c == '\u{000C}' {
        seq!['\\', 'f']
    } else if c == '\n' {
        seq!['\\', 'n']
    } else if c == '\r' {
        seq!['\\', 'r']
    } else if c == '\t' {
        seq!['\\', 't']
    } else if (c as u32) < 32 {
        seq!['\\', 'u', '0', '0', hex_digit(c as u32 as int / 16), hex_digit(c as u32 as int % 16)]
    } else {
        seq![c]
    }
}

/// A whole string value escaped, character by character.
pub open spec fn escape_seq(s: Seq<char>) -> Seq<char>
    decreases s.len(),
{
    if s.len() == 0 {
        Seq::empty()
    } else {
        escape_seq(s.drop_last()) + escape_char(s.last())
    }
}

/// The JSON rendering of one node.
pub open spec fn json_of(t: StatusTree) -> Seq<char>
    decreases t, 0int,
{
    "{\"name\":\""@ + escape_seq(t.name) + "\",\"status\":\""@ + t.status.label_spec() + "\""@
        + (match t.description {
        Some(d) => if d.len() > 0 {
            ",\"description\":\""@ + escape_seq(d) + "\""@
        } else {
            Seq::<char>::empty()
        },
        None => Seq::empty(),
    }) + (if t.children.len() == 0 {
        Seq::<char>::empty()
    } else {
        ",\"subservices\":["@ + json_list(t.children) + "]"@
    }) + "}"@
}

/// The JSON renderings of a sequence of nodes, comma-separated.
pub open spec fn json_list(cs: Seq<StatusTree>) -> Seq<char>
    decreases cs, 0int,
{
    if cs.len() == 0 {
        Seq::empty()
    } else if cs.len() == 1 {
        json_of(cs[0])
    } else {
        json_list(cs.drop_last()) + seq![','] + json_of(cs.last())
    }
}

/// Extending a rendered list by one node appends a comma (except before
/// the first node) and the node's rendering.
proof fn lemma_json_list_step(cs: Seq<StatusTree>, i: int)
    requires
        0 <= i < cs.len(),
    ensures
        json_list(cs.take(i + 1)) == json_list(cs.take(i)) + (if i == 0 {
            Seq::<char>::empty()
        } else {
            seq![',']
        }) + json_of(cs[i]),
{
    if i == 0 {
        assert(cs.take(1)[0] == cs[0]);
        assert(json_list(cs.take(1)) == json_of(cs[0]));
        assert(json_list(cs.take(0)) + Seq::<char>::empty() + json_of(cs[0]) =~= json_of(cs[0]));
    } else {
        assert(cs.take(i + 1).drop_last() =~= cs.take(i));
        assert(cs.take(i + 1).last() == cs[i]);
        assert(json_list(cs.take(i)) + seq![','] + json_of(cs[i]) =~= json_list(cs.take(i + 1)));
    }
}

/// One lowercase hexadecimal digit as a string slice.
fn hex_str(d: u32) -> (r: &'static str)
    requires
        d < 16,
    ensures
        r@ == seq![hex_digit(d as int)],
{
    proof {
        reveal_strlit("0");
        reveal_strlit("1");
        reveal_strlit("2");
        reveal_strlit("3");
        reveal_strlit("4");
        reveal_strlit("5");
        reveal_strlit("6");
        reveal_strlit("7");
        reveal_strlit("8");
        reveal_strlit("9");
        reveal_strlit("a");
        reveal_strlit("b");
        reveal_strlit("c");
        reveal_strlit("d");
        reveal_strlit("e");
        reveal_strlit("f");
    }
    let r = if d == 0 {
        "0"
    } else if d == 1 {
        "1"
    } else if d == 2 {
        "2"
    } else if d == 3 {
        "3"
    } else if d == 4 {
        "4"
    } else if d == 5 {
        "5"
    } else if d == 6 {
        "6"
    } else if d == 7 {
        "7"
    } else if d == 8 {
        "8"
    } else if d == 9 {
        "9"
    } else if d == 10 {
        "a"
    } else if d == 11 {
        "b"
    } else if d == 12 {
        "c"
    } else if d == 13 {
        "d"
    } else if d == 14 {
        "e"
    } else {
        "f"
    };
    proof {
        assert(r@ =~= seq![hex_digit(d as int)]);
    }
    r
}

/// Appends `s` to `out` with every character escaped for JSON.
fn append_escaped(out: &mut String, s: &str)
    ensures
        final(out)@ == old(out)@ + escape_seq(s@),
{
    let n = s.unicode_len();
    proof {
        assert(old(out)@ + escape_seq(s@.take(0int)) =~= out@);
    }
    let mut i: usize = 0;
    while i < n
        invariant
            n == s@.len(),
            i <= n,
            out@ == old(out)@ + escape_seq(s@.take(i as int)),
        decreases n - i,
    {
        let ghost prefix = out@;
        let c = s.get_char(i);
        proof {
            assert(s@.take(i + 1).drop_last() =~= s@.take(i as int));
            assert(s@.take(i + 1).last() == c);
            assert(escape_seq(s@.take(i + 1)) == escape_seq(s@.take(i as int)) + escape_char(c));
        }
        if c == '"' {
            out.append("\\\"");
            proof {
                reveal_strlit("\\\"");
                assert(("\\\"")@ =~= escape_char(c));
            }
        } else if c == '\\' {
            out.append("\\\\");
            proof {
                reveal_strlit("\\\\");
                assert(("\\\\")@ =~= escape_char(c));
            }
        } else if c == '\u{0008}' {
            out.append("\\b");
            proof {
                reveal_strlit("\\b");
                assert(("\\b")@ =~= escape_char(c));
            }
        } else if c == '\u{000C}' {
            out.append("\\f");
            proof {
                reveal_strlit("\\f");
                assert(("\\f")@ =~= escape_char(c));
            }
        } else if c == '\n' {
            out.append("\\n");
            proof {
                reveal_strlit("\\n");
                assert(("\\n")@ =~= escape_char(c));
            }
        } else if c == '\r' {
            out.append("\\r");
            proof {
                reveal_strlit("\\r");
                assert(("\\r")@ =~= escape_char(c));
            }
        } else if c == '\t' {
            out.append("\\t");
            proof {
                reveal_strlit("\\t");
                assert(("\\t")@ =~= escape_char(c));
            }
        } else if (c as u32) < 32 {
            let code = c as u32;
            out.append("\\u00");
            out.append(hex_str(code / 16));
            out.append(hex_str(code % 16));
            proof {
                reveal_strlit("\\u00");
                assert(("\\u00")@ + seq![hex_digit(code as int / 16)] + seq![
                    hex_digit(code as int % 16),
                ] =~= escape_char(c));
                assert(out@ =~= prefix + escape_char(c));
            }
        } else {
            out.append(s.substring_char(i, i + 1));
            proof {
                assert(s@.subrange(i as int, i + 1) =~= escape_char(c));
            }
        }
        proof {
            assert(out@ =~= old(out)@ + escape_seq(s@.take(i + 1)));
        }
        i += 1;
    }
    proof {
        assert(s@.take(n as int) =~= s@);
    }
}

/// Appends the JSON rendering of `t` to `out`.
fn write_json(out: &mut String, t: &ServiceStatus)
    ensures
        final(out)@ == old(out)@ + json_of(t@),
    decreases *t,
{
    proof {
        lemma_forest_full(t.subservices);
    }
    out.append("{\"name\":\"");
    append_escaped(out, t.name.as_str());
    out.append("\",\"status\":\"");
    out.append(t.status.label());
    out.append("\"");
    match &t.description {
        Some(d) => if !d.as_str().is_empty() {
            out.append(",\"description\":\"");
            append_escaped(out, d.as_str());
            out.append("\"");
        },
        None => {},
    }
    let n = t.subservices.len();
    if n > 0 {
        out.append(",\"subservices\":[");
        let ghost base = out@;
        proof {
            assert(base + json_list(t@.children.take(0int)) =~= base);
        }
        let mut i: usize = 0;
        while i < n
            invariant
                n == t.subservices.len(),
                t@.children.len() == n,
                0 < n,
                i <= n,
                forall|j: int|
                    0 <= j < n ==> t@.children[j] == tree_of(#[trigger] t.subservices[j]),
                out@ == base + json_list(t@.children.take(i as int)),
            decreases n - i,
        {
            if i > 0 {
                out.append(",");
            }
            proof {
                assert(decreases_to!(*t => t.subservices));
            }
            write_json(out, &t.subservices[i]);
            proof {
                reveal_strlit(",");
                lemma_json_list_step(t@.children, i as int);
                assert(t@.children[i as int] == tree_of(t.subservices[i as int]));
                assert(out@ =~= base + json_list(t@.children.take(i + 1)));
            }
            i += 1;
        }
        proof {
            assert(t@.children.take(n as int) =~= t@.children);
        }
        out.append("]");
    }
    out.append("}");
    proof {
        assert(out@ =~= old(out)@ + json_of(t@));
    }
}

/// Renders a tree in its wire shape: the JSON body served for it, with
/// `description` omitted when absent or empty and `subservices` omitted
/// when empty.
pub fn to_json(t: &ServiceStatus) -> (r: String)
    ensures
        r@ == json_of(t@),
{
    let mut out = String::new();
    write_json(&mut out, t);
    proof {
        assert(out@ =~= json_of(t@));
    }
    out
}

} // verus!
