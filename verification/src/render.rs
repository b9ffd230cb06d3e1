use vstd::prelude::*;

use crate::ipaddr::digit_char;
use crate::ipaddr::push_digit;
use crate::json::Json;

verus! {

broadcast use
    vstd::seq::axiom_seq_index_decreases,
    vstd::std_specs::vec::axiom_vec_decreases_to_view,
    vstd::std_specs::vec::axiom_vec_index_decreases,
;

/// How one character stands inside a rendered JSON string: the quote, the
/// backslash and the common control characters take their two-character
/// escapes, any other control character its four-digit unicode escape, and
/// the rest stand as themselves.
pub open spec fn escape_char(c: char) -> Seq<char> {
    if c == '"' {
        seq!['\\', '"']
    } else if c == '\\' {
        seq!['\\', '\\']
    } else if c == '\n' {
        seq!['\\', 'n']
    } else if c == '\r' {
        seq!['\\', 'r']
    } else if c == '\t' {
        seq!['\\', 't']
    } else if (c as u32) < 32 {
        seq!['\\', 'u', '0', '0', digit_char(((c as u32) / 16) as nat), digit_char(
            ((c as u32) % 16) as nat,
        )]
    } else {
        seq![c]
    }
}

/// A text with every character escaped for a JSON string.
pub open spec fn escape_text(s: Seq<char>) -> Seq<char>
    decreases s.len(),
{
    if s.len() == 0 {
        Seq::empty()
    } else {
        escape_text(s.drop_last()) + escape_char(s.last())
    }
}

/// A text quoted as a JSON string.
pub open spec fn quoted(s: Seq<char>) -> Seq<char> {
    seq!['"'] + escape_text(s) + seq!['"']
}

/// The rendered text of a JSON tree. A number stands as its stored decimal
/// text, unquoted; arrays and objects hold their elements in order, joined
/// with commas.
pub open spec fn render_spec(t: Json) -> Seq<char>
    decreases t, 0int,
{
    match t {
        Json::Null => seq!['n', 'u', 'l', 'l'],
        Json::Bool(b) => if b {
            seq!['t', 'r', 'u', 'e']
        } else {
            seq!['f', 'a', 'l', 's', 'e']
        },
        Json::Num(s) => s@,
        Json::Str(s) => quoted(s@),
        Json::Arr(items) => seq!['['] + render_list(items@, items@.len() as int) + seq![']'],
        Json::Obj(members) => seq!['{'] + render_members(members@, members@.len() as int) + seq![
            '}',
        ],
    }
}

/// The first `i` elements of an array, rendered and joined with commas.
pub open spec fn render_list(items: Seq<Json>, i: int) -> Seq<char>
    decreases items, i,
{
    if i <= 0 || i > items.len() {
        Seq::empty()
    } else if i == 1 {
        render_spec(items[0])
    } else {
        render_list(items, i - 1) + seq![','] + render_spec(items[i - 1])
    }
}

/// The first `i` members of an object, rendered as quoted key, colon and
/// value, joined with commas.
pub open spec fn render_members(members: Seq<(String, Json)>, i: int) -> Seq<char>
    decreases members, i,
{
    if i <= 0 || i > members.len() {
        Seq::empty()
    } else if i == 1 {
        quoted(members[0].0@) + seq![':'] + render_spec(members[0].1)
    } else {
        render_members(members, i - 1) + seq![','] + quoted(members[i - 1].0@) + seq![':']
            + render_spec(members[i - 1].1)
    }
}

/// Relies on alloc's String::push: appends exactly the one character.
#[verifier::external_body]
fn push_char(out: &mut String, c: char)
    ensures
        final(out)@ == old(out)@ + seq![c],
{
    out.push(c);
}

/// Appends one character in its escaped form.
fn push_escaped_char(out: &mut String, c: char)
    ensures
        final(out)@ == old(out)@ + escape_char(c),
{
    if c == '"' {
        out.append("\\\"");
        proof {
            reveal_strlit("\\\"");
            assert(out@ =~= old(out)@ + escape_char(c));
        }
    } else if c == '\\' {
        out.append("\\\\");
        proof {
            reveal_strlit("\\\\");
            assert(out@ =~= old(out)@ + escape_char(c));
        }
    } else if c == '\n' {
        out.append("\\n");
        proof {
            reveal_strlit("\\n");
            assert(out@ =~= old(out)@ + escape_char(c));
        }
    } else if c == '\r' {
        out.append("\\r");
        proof {
            reveal_strlit("\\r");
            assert(out@ =~= old(out)@ + escape_char(c));
        }
    } else if c == '\t' {
        out.append("\\t");
        proof {
            reveal_strlit("\\t");
            assert(out@ =~= old(out)@ + escape_char(c));
        }
    } else {
        let u = c as u32;
        if u < 32 {
            out.append("\\u00");
            push_digit(out, (u / 16) as u8);
            push_digit(out, (u % 16) as u8);
            proof {
                reveal_strlit("\\u00");
                assert(out@ =~= old(out)@ + escape_char(c));
            }
        } else {
            push_char(out, c);
        }
    }
}

/// Appends a text with every character escaped.
fn push_escaped(out: &mut String, s: &str)
    ensures
        final(out)@ == old(out)@ + escape_text(s@),
{
    let len = s.unicode_len();
    let mut i: usize = 0;
    proof {
        assert(s@.take(0) =~= Seq::<char>::empty());
        assert(out@ =~= old(out)@ + escape_text(s@.take(0)));
    }
    while i < len
        invariant
            len == s@.len(),
            i <= len,
            out@ == old(out)@ + escape_text(s@.take(i as int)),
        decreases len - i,
    {
        let c = s.get_char(i);
        push_escaped_char(out, c);
        proof {
            assert(s@.take(i as int + 1).drop_last() =~= s@.take(i as int));
            assert(s@.take(i as int + 1).last() == s@[i as int]);
        }
        i += 1;
    }
    proof {
        assert(s@.take(len as int) =~= s@);
    }
}

/// Appends a text quoted as a JSON string.
fn push_quoted(out: &mut String, s: &str)
    ensures
        final(out)@ == old(out)@ + quoted(s@),
{
    out.append("\"");
    push_escaped(out, s);
    out.append("\"");
    proof {
        reveal_strlit("\"");
        assert(out@ =~= old(out)@ + quoted(s@));
    }
}

/// Appends the rendered text of a JSON tree.
#[verifier::loop_isolation(false)]
fn push_json(out: &mut String, t: &Json)
    ensures
        final(out)@ == old(out)@ + render_spec(*t),
    decreases *t,
{
    match t {
        Json::Null => {
            out.append("null");
            proof {
                reveal_strlit("null");
                assert(out@ =~= old(out)@ + render_spec(*t));
            }
        },
        Json::Bool(b) => {
            if *b {
                out.append("true");
                proof {
                    reveal_strlit("true");
                    assert(out@ =~= old(out)@ + render_spec(*t));
                }
            } else {
                out.append("false");
                proof {
                    reveal_strlit("false");
                    assert(out@ =~= old(out)@ + render_spec(*t));
                }
            }
        },
        Json::Num(s) => {
            out.append(s.as_str());
        },
        Json::Str(s) => {
            push_quoted(out, s.as_str());
        },
        Json::Arr(items) => {
            out.append("[");
            let ghost base = out@;
            let mut j: usize = 0;
            while j < items.len()
                invariant
                    j <= items@.len(),
                    out@ == base + render_list(items@, j as int),
                decreases items@.len() - j,
            {
                if j > 0 {
                    out.append(",");
                    proof {
                        reveal_strlit(",");
                    }
                }
                push_json(out, &items[j]);
                proof {
                    assert(out@ =~= base + render_list(items@, j as int + 1));
                }
                j += 1;
            }
            out.append("]");
            proof {
                reveal_strlit("[");
                reveal_strlit("]");
                assert(out@ =~= old(out)@ + render_spec(*t));
            }
        },
        Json::Obj(members) => {
            out.append("{");
            let ghost base = out@;
            let mut j: usize = 0;
            while j < members.len()
                invariant
                    j <= members@.len(),
                    out@ == base + render_members(members@, j as int),
                decreases members@.len() - j,
            {
                if j > 0 {
                    out.append(",");
                    proof {
                        reveal_strlit(",");
                    }
                }
                push_quoted(out, members[j].0.as_str());
                out.append(":");
                push_json(out, &members[j].1);
                proof {
                    reveal_strlit(":");
                    assert(out@ =~= base + render_members(members@, j as int + 1));
                }
                j += 1;
            }
            out.append("}");
            proof {
                reveal_strlit("{");
                reveal_strlit("}");
                assert(out@ =~= old(out)@ + render_spec(*t));
            }
        },
    }
}

/// Renders a JSON tree as text.
pub fn render_json(t: &Json) -> (r: String)
    ensures
        r@ == render_spec(*t),
{
    let mut out = String::new();
    push_json(&mut out, t);
    proof {
        assert(out@ =~= render_spec(*t));
    }
    out
}

} // verus!
