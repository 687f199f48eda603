//! Verified JSON rendering of the response body: the matched records as an
//! array of objects with `_id`, `title` and `description` members.
//!
//! The encoding is pinned down exactly: string values are quoted, with `"`
//! and `\` escaped, the common control characters written as `\b`, `\t`,
//! `\n`, `\f`, `\r`, and every other control character as `\u00` followed by
//! two lower-case hex digits.

use vstd::prelude::*;
use crate::task::{Task, TaskView};

verus! {

/// The lower-case hexadecimal digit of a value below sixteen.
pub open spec fn hex_digit(n: int) -> char {
    if n < 10 {
        ((48 + n) as u32) as char
    } else {
        ((87 + n) as u32) as char
    }
}

/// How one character appears inside a JSON string literal.
pub open spec fn escape_char(c: char) -> Seq<char> {
    if c == '"' {
        seq!['\\', '"']
    } else if c == '\\' {
        seq!['\\', '\\']
    } else if c == '\u{08}' {
        seq!['\\', 'b']
    } else if c == '\t' {
        seq!['\\', 't']
    } else if c == '\n' {
        seq!['\\', 'n']
    } else if c == '\u{0c}' {
        seq!['\\', 'f']
    } else if c == '\r' {
        seq!['\\', 'r']
    } else if (c as u32) < 32 {
        seq!['\\', 'u', '0', '0', hex_digit(c as u32 as int / 16), hex_digit(c as u32 as int % 16)]
    } else {
        seq![c]
    }
}

/// A whole string escaped, character by character.
pub open spec fn escape_seq(s: Seq<char>) -> Seq<char>
    decreases s.len(),
{
    if s.len() == 0 {
        Seq::empty()
    } else {
        escape_seq(s.drop_last()) + escape_char(s.last())
    }
}

/// A JSON string literal: the escaped text between double quotes.
pub open spec fn json_string(s: Seq<char>) -> Seq<char> {
    seq!['"'] + escape_seq(s) + seq!['"']
}

/// One record as a JSON object.
pub open spec fn json_task(t: TaskView) -> Seq<char> {
    "{\"_id\":"@ + json_string(t.id) + ",\"title\":"@ + json_string(t.title)
        + ",\"description\":"@ + json_string(t.description) + "}"@
}

/// The comma-separated object list, in record order.
pub open spec fn json_items(ts: Seq<TaskView>) -> Seq<char>
    decreases ts.len(),
{
    if ts.len() == 0 {
        Seq::empty()
    } else if ts.len() == 1 {
        json_task(ts[0])
    } else {
        json_items(ts.drop_last()) + seq![','] + json_task(ts.last())
    }
}

/// The response body: the object list between square brackets.
pub open spec fn json_tasks(ts: Seq<TaskView>) -> Seq<char> {
    seq!['['] + json_items(ts) + seq![']']
}

proof fn lemma_escape_take_snoc(s: Seq<char>, i: int)
    requires
        0 <= i < s.len(),
    ensures
        escape_seq(s.take(i + 1)) == escape_seq(s.take(i)) + escape_char(s[i]),
{
    assert(s.take(i + 1).drop_last() =~= s.take(i));
    assert(s.take(i + 1).last() == s[i]);
}

fn hex_digit_str(n: u8) -> (r: &'static str)
    requires
        n < 16,
    ensures
        r@ == seq![hex_digit(n as int)],
{
    proof {
        reveal_strlit("0");
        reveal_strlit("1");
        reveal_strlit("2");
        reveal_strlit("3");
        reveal_strlit("4");
        reveal_strlit("5");
        reveal_strlit("6");
        reveal_strlit("7");
        reveal_strlit("8");
        reveal_strlit("9");
        reveal_strlit("a");
        reveal_strlit("b");
        reveal_strlit("c");
        reveal_strlit("d");
        reveal_strlit("e");
        reveal_strlit("f");
    }
    let r = match n {
        0 => "0",
        1 => "1",
        2 => "2",
        3 => "3",
        4 => "4",
        5 => "5",
        6 => "6",
        7 => "7",
        8 => "8",
        9 => "9",
        10 => "a",
        11 => "b",
        12 => "c",
        13 => "d",
        14 => "e",
        _ => "f",
    };
    proof {
        assert(r@ =~= seq![hex_digit(n as int)]);
    }
    r
}

fn escape_into(out: &mut String, s: &str)
    ensures
        final(out)@ == old(out)@ + escape_seq(s@),
{
    let ghost orig: Seq<char> = out@;
    let len = s.unicode_len();
    let mut i: usize = 0;
    proof {
        assert(s@.take(0) =~= Seq::<char>::empty());
    }
    while i < len
        invariant
            0 <= i <= len,
            len == s@.len(),
            out@ == orig + escape_seq(s@.take(i as int)),
        decreases len - i,
    {
        let ghost before: Seq<char> = out@;
        let c = s.get_char(i);
        if c == '"' {
            out.append("\\\"");
            proof {
                reveal_strlit("\\\"");
                assert(out@ =~= before + escape_char(c));
            }
        } else if c == '\\' {
            out.append("\\\\");
            proof {
                reveal_strlit("\\\\");
                assert(out@ =~= before + escape_char(c));
            }
        } else if c == '\u{08}' {
            out.append("\\b");
            proof {
                reveal_strlit("\\b");
                assert(out@ =~= before + escape_char(c));
            }
        } else if c == '\t' {
            out.append("\\t");
            proof {
                reveal_strlit("\\t");
                assert(out@ =~= before + escape_char(c));
            }
        } else if c == '\n' {
            out.append("\\n");
            proof {
                reveal_strlit("\\n");
                assert(out@ =~= before + escape_char(c));
            }
        } else if c == '\u{0c}' {
            out.append("\\f");
            proof {
                reveal_strlit("\\f");
                assert(out@ =~= before + escape_char(c));
            }
        } else if c == '\r' {
            out.append("\\r");
            proof {
                reveal_strlit("\\r");
                assert(out@ =~= before + escape_char(c));
            }
        } else if (c as u32) < 32 {
            let u = c as u32;
            out.append("\\u00");
            let hi = hex_digit_str((u / 16) as u8);
            out.append(hi);
            let lo = hex_digit_str((u % 16) as u8);
            out.append(lo);
            proof {
                reveal_strlit("\\u00");
                assert(out@ =~= before + escape_char(c));
            }
        } else {
            let piece = s.substring_char(i, i + 1);
            out.append(piece);
            proof {
                assert(piece@ =~= seq![s@[i as int]]);
                assert(out@ =~= before + escape_char(c));
            }
        }
        proof {
            lemma_escape_take_snoc(s@, i as int);
        }
        i += 1;
    }
    proof {
        assert(s@.take(len as int) =~= s@);
    }
}

fn render_string_into(out: &mut String, s: &str)
    ensures
        final(out)@ == old(out)@ + json_string(s@),
{
    let ghost orig: Seq<char> = out@;
    out.append("\"");
    escape_into(out, s);
    out.append("\"");
    proof {
        reveal_strlit("\"");
        assert(out@ =~= orig + json_string(s@));
    }
}

fn render_task_into(out: &mut String, t: &Task)
    ensures
        final(out)@ == old(out)@ + json_task(t@),
{
    let ghost orig: Seq<char> = out@;
    out.append("{\"_id\":");
    render_string_into(out, t.id.as_str());
    out.append(",\"title\":");
    render_string_into(out, t.title.as_str());
    out.append(",\"description\":");
    render_string_into(out, t.description.as_str());
    out.append("}");
    proof {
        assert(out@ =~= orig + json_task(t@));
    }
}

/// Renders a sequence of records as the JSON array the response carries.
pub fn render_tasks(tasks: &Vec<Task>) -> (s: String)
    ensures
        s@ == json_tasks(tasks.deep_view()),
{
    let ghost views: Seq<TaskView> = tasks.deep_view();
    let mut out = String::new();
    out.append("[");
    proof {
        reveal_strlit("[");
        assert(views.take(0) =~= Seq::<TaskView>::empty());
        assert(out@ =~= seq!['['] + json_items(views.take(0)));
    }
    let mut i: usize = 0;
    while i < tasks.len()
        invariant
            0 <= i <= tasks.len(),
            views == tasks.deep_view(),
            views.len() == tasks.len(),
            out@ == seq!['['] + json_items(views.take(i as int)),
        decreases tasks.len() - i,
    {
        let ghost before: Seq<char> = out@;
        if i > 0 {
            out.append(",");
            proof {
                reveal_strlit(",");
            }
        }
        render_task_into(&mut out, &tasks[i]);
        proof {
            assert(views.take(i + 1).drop_last() =~= views.take(i as int));
            assert(views.take(i + 1).last() == views[i as int]);
            assert(views[i as int] == tasks[i as int]@);
            if i == 0 {
                assert(json_items(views.take(1)) == json_task(views[0]));
                assert(out@ =~= seq!['['] + json_items(views.take(1)));
            } else {
                assert(json_items(views.take(i + 1)) == json_items(views.take(i as int))
                    + seq![','] + json_task(views[i as int]));
                assert(out@ =~= seq!['['] + json_items(views.take(i + 1)));
            }
        }
        i += 1;
    }
    out.append("]");
    proof {
        reveal_strlit("]");
        assert(views.take(tasks.len() as int) =~= views);
        assert(out@ =~= json_tasks(views));
    }
    out
}

} // verus!
