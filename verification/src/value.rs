use vstd::prelude::*;

verus! {

/// A dynamically typed parameter tree, as a caller hands it in: the
/// tagged variants a template or the document service consumes.  A
/// number is kept as its decimal text, so that it is forwarded exactly
/// as it was written.
pub enum Value {
    Null,
    Bool(bool),
    Num(String),
    Str(String),
    Arr(Vec<Value>),
    Obj(Vec<(String, Value)>),
}

/// The hexadecimal digit for `n`, lower case.
pub open spec fn hex_digit(n: int) -> char {
    if n == 0 {
        '0'
    } else if n == 1 {
        '1'
    } else if n == 2 {
        '2'
    } else if n == 3 {
        '3'
    } else if n == 4 {
        '4'
    } else if n == 5 {
        '5'
    } else if n == 6 {
        '6'
    } else if n == 7 {
        '7'
    } else if n == 8 {
        '8'
    } else if n == 9 {
        '9'
    } else if n == 10 {
        'a'
    } else if n == 11 {
        'b'
    } else if n == 12 {
        'c'
    } else if n == 13 {
        'd'
    } else if n == 14 {
        'e'
    } else {
        'f'
    }
}

/// How one character appears inside a JSON string literal: quote,
/// backslash and control characters are escaped, everything else
/// stands as it is.
pub open spec fn json_escape_char(c: char) -> Seq<char> {
    if c == '"' {
        seq!['\\', '"']
    } else if c == '\\' {
        seq!['\\', '\\']
    } else if c == '\n' {
        seq!['\\', 'n']
    } else if c == '\r' {
        seq!['\\', 'r']
    } else if c == '\t' {
        seq!['\\', 't']
    } else if (c as u32) < 0x20 {
        seq!['\\', 'u', '0', '0', hex_digit(c as u32 as int / 16), hex_digit(c as u32 as int % 16)]
    } else {
        seq![c]
    }
}

/// The body of a JSON string literal for `s`: each character escaped.
pub open spec fn json_escaped(s: Seq<char>) -> Seq<char>
    decreases s.len(),
{
    if s.len() == 0 {
        Seq::empty()
    } else {
        json_escaped(s.subrange(0, s.len() - 1)) + json_escape_char(s.last())
    }
}

/// A JSON string literal: the escaped text between double quotes.
pub open spec fn json_of_string(s: Seq<char>) -> Seq<char> {
    seq!['"'] + json_escaped(s) + seq!['"']
}

/// The JSON text for a value.
pub open spec fn json_of(v: Value) -> Seq<char>
    decreases v, 1int,
{
    match v {
        Value::Null => seq!['n', 'u', 'l', 'l'],
        Value::Bool(b) => if b {
            seq!['t', 'r', 'u', 'e']
        } else {
            seq!['f', 'a', 'l', 's', 'e']
        },
        Value::Num(s) => s@,
        Value::Str(s) => json_of_string(s@),
        Value::Arr(a) => seq!['['] + json_of_elems(a@) + seq![']'],
        Value::Obj(o) => seq!['{'] + json_of_entries(o@) + seq!['}'],
    }
}

/// The comma-separated JSON texts of a sequence of array elements.
pub open spec fn json_of_elems(elems: Seq<Value>) -> Seq<char>
    decreases elems, 0int,
{
    if elems.len() == 0 {
        Seq::empty()
    } else if elems.len() == 1 {
        json_of(elems[0])
    } else {
        json_of_elems(elems.subrange(0, elems.len() - 1)) + seq![','] + json_of(elems.last())
    }
}

/// One `"key":value` member of a JSON object.
pub open spec fn json_of_entry(e: (String, Value)) -> Seq<char>
    decreases e, 1int,
{
    json_of_string(e.0@) + seq![':'] + json_of(e.1)
}

/// The comma-separated members of a JSON object.
pub open spec fn json_of_entries(entries: Seq<(String, Value)>) -> Seq<char>
    decreases entries, 0int,
{
    if entries.len() == 0 {
        Seq::empty()
    } else if entries.len() == 1 {
        json_of_entry(entries[0])
    } else {
        json_of_entries(entries.subrange(0, entries.len() - 1)) + seq![',']
            + json_of_entry(entries.last())
    }
}

/// The JSON text of a whole object, as the top-level parameter mapping
/// is sent: its members between braces.
pub open spec fn json_of_object(entries: Seq<(String, Value)>) -> Seq<char> {
    seq!['{'] + json_of_entries(entries) + seq!['}']
}

/// The hexadecimal digit for `n` as a one-character piece of text.
fn hex_digit_str(n: u8) -> (r: &'static str)
    requires
        n < 16,
    ensures
        r@ == seq![hex_digit(n as int)],
{
    let r: &'static str = if n == 0 {
        "0"
    } else if n == 1 {
        "1"
    } else if n == 2 {
        "2"
    } else if n == 3 {
        "3"
    } else if n == 4 {
        "4"
    } else if n == 5 {
        "5"
    } else if n == 6 {
        "6"
    } else if n == 7 {
        "7"
    } else if n == 8 {
        "8"
    } else if n == 9 {
        "9"
    } else if n == 10 {
        "a"
    } else if n == 11 {
        "b"
    } else if n == 12 {
        "c"
    } else if n == 13 {
        "d"
    } else if n == 14 {
        "e"
    } else {
        "f"
    };
    proof {
        reveal_strlit("0");
        reveal_strlit("1");
        reveal_strlit("2");
        reveal_strlit("3");
        reveal_strlit("4");
        reveal_strlit("5");
        reveal_strlit("6");
        reveal_strlit("7");
        reveal_strlit("8");
        reveal_strlit("9");
        reveal_strlit("a");
        reveal_strlit("b");
        reveal_strlit("c");
        reveal_strlit("d");
        reveal_strlit("e");
        reveal_strlit("f");
        assert(r@ =~= seq![hex_digit(n as int)]);
    }
    r
}

/// Appends the escaped form of `s` to `out`.
fn append_escaped(out: &mut String, s: &str)
    ensures
        final(out)@ == old(out)@ + json_escaped(s@),
{
    let n: usize = s.unicode_len();
    let mut i: usize = 0;
    while i < n
        invariant
            i <= n,
            n == s@.len(),
            out@ == old(out)@ + json_escaped(s@.subrange(0, i as int)),
        decreases n - i,
    {
        let c = s.get_char(i);
        if c == '"' {
            out.append("\\\"");
            proof {
                reveal_strlit("\\\"");
            }
        } else if c == '\\' {
            out.append("\\\\");
            proof {
                reveal_strlit("\\\\");
            }
        } else if c == '\n' {
            out.append("\\n");
            proof {
                reveal_strlit("\\n");
            }
        } else if c == '\r' {
            out.append("\\r");
            proof {
                reveal_strlit("\\r");
            }
        } else if c == '\t' {
            out.append("\\t");
            proof {
                reveal_strlit("\\t");
            }
        } else if (c as u32) < 0x20 {
            let code: u32 = c as u32;
            out.append("\\u00");
            out.append(hex_digit_str((code / 16) as u8));
            out.append(hex_digit_str((code % 16) as u8));
            proof {
                reveal_strlit("\\u00");
            }
        } else {
            let piece = s.substring_char(i, i + 1);
            proof {
                assert(piece@ =~= seq![s@[i as int]]);
            }
            out.append(piece);
        }
        proof {
            let t = s@.subrange(0, i as int + 1);
            assert(t.subrange(0, i as int) =~= s@.subrange(0, i as int));
            assert(t.last() == s@[i as int]);
            assert(out@ =~= old(out)@ + json_escaped(t));
        }
        i = i + 1;
    }
    proof {
        assert(s@.subrange(0, n as int) =~= s@);
    }
}

/// Appends the JSON string literal for `s` to `out`.
fn append_json_string(out: &mut String, s: &str)
    ensures
        final(out)@ == old(out)@ + json_of_string(s@),
{
    out.append("\"");
    append_escaped(out, s);
    out.append("\"");
    proof {
        reveal_strlit("\"");
        assert(out@ =~= old(out)@ + json_of_string(s@));
    }
}

/// The comma-separated JSON texts of the elements of `a`.
fn elems_to_json(a: &Vec<Value>) -> (r: String)
    ensures
        r@ == json_of_elems(a@),
    decreases a, 0int,
{
    let mut out = String::new();
    let mut i: usize = 0;
    while i < a.len()
        invariant
            i <= a.len(),
            out@ == json_of_elems(a@.subrange(0, i as int)),
        decreases a@.len() - i,
    {
        if i > 0 {
            out.append(",");
            proof {
                reveal_strlit(",");
            }
        }
        let piece = to_json(&a[i]);
        out.append(piece.as_str());
        proof {
            let t = a@.subrange(0, i as int + 1);
            assert(t.subrange(0, i as int) =~= a@.subrange(0, i as int));
            assert(t.last() == a@[i as int]);
            assert(out@ =~= json_of_elems(t));
        }
        i = i + 1;
    }
    proof {
        assert(a@.subrange(0, a@.len() as int) =~= a@);
    }
    out
}

/// The comma-separated `"key":value` members of `o`.
fn entries_to_json(o: &Vec<(String, Value)>) -> (r: String)
    ensures
        r@ == json_of_entries(o@),
    decreases o, 0int,
{
    let mut out = String::new();
    let mut i: usize = 0;
    while i < o.len()
        invariant
            i <= o.len(),
            out@ == json_of_entries(o@.subrange(0, i as int)),
        decreases o@.len() - i,
    {
        if i > 0 {
            out.append(",");
            proof {
                reveal_strlit(",");
            }
        }
        append_json_string(&mut out, o[i].0.as_str());
        out.append(":");
        let piece = to_json(&o[i].1);
        out.append(piece.as_str());
        proof {
            reveal_strlit(":");
            let t = o@.subrange(0, i as int + 1);
            assert(t.subrange(0, i as int) =~= o@.subrange(0, i as int));
            assert(t.last() == o@[i as int]);
            assert(json_of_entry(t.last()) =~= json_of_string(o@[i as int].0@) + seq![':']
                + json_of(o@[i as int].1));
            assert(out@ =~= json_of_entries(t));
        }
        i = i + 1;
    }
    proof {
        assert(o@.subrange(0, o@.len() as int) =~= o@);
    }
    out
}

/// Writes a value as JSON text, exactly as `json_of` states it.
pub fn to_json(v: &Value) -> (r: String)
    ensures
        r@ == json_of(*v),
    decreases v, 1int,
{
    match v {
        Value::Null => {
            let r = String::from_str("null");
            proof {
                reveal_strlit("null");
                assert(r@ =~= json_of(*v));
            }
            r
        },
        Value::Bool(b) => {
            let r = if *b {
                String::from_str("true")
            } else {
                String::from_str("false")
            };
            proof {
                reveal_strlit("true");
                reveal_strlit("false");
                assert(r@ =~= json_of(*v));
            }
            r
        },
        Value::Num(s) => s.clone(),
        Value::Str(s) => {
            let mut out = String::new();
            append_json_string(&mut out, s.as_str());
            out
        },
        Value::Arr(a) => {
            let mut out = String::from_str("[");
            let members = elems_to_json(a);
            out.append(members.as_str());
            out.append("]");
            proof {
                reveal_strlit("[");
                reveal_strlit("]");
                assert(out@ =~= json_of(*v));
            }
            out
        },
        Value::Obj(o) => {
            let mut out = String::from_str("{");
            let members = entries_to_json(o);
            out.append(members.as_str());
            out.append("}");
            proof {
                reveal_strlit("{");
                reveal_strlit("}");
                assert(out@ =~= json_of(*v));
            }
            out
        },
    }
}

/// Writes the top-level parameter mapping as one JSON object.
pub fn to_json_object(entries: &Vec<(String, Value)>) -> (r: String)
    ensures
        r@ == json_of_object(entries@),
{
    let mut out = String::from_str("{");
    let members = entries_to_json(entries);
    out.append(members.as_str());
    out.append("}");
    proof {
        reveal_strlit("{");
        reveal_strlit("}");
        assert(out@ =~= json_of_object(entries@));
    }
    out
}

} // verus!
