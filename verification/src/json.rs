//! JSON framing for the engine exchanges the library composes itself:
//! the registry credential blob and the listing filters.

use vstd::prelude::*;

use crate::text::push_char;

verus! {

/// The lowercase hexadecimal character of a value below sixteen.
pub open spec fn hex_char(n: int) -> char {
    if n == 0 {
        '0'
    } else if n == 1 {
        '1'
    } else if n == 2 {
        '2'
    } else if n == 3 {
        '3'
    } else if n == 4 {
        '4'
    } else if n == 5 {
        '5'
    } else if n == 6 {
        '6'
    } else if n == 7 {
        '7'
    } else if n == 8 {
        '8'
    } else if n == 9 {
        '9'
    } else if n == 10 {
        'a'
    } else if n == 11 {
        'b'
    } else if n == 12 {
        'c'
    } else if n == 13 {
        'd'
    } else if n == 14 {
        'e'
    } else {
        'f'
    }
}

fn hex_digit(n: u32) -> (c: char)
    requires
        n < 16,
    ensures
        c == hex_char(n as int),
{
    if n == 0 {
        '0'
    } else if n == 1 {
        '1'
    } else if n == 2 {
        '2'
    } else if n == 3 {
        '3'
    } else if n == 4 {
        '4'
    } else if n == 5 {
        '5'
    } else if n == 6 {
        '6'
    } else if n == 7 {
        '7'
    } else if n == 8 {
        '8'
    } else if n == 9 {
        '9'
    } else if n == 10 {
        'a'
    } else if n == 11 {
        'b'
    } else if n == 12 {
        'c'
    } else if n == 13 {
        'd'
    } else if n == 14 {
        'e'
    } else {
        'f'
    }
}

/// How one character is written inside a JSON string literal.
pub open spec fn esc_char(c: char) -> Seq<char> {
    if c == '"' {
        seq!['\\', '"']
    } else if c == '\\' {
        seq!['\\', '\\']
    } else if c == '\n' {
        seq!['\\', 'n']
    } else if c == '\r' {
        seq!['\\', 'r']
    } else if c == '\t' {
        seq!['\\', 't']
    } else if (c as u32) < 0x20 {
        seq!['\\', 'u', '0', '0', hex_char((c as u32 / 16) as int), hex_char((c as u32 % 16) as int)]
    } else {
        seq![c]
    }
}

/// A string with every character escaped.
pub open spec fn esc_str(s: Seq<char>) -> Seq<char>
    decreases s.len(),
{
    if s.len() == 0 {
        Seq::empty()
    } else {
        esc_str(s.drop_last()) + esc_char(s.last())
    }
}

/// A JSON string literal: quoted and escaped.
pub open spec fn json_str(s: Seq<char>) -> Seq<char> {
    seq!['"'] + esc_str(s) + seq!['"']
}

/// Append the JSON string literal of `s` to `out`.
pub fn write_json_str(out: &mut String, s: &str)
    ensures
        final(out)@ == old(out)@ + json_str(s@),
{
    push_char(out, '"');
    let n = s.unicode_len();
    let mut i: usize = 0;
    while i < n
        invariant
            n == s@.len(),
            0 <= i <= n,
            out@ == old(out)@ + seq!['"'] + esc_str(s@.take(i as int)),
        decreases n - i,
    {
        let ghost pre = out@;
        let c = s.get_char(i);
        if c == '"' {
            out.append("\\\"");
            proof {
                reveal_strlit("\\\"");
                assert("\\\""@ =~= esc_char(c));
            }
        } else if c == '\\' {
            out.append("\\\\");
            proof {
                reveal_strlit("\\\\");
                assert("\\\\"@ =~= esc_char(c));
            }
        } else if c == '\n' {
            out.append("\\n");
            proof {
                reveal_strlit("\\n");
                assert("\\n"@ =~= esc_char(c));
            }
        } else if c == '\r' {
            out.append("\\r");
            proof {
                reveal_strlit("\\r");
                assert("\\r"@ =~= esc_char(c));
            }
        } else if c == '\t' {
            out.append("\\t");
            proof {
                reveal_strlit("\\t");
                assert("\\t"@ =~= esc_char(c));
            }
        } else if (c as u32) < 0x20 {
            push_char(out, '\\');
            push_char(out, 'u');
            push_char(out, '0');
            push_char(out, '0');
            push_char(out, hex_digit((c as u32) / 16));
            push_char(out, hex_digit((c as u32) % 16));
            proof {
                assert(out@ =~= pre + esc_char(c));
            }
        } else {
            push_char(out, c);
            proof {
                assert(out@ =~= pre + esc_char(c));
            }
        }
        proof {
            assert(s@.take(i as int + 1).drop_last() =~= s@.take(i as int));
            assert(s@.take(i as int + 1).last() == s@[i as int]);
            assert(out@ =~= old(out)@ + seq!['"'] + esc_str(s@.take(i as int + 1)));
        }
        i = i + 1;
    }
    push_char(out, '"');
    proof {
        assert(s@.take(n as int) =~= s@);
        assert(out@ =~= old(out)@ + json_str(s@));
    }
}

/// One `"name":"value"` member of a JSON object.
pub open spec fn json_field(k: Seq<char>, v: Seq<char>) -> Seq<char> {
    json_str(k) + seq![':'] + json_str(v)
}

/// Members joined with commas.
pub open spec fn join_fields(fields: Seq<(Seq<char>, Seq<char>)>) -> Seq<char>
    decreases fields.len(),
{
    if fields.len() == 0 {
        Seq::empty()
    } else if fields.len() == 1 {
        json_field(fields[0].0, fields[0].1)
    } else {
        join_fields(fields.drop_last()) + seq![','] + json_field(fields.last().0, fields.last().1)
    }
}

/// The JSON object with the given members, in order.
pub open spec fn json_object(fields: Seq<(Seq<char>, Seq<char>)>) -> Seq<char> {
    seq!['{'] + join_fields(fields) + seq!['}']
}

/// The engine's network-listing filter selecting one name.  The name is
/// interpolated verbatim, as the engine exchange has always formed it.
pub open spec fn spec_name_filter(id: Seq<char>) -> Seq<char> {
    "{\"name\":{\""@ + id + "\":true}}"@
}

pub fn name_filter(id: &str) -> (r: String)
    ensures
        r@ == spec_name_filter(id@),
{
    let mut r = String::from_str("{\"name\":{\"");
    r.append(id);
    r.append("\":true}}");
    r
}

/// The members of a registry credential object: one per field that is
/// present, in declaration order.
pub open spec fn auth_fields_of(
    username: Option<String>,
    password: Option<String>,
    email: Option<String>,
    serveraddress: Option<String>,
) -> Seq<(Seq<char>, Seq<char>)> {
    let f0 = Seq::<(Seq<char>, Seq<char>)>::empty();
    let f1 = match username {
        Some(u) => f0.push(("username"@, u@)),
        None => f0,
    };
    let f2 = match password {
        Some(p) => f1.push(("password"@, p@)),
        None => f1,
    };
    let f3 = match email {
        Some(e) => f2.push(("email"@, e@)),
        None => f2,
    };
    match serveraddress {
        Some(s) => f3.push(("serveraddress"@, s@)),
        None => f3,
    }
}

/// Write the JSON object of string-valued members.
pub fn write_json_object(fields: &Vec<(String, String)>) -> (r: String)
    ensures
        r@ == json_object(fields@.map_values(|p: (String, String)| (p.0@, p.1@))),
{
    let ghost fs = fields@.map_values(|p: (String, String)| (p.0@, p.1@));
    let mut out = String::new();
    push_char(&mut out, '{');
    let n = fields.len();
    let mut i: usize = 0;
    while i < n
        invariant
            n == fields@.len(),
            n == fs.len(),
            fs == fields@.map_values(|p: (String, String)| (p.0@, p.1@)),
            0 <= i <= n,
            out@ == seq!['{'] + join_fields(fs.take(i as int)),
        decreases n - i,
    {
        let ghost pre = out@;
        if i > 0 {
            push_char(&mut out, ',');
        }
        write_json_str(&mut out, fields[i].0.as_str());
        push_char(&mut out, ':');
        write_json_str(&mut out, fields[i].1.as_str());
        proof {
            assert(fs[i as int] == (fields@[i as int].0@, fields@[i as int].1@));
            assert(fs.take(i as int + 1).drop_last() =~= fs.take(i as int));
            assert(fs.take(i as int + 1).last() == fs[i as int]);
            if i == 0 {
                assert(out@ =~= seq!['{'] + join_fields(fs.take(1)));
            } else {
                assert(out@ =~= seq!['{'] + join_fields(fs.take(i as int + 1)));
            }
        }
        i = i + 1;
    }
    push_char(&mut out, '}');
    proof {
        assert(fs.take(n as int) =~= fs);
        assert(out@ =~= json_object(fs));
    }
    out
}

} // verus!
