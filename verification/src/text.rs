//! Wire text for outgoing messages: a JSON writer whose output is defined
//! character by character by spec functions and proved to match them. The
//! library therefore owns the whole outbound path from a typed message to
//! the bytes on the bus; inbound text is parsed at the boundary and handed
//! in as a structured value.

use vstd::prelude::*;
use vstd::string::*;
use crate::json::{JNum, JVal, JsonValue};

verus! {

broadcast use vstd::std_specs::vec::group_vec_axioms;

/// The character for one decimal digit; anything out of range writes `0`.
pub open spec fn spec_digit(d: int) -> char {
    if d == 0 {
        '0'
    } else if d == 1 {
        '1'
    } else if d == 2 {
        '2'
    } else if d == 3 {
        '3'
    } else if d == 4 {
        '4'
    } else if d == 5 {
        '5'
    } else if d == 6 {
        '6'
    } else if d == 7 {
        '7'
    } else if d == 8 {
        '8'
    } else if d == 9 {
        '9'
    } else {
        '0'
    }
}

/// The character for one hexadecimal digit; anything out of range writes
/// `0`.
pub open spec fn spec_hex_digit(d: int) -> char {
    if d < 10 {
        spec_digit(d)
    } else if d == 10 {
        'a'
    } else if d == 11 {
        'b'
    } else if d == 12 {
        'c'
    } else if d == 13 {
        'd'
    } else if d == 14 {
        'e'
    } else if d == 15 {
        'f'
    } else {
        '0'
    }
}

/// Decimal digits of a non-negative integer, most significant first.
pub open spec fn spec_dec_digits(n: int) -> Seq<char>
    decreases n,
{
    if n < 10 {
        seq![spec_digit(n)]
    } else {
        spec_dec_digits(n / 10).push(spec_digit(n % 10))
    }
}

/// How one character appears inside a JSON string: itself, a short escape,
/// or a `\u00XX` escape for the remaining control characters.
pub open spec fn spec_escape_char(c: char) -> Seq<char> {
    if c == '"' {
        seq!['\\', '"']
    } else if c == '\\' {
        seq!['\\', '\\']
    } else if c == '\n' {
        seq!['\\', 'n']
    } else if c == '\r' {
        seq!['\\', 'r']
    } else if c == '\t' {
        seq!['\\', 't']
    } else if (c as int) < 32 {
        seq!['\\', 'u', '0', '0', spec_hex_digit(c as int / 16), spec_hex_digit(c as int % 16)]
    } else {
        seq![c]
    }
}

/// A string's characters as they appear between the quotes.
pub open spec fn spec_escape(s: Seq<char>) -> Seq<char>
    decreases s.len(),
{
    if s.len() == 0 {
        Seq::empty()
    } else {
        spec_escape_char(s[0]) + spec_escape(s.skip(1))
    }
}

/// The text of a JSON number in decimal form.
pub open spec fn spec_num_text(n: JNum) -> Seq<char> {
    (if n.neg {
        seq!['-']
    } else {
        Seq::<char>::empty()
    }) + spec_dec_digits(n.int_part as int) + (if n.frac.len() == 0 {
        Seq::<char>::empty()
    } else {
        seq!['.'] + Seq::new(n.frac.len(), |i: int| spec_digit(n.frac[i] as int))
    })
}

/// The wire text of a JSON document.
pub open spec fn spec_json_text(v: JVal) -> Seq<char>
    decreases v, 0int,
{
    match v {
        JVal::Null => "null"@,
        JVal::Bool(b) => if b {
            "true"@
        } else {
            "false"@
        },
        JVal::Num(n) => spec_num_text(n),
        JVal::Str(s) => seq!['"'] + spec_escape(s) + seq!['"'],
        JVal::Arr(items) => seq!['['] + spec_items_text(items, 0) + seq![']'],
        JVal::Obj(entries) => seq!['{'] + spec_entries_text(entries, 0) + seq!['}'],
    }
}

/// The comma-separated texts of an array's items from position `i` on.
pub open spec fn spec_items_text(items: Seq<JVal>, i: int) -> Seq<char>
    decreases items, items.len() - i, 1int,
{
    if i < 0 || i >= items.len() {
        Seq::empty()
    } else {
        (if i > 0 {
            seq![',']
        } else {
            Seq::<char>::empty()
        }) + spec_json_text(items[i]) + spec_items_text(items, i + 1)
    }
}

/// The comma-separated `"key": value` texts of an object's entries from
/// position `i` on.
pub open spec fn spec_entries_text(entries: Seq<(Seq<char>, JVal)>, i: int) -> Seq<char>
    decreases entries, entries.len() - i, 1int,
{
    if i < 0 || i >= entries.len() {
        Seq::empty()
    } else {
        (if i > 0 {
            seq![',']
        } else {
            Seq::<char>::empty()
        }) + seq!['"'] + spec_escape(entries[i].0) + seq!['"', ':'] + spec_json_text(entries[i].1)
            + spec_entries_text(entries, i + 1)
    }
}

/// The decimal-digit character, as the spec writes it.
fn digit_char(d: u64) -> (r: char)
    ensures
        r == spec_digit(d as int),
{
    if d == 0 {
        '0'
    } else if d == 1 {
        '1'
    } else if d == 2 {
        '2'
    } else if d == 3 {
        '3'
    } else if d == 4 {
        '4'
    } else if d == 5 {
        '5'
    } else if d == 6 {
        '6'
    } else if d == 7 {
        '7'
    } else if d == 8 {
        '8'
    } else if d == 9 {
        '9'
    } else {
        '0'
    }
}

/// The hexadecimal-digit character, as the spec writes it.
fn hex_digit_char(d: u32) -> (r: char)
    ensures
        r == spec_hex_digit(d as int),
{
    if d < 10 {
        digit_char(d as u64)
    } else if d == 10 {
        'a'
    } else if d == 11 {
        'b'
    } else if d == 12 {
        'c'
    } else if d == 13 {
        'd'
    } else if d == 14 {
        'e'
    } else if d == 15 {
        'f'
    } else {
        '0'
    }
}

/// Write the decimal digits of `n`, most significant first.
fn write_dec(out: &mut Vec<char>, n: u64)
    ensures
        final(out)@ == old(out)@ + spec_dec_digits(n as int),
    decreases n,
{
    if n >= 10 {
        write_dec(out, n / 10);
    }
    out.push(digit_char(n % 10));
    proof {
        assert(final(out)@ =~= old(out)@ + spec_dec_digits(n as int));
    }
}

/// Appending one character extends the escaped text by that character's
/// escape.
proof fn lemma_escape_snoc(s: Seq<char>, c: char)
    ensures
        spec_escape(s.push(c)) == spec_escape(s) + spec_escape_char(c),
    decreases s.len(),
{
    reveal_with_fuel(spec_escape, 3);
    if s.len() == 0 {
        assert(s.push(c).skip(1) =~= Seq::<char>::empty());
        assert(s.push(c)[0] == c);
        assert(spec_escape(s.push(c)) =~= spec_escape(s) + spec_escape_char(c));
    } else {
        lemma_escape_snoc(s.skip(1), c);
        assert(s.push(c).skip(1) =~= s.skip(1).push(c));
        assert(s.push(c)[0] == s[0]);
        assert(spec_escape(s.push(c)) == spec_escape_char(s[0]) + spec_escape(s.skip(1).push(c)));
        assert(spec_escape(s.skip(1).push(c)) == spec_escape(s.skip(1)) + spec_escape_char(c));
        assert(spec_escape(s) == spec_escape_char(s[0]) + spec_escape(s.skip(1)));
        assert(spec_escape(s.push(c)) =~= spec_escape(s) + spec_escape_char(c));
    }
}

/// Write one character as it appears inside a JSON string.
fn write_escaped_char(out: &mut Vec<char>, c: char)
    ensures
        final(out)@ == old(out)@ + spec_escape_char(c),
{
    if c == '"' {
        out.push('\\');
        out.push('"');
    } else if c == '\\' {
        out.push('\\');
        out.push('\\');
    } else if c == '\n' {
        out.push('\\');
        out.push('n');
    } else if c == '\r' {
        out.push('\\');
        out.push('r');
    } else if c == '\t' {
        out.push('\\');
        out.push('t');
    } else if (c as u32) < 32 {
        out.push('\\');
        out.push('u');
        out.push('0');
        out.push('0');
        out.push(hex_digit_char((c as u32) / 16));
        out.push(hex_digit_char((c as u32) % 16));
    } else {
        out.push(c);
    }
    proof {
        assert(final(out)@ =~= old(out)@ + spec_escape_char(c));
    }
}

/// Write a string's characters, escaped, without the quotes.
#[verifier::loop_isolation(false)]
fn write_escaped(out: &mut Vec<char>, s: &str)
    ensures
        final(out)@ == old(out)@ + spec_escape(s@),
{
    let n = s.unicode_len();
    let mut i: usize = 0;
    while i < n
        invariant
            n == s@.len(),
            i <= n,
            out@ == old(out)@ + spec_escape(s@.subrange(0, i as int)),
        decreases n - i,
    {
        let c = s.get_char(i);
        proof {
            lemma_escape_snoc(s@.subrange(0, i as int), c);
            assert(s@.subrange(0, i as int).push(c) =~= s@.subrange(0, i as int + 1));
        }
        write_escaped_char(out, c);
        i = i + 1;
    }
    proof {
        assert(s@.subrange(0, n as int) =~= s@);
    }
}

/// Write the text of a JSON number.
fn write_num(out: &mut Vec<char>, n: &crate::json::JsonNumber)
    ensures
        final(out)@ == old(out)@ + spec_num_text(n@),
    decreases n,
{
    if n.neg {
        out.push('-');
    }
    write_dec(out, n.int_part);
    if n.frac.len() > 0 {
        out.push('.');
        let ghost base = out@;
        let mut i: usize = 0;
        while i < n.frac.len()
            invariant
                base == out@.subrange(0, base.len() as int),
                out@.len() == base.len() + i,
                i <= n.frac@.len(),
                out@ == base + Seq::new(
                    i as nat,
                    |j: int| spec_digit(n.frac@[j] as int),
                ),
            decreases n.frac@.len() - i,
        {
            out.push(digit_char(n.frac[i] as u64));
            proof {
                assert(out@ =~= base + Seq::new(
                    (i + 1) as nat,
                    |j: int| spec_digit(n.frac@[j] as int),
                ));
            }
            i = i + 1;
        }
        proof {
            assert(Seq::new(n.frac@.len(), |j: int| spec_digit(n.frac@[j] as int)) =~= Seq::new(
                i as nat,
                |j: int| spec_digit(n.frac@[j] as int),
            ));
            assert(final(out)@ =~= old(out)@ + spec_num_text(n@));
        }
    } else {
        proof {
            assert(final(out)@ =~= old(out)@ + spec_num_text(n@));
        }
    }
}

/// Write the wire text of a JSON document onto `out`.
#[verifier::loop_isolation(false)]
pub fn write_json(out: &mut Vec<char>, v: &JsonValue)
    ensures
        final(out)@ == old(out)@ + spec_json_text(v@),
    decreases v, 0int,
{
    match v {
        JsonValue::Null => {
            out.push('n');
            out.push('u');
            out.push('l');
            out.push('l');
            proof {
                reveal_strlit("null");
                assert(final(out)@ =~= old(out)@ + "null"@);
            }
        },
        JsonValue::Bool(b) => {
            if *b {
                out.push('t');
                out.push('r');
                out.push('u');
                out.push('e');
                proof {
                    reveal_strlit("true");
                    assert(final(out)@ =~= old(out)@ + "true"@);
                }
            } else {
                out.push('f');
                out.push('a');
                out.push('l');
                out.push('s');
                out.push('e');
                proof {
                    reveal_strlit("false");
                    assert(final(out)@ =~= old(out)@ + "false"@);
                }
            }
        },
        JsonValue::Num(n) => {
            write_num(out, n);
        },
        JsonValue::Str(s) => {
            out.push('"');
            write_escaped(out, s.as_str());
            out.push('"');
            proof {
                assert(final(out)@ =~= old(out)@ + spec_json_text(v@));
            }
        },
        JsonValue::Arr(items) => {
            out.push('[');
            write_items(out, items, 0);
            out.push(']');
            proof {
                assert(v_items(items) =~= v@->Arr_0);
                assert(final(out)@ =~= old(out)@ + spec_json_text(v@));
            }
        },
        JsonValue::Obj(entries) => {
            out.push('{');
            write_entries(out, entries, 0);
            out.push('}');
            proof {
                assert(v_entries(entries) =~= v@->Obj_0);
                assert(final(out)@ =~= old(out)@ + spec_json_text(v@));
            }
        },
    }
}

/// Write the comma-separated texts of an array's items from position `i`.
fn write_items(out: &mut Vec<char>, items: &Vec<JsonValue>, i: usize)
    requires
        i <= items@.len(),
    ensures
        final(out)@ == old(out)@ + spec_items_text(
            v_items(items),
            i as int,
        ),
    decreases items, items@.len() - i, 1int,
{
    if i < items.len() {
        if i > 0 {
            out.push(',');
        }
        proof {
            assert(decreases_to!(*items => items[i as int]));
        }
        write_json(out, &items[i]);
        write_items(out, items, i + 1);
        proof {
            assert(v_items(items)[i as int] == items@[i as int]@);
            assert(final(out)@ =~= old(out)@ + spec_items_text(v_items(items), i as int));
        }
    } else {
        proof {
            assert(final(out)@ =~= old(out)@ + spec_items_text(v_items(items), i as int));
        }
    }
}

/// The items of an array value, viewed.
pub open spec fn v_items(items: &Vec<JsonValue>) -> Seq<JVal> {
    Seq::new(items@.len(), |j: int| items@[j]@)
}

/// The entries of an object value, viewed.
pub open spec fn v_entries(entries: &Vec<(String, JsonValue)>) -> Seq<(Seq<char>, JVal)> {
    Seq::new(entries@.len(), |j: int| (entries@[j].0@, entries@[j].1@))
}

/// Write the comma-separated `"key": value` texts of an object's entries
/// from position `i`.
fn write_entries(out: &mut Vec<char>, entries: &Vec<(String, JsonValue)>, i: usize)
    requires
        i <= entries@.len(),
    ensures
        final(out)@ == old(out)@ + spec_entries_text(v_entries(entries), i as int),
    decreases entries, entries@.len() - i, 1int,
{
    if i < entries.len() {
        if i > 0 {
            out.push(',');
        }
        out.push('"');
        write_escaped(out, entries[i].0.as_str());
        out.push('"');
        out.push(':');
        proof {
            assert(decreases_to!(*entries => entries[i as int]));
            assert(decreases_to!(entries[i as int] => entries[i as int].1));
        }
        write_json(out, &entries[i].1);
        write_entries(out, entries, i + 1);
        proof {
            assert(v_entries(entries)[i as int] == (entries@[i as int].0@, entries@[i as int].1@));
            assert(final(out)@ =~= old(out)@ + spec_entries_text(v_entries(entries), i as int));
        }
    } else {
        proof {
            assert(final(out)@ =~= old(out)@ + spec_entries_text(v_entries(entries), i as int));
        }
    }
}

/// Relies on `String::from_iter` over characters: the collected string is
/// the characters in order.
#[verifier::external_body]
fn string_of_chars(chars: Vec<char>) -> (r: String)
    ensures
        r@ == chars@,
{
    chars.into_iter().collect()
}

impl JsonValue {
    /// The wire text of this value, exactly as [`spec_json_text`] defines
    /// it.
    pub fn to_text(&self) -> (r: String)
        ensures
            r@ == spec_json_text(self@),
    {
        let mut out: Vec<char> = Vec::new();
        write_json(&mut out, self);
        proof {
            assert(out@ =~= spec_json_text(self@));
        }
        string_of_chars(out)
    }
}

} // verus!
