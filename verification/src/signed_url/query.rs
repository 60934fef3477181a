//! The query string of a capability URL: fields separated by `&`, each a key
//! and a value separated by the first `=`, both percent-encoded.

use vstd::prelude::*;
use crate::text::{
    chars_eq, copy_range, find_from, first_index, lacks, lemma_first_index,
    lemma_first_index_of_joint, lemma_first_index_where_lacking, lemma_lacks_both,
};

verus! {

/// The number that the hexadecimal digit `c` stands for.
pub open spec fn hex_value(c: char) -> Option<int> {
    if '0' <= c && c <= '9' {
        Some((c as u32) as int - 48)
    } else if 'a' <= c && c <= 'f' {
        Some((c as u32) as int - 87)
    } else if 'A' <= c && c <= 'F' {
        Some((c as u32) as int - 55)
    } else {
        None
    }
}

/// The ASCII character that `s` begins with in escaped form: `%`, then two
/// hexadecimal digits that give a code below 128. `None` where `s` begins
/// otherwise.
pub open spec fn leading_escape(s: Seq<char>) -> Option<char> {
    if s.len() >= 3 && s[0] == '%' {
        match (hex_value(s[1]), hex_value(s[2])) {
            (Some(h), Some(l)) => if h < 8 {
                Some(((16 * h + l) as u8) as char)
            } else {
                None
            },
            _ => None,
        }
    } else {
        None
    }
}

/// `s` with every `+` read as a space and every escape of an ASCII
/// character read as that character. Any other `%` stands for itself.
pub open spec fn percent_decode(s: Seq<char>) -> Seq<char>
    decreases s.len(),
{
    if s.len() == 0 {
        s
    } else if s[0] == '+' {
        seq![' '] + percent_decode(s.skip(1))
    } else {
        match leading_escape(s) {
            Some(c) => seq![c] + percent_decode(s.skip(3)),
            None => seq![s[0]] + percent_decode(s.skip(1)),
        }
    }
}

/// Whether `s` is free of `+` and `%`, so that decoding leaves it as it is.
pub open spec fn is_plain(s: Seq<char>) -> bool {
    lacks(s, '+') && lacks(s, '%')
}

/// Text without `+` and `%` decodes to itself.
pub proof fn lemma_decode_plain(s: Seq<char>)
    requires
        is_plain(s),
    ensures
        percent_decode(s) == s,
    decreases s.len(),
{
    if s.len() > 0 {
        let rest = s.skip(1);
        assert forall|i: int| 0 <= i < rest.len() implies rest[i] != '+' && rest[i] != '%' by {}
        lemma_decode_plain(rest);
    }
}

/// The key of the field `f`: what stands before its first `=`, decoded.
pub open spec fn field_key(f: Seq<char>) -> Seq<char> {
    percent_decode(f.take(first_index(f, '=')))
}

/// The value of the field `f`: what stands after its first `=`, decoded;
/// empty where the field has no `=`.
pub open spec fn field_value(f: Seq<char>) -> Seq<char> {
    let k = first_index(f, '=');
    if k < f.len() {
        percent_decode(f.skip(k + 1))
    } else {
        Seq::empty()
    }
}

/// What the field `f` gives for `key`: its value where its key is `key`.
pub open spec fn field_binding(f: Seq<char>, key: Seq<char>) -> Option<Seq<char>> {
    if field_key(f) == key {
        Some(field_value(f))
    } else {
        None
    }
}

/// The value that the query `q` gives to `key`: that of the last field
/// whose key is `key`. `None` where no field has that key.
pub open spec fn query_value(q: Seq<char>, key: Seq<char>) -> Option<Seq<char>>
    decreases q.len(),
{
    let k = first_index(q, '&');
    let here = field_binding(q.take(k), key);
    if k >= q.len() {
        here
    } else {
        proof {
            lemma_first_index(q, '&');
        }
        match query_value(q.skip(k + 1), key) {
            Some(v) => Some(v),
            None => here,
        }
    }
}

/// The number that the hexadecimal digit `c` stands for.
pub fn hex_digit(c: char) -> (r: Option<u8>)
    ensures
        match hex_value(c) {
            Some(v) => r == Some(v as u8) && 0 <= v < 16,
            None => r is None,
        },
{
    if c >= '0' && c <= '9' {
        Some(((c as u32) - 48) as u8)
    } else if c >= 'a' && c <= 'f' {
        Some(((c as u32) - 87) as u8)
    } else if c >= 'A' && c <= 'F' {
        Some(((c as u32) - 55) as u8)
    } else {
        None
    }
}

/// Decodes `v`.
pub fn decode(v: &Vec<char>) -> (r: Vec<char>)
    ensures
        r@ == percent_decode(v@),
{
    let mut out: Vec<char> = Vec::new();
    let mut i: usize = 0;
    proof {
        assert(v@.skip(0) =~= v@);
    }
    while i < v.len()
        invariant
            i <= v.len(),
            percent_decode(v@) == out@ + percent_decode(v@.skip(i as int)),
        decreases v.len() - i,
    {
        let ghost rest = v@.skip(i as int);
        let c = v[i];
        let mut step: usize = 1;
        let mut produced: char = c;
        if c == '+' {
            produced = ' ';
        } else if c == '%' && v.len() - i >= 3 {
            match (hex_digit(v[i + 1]), hex_digit(v[i + 2])) {
                (Some(h), Some(l)) => {
                    if h < 8 {
                        produced = (16 * h + l) as char;
                        step = 3;
                    }
                },
                _ => {},
            }
        }
        out.push(produced);
        proof {
            assert(rest.skip(step as int) =~= v@.skip(i + step));
            assert(percent_decode(rest) == seq![produced] + percent_decode(
                rest.skip(step as int),
            ));
        }
        i = i + step;
    }
    out
}

/// The value that `q` gives to `key`.
pub fn value_of(q: &Vec<char>, key: &Vec<char>) -> (r: Option<Vec<char>>)
    ensures
        match query_value(q@, key@) {
            Some(v) => r matches Some(x) && x@ == v,
            None => r is None,
        },
{
    let mut found: Option<Vec<char>> = None;
    let mut pos: usize = 0;
    let mut done = false;
    proof {
        assert(q@.skip(0) =~= q@);
    }
    while !done
        invariant
            pos <= q.len(),
            !done ==> query_value(q@, key@) == (match query_value(q@.skip(pos as int), key@) {
                Some(v) => Some(v),
                None => match found {
                    Some(x) => Some(x@),
                    None => None,
                },
            }),
            done ==> query_value(q@, key@) == (match found {
                Some(x) => Some(x@),
                None => None::<Seq<char>>,
            }),
        decreases q.len() - pos + (if done { 0int } else { 1int }),
    {
        let ghost rest = q@.skip(pos as int);
        let end = find_from(q, pos, '&');
        let field = copy_range(q, pos, end);
        proof {
            lemma_first_index(rest, '&');
            assert(field@ =~= rest.take(end - pos));
        }
        let eq = find_from(&field, 0, '=');
        proof {
            assert(field@.skip(0) =~= field@);
        }
        let name = decode(&copy_range(&field, 0, eq));
        if chars_eq(&name, key) {
            if eq < field.len() {
                let raw = copy_range(&field, eq + 1, field.len());
                found = Some(decode(&raw));
            } else {
                found = Some(Vec::new());
            }
        }
        if end >= q.len() {
            done = true;
        } else {
            proof {
                assert(rest.skip(end - pos + 1) =~= q@.skip(end + 1));
            }
            pos = end + 1;
        }
    }
    found
}

/// The field that gives `value` to `key`.
pub open spec fn field(key: Seq<char>, value: Seq<char>) -> Seq<char> {
    key + seq!['='] + value
}

/// Whether `s` can stand in a query as it is: it has no `&`, `+` or `%`.
pub open spec fn is_query_safe(s: Seq<char>) -> bool {
    lacks(s, '&') && is_plain(s)
}

/// A field made of a key and a value that can stand as they are gives its
/// value to its key and nothing to any other.
pub proof fn lemma_field_binding(key: Seq<char>, value: Seq<char>, wanted: Seq<char>)
    requires
        is_query_safe(key),
        lacks(key, '='),
        is_query_safe(value),
    ensures
        lacks(field(key, value), '&'),
        field_binding(field(key, value), wanted) == if key == wanted {
            Some(value)
        } else {
            None
        },
{
    let f = field(key, value);
    lemma_first_index_of_joint(key, '=', value);
    lemma_decode_plain(key);
    lemma_decode_plain(value);
    lemma_lacks_both(key, seq!['='], '&');
    lemma_lacks_both(key + seq!['='], value, '&');
}

/// A query of one field gives what that field gives.
pub proof fn lemma_query_of_one(f: Seq<char>, wanted: Seq<char>)
    requires
        lacks(f, '&'),
    ensures
        query_value(f, wanted) == field_binding(f, wanted),
{
    lemma_first_index_where_lacking(f, '&');
    assert(f.take(f.len() as int) =~= f);
}

/// A query gives what its later fields give and, where they give nothing,
/// what its first field gives.
pub proof fn lemma_query_of_more(f: Seq<char>, rest: Seq<char>, wanted: Seq<char>)
    requires
        lacks(f, '&'),
    ensures
        query_value(f + seq!['&'] + rest, wanted) == match query_value(rest, wanted) {
            Some(v) => Some(v),
            None => field_binding(f, wanted),
        },
{
    lemma_first_index_of_joint(f, '&', rest);
}

/// A query of three fields with different keys gives each key its value.
pub proof fn lemma_query_of_three(
    k1: Seq<char>,
    v1: Seq<char>,
    k2: Seq<char>,
    v2: Seq<char>,
    k3: Seq<char>,
    v3: Seq<char>,
)
    requires
        is_query_safe(k1) && lacks(k1, '=') && is_query_safe(v1),
        is_query_safe(k2) && lacks(k2, '=') && is_query_safe(v2),
        is_query_safe(k3) && lacks(k3, '=') && is_query_safe(v3),
        k1 != k2 && k1 != k3 && k2 != k3,
    ensures
        ({
            let q = field(k1, v1) + seq!['&'] + field(k2, v2) + seq!['&'] + field(k3, v3);
            &&& query_value(q, k1) == Some(v1)
            &&& query_value(q, k2) == Some(v2)
            &&& query_value(q, k3) == Some(v3)
        }),
{
    let f1 = field(k1, v1);
    let f2 = field(k2, v2);
    let f3 = field(k3, v3);
    let tail = f2 + seq!['&'] + f3;
    let q = f1 + seq!['&'] + f2 + seq!['&'] + f3;
    assert(q =~= f1 + seq!['&'] + tail);
    lemma_field_binding(k1, v1, k1);
    lemma_field_binding(k1, v1, k2);
    lemma_field_binding(k1, v1, k3);
    lemma_field_binding(k2, v2, k1);
    lemma_field_binding(k2, v2, k2);
    lemma_field_binding(k2, v2, k3);
    lemma_field_binding(k3, v3, k1);
    lemma_field_binding(k3, v3, k2);
    lemma_field_binding(k3, v3, k3);
    lemma_query_of_one(f3, k1);
    lemma_query_of_one(f3, k2);
    lemma_query_of_one(f3, k3);
    lemma_query_of_more(f2, f3, k1);
    lemma_query_of_more(f2, f3, k2);
    lemma_query_of_more(f2, f3, k3);
    lemma_query_of_more(f1, tail, k1);
    lemma_query_of_more(f1, tail, k2);
    lemma_query_of_more(f1, tail, k3);
}

} // verus!
