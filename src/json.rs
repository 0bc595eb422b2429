//! JSON text: the shape of objects and arrays, string quoting, and numbers.
use vstd::prelude::*;
use vstd::string::StringExecFns;

verus! {

/// The JSON string literal that denotes the text `s`, quotes and escapes included.
pub uninterp spec fn json_quoted(s: Seq<char>) -> Seq<char>;

/// Relies on serde_json::to_string on a `&str`: it writes the quoted, escaped
/// string literal, which depends on the characters alone. Serialising a `str`
/// to an in-memory buffer never fails.
#[verifier::external_body]
pub(crate) fn quote(s: &str) -> (r: String)
    ensures
        r@ == json_quoted(s@),
{
    serde_json::to_string(s).unwrap_or_default()
}

/// One member of a JSON object: a key and the JSON text of its value.
pub type EntryText = (Seq<char>, Seq<char>);

/// The text of one member: the quoted key, a colon, the value.
pub open spec fn member_text(e: EntryText) -> Seq<char> {
    json_quoted(e.0) + seq![':'] + e.1
}

/// The members of an object, separated by commas.
pub open spec fn members_text(es: Seq<EntryText>) -> Seq<char>
    decreases es.len(),
{
    if es.len() == 0 {
        seq![]
    } else if es.len() == 1 {
        member_text(es[0])
    } else {
        members_text(es.drop_last()) + seq![','] + member_text(es.last())
    }
}

/// A JSON object with the given members, in order.
pub open spec fn object_text(es: Seq<EntryText>) -> Seq<char> {
    seq!['{'] + members_text(es) + seq!['}']
}

/// The elements of an array, separated by commas.
pub open spec fn elements_text(xs: Seq<Seq<char>>) -> Seq<char>
    decreases xs.len(),
{
    if xs.len() == 0 {
        seq![]
    } else if xs.len() == 1 {
        xs[0]
    } else {
        elements_text(xs.drop_last()) + seq![','] + xs.last()
    }
}

/// A JSON array with the given element texts, in order.
pub open spec fn array_text(xs: Seq<Seq<char>>) -> Seq<char> {
    seq!['['] + elements_text(xs) + seq![']']
}

/// The keys of a list of members.
pub open spec fn keys_of(es: Seq<EntryText>) -> Seq<Seq<char>> {
    es.map_values(|e: EntryText| e.0)
}

/// The abstract value of a list of owned members.
pub open spec fn entries_view(v: Seq<(String, String)>) -> Seq<EntryText> {
    v.map_values(|p: (String, String)| (p.0@, p.1@))
}

/// The abstract value of a list of owned texts.
pub open spec fn texts_view(v: Seq<String>) -> Seq<Seq<char>> {
    v.map_values(|s: String| s@)
}

/// The decimal digit for `d < 10`.
pub open spec fn digit_char(d: nat) -> char {
    if d == 0 { '0' }
    else if d == 1 { '1' }
    else if d == 2 { '2' }
    else if d == 3 { '3' }
    else if d == 4 { '4' }
    else if d == 5 { '5' }
    else if d == 6 { '6' }
    else if d == 7 { '7' }
    else if d == 8 { '8' }
    else { '9' }
}

/// The decimal digits of `n`, without leading zeros.
pub open spec fn decimal(n: nat) -> Seq<char>
    decreases n,
{
    if n < 10 {
        seq![digit_char(n)]
    } else {
        decimal(n / 10) + seq![digit_char(n % 10)]
    }
}

/// The JSON text of an integer.
pub open spec fn integer_text(n: int) -> Seq<char> {
    if n < 0 {
        seq!['-'] + decimal((-n) as nat)
    } else {
        decimal(n as nat)
    }
}

fn digit_str(d: u64) -> (r: &'static str)
    requires
        d < 10,
    ensures
        r@ == seq![digit_char(d as nat)],
{
    proof {
        reveal_strlit("0");
        reveal_strlit("1");
        reveal_strlit("2");
        reveal_strlit("3");
        reveal_strlit("4");
        reveal_strlit("5");
        reveal_strlit("6");
        reveal_strlit("7");
        reveal_strlit("8");
        reveal_strlit("9");
    }
    if d == 0 { "0" }
    else if d == 1 { "1" }
    else if d == 2 { "2" }
    else if d == 3 { "3" }
    else if d == 4 { "4" }
    else if d == 5 { "5" }
    else if d == 6 { "6" }
    else if d == 7 { "7" }
    else if d == 8 { "8" }
    else { "9" }
}

/// Appends the decimal digits of `n` to `out`.
pub fn write_decimal(n: u64, out: &mut String)
    ensures
        final(out)@ == old(out)@ + decimal(n as nat),
    decreases n,
{
    if n >= 10 {
        write_decimal(n / 10, out);
        out.append(digit_str(n % 10));
        assert(final(out)@ == old(out)@ + decimal(n as nat));
    } else {
        out.append(digit_str(n));
    }
}

/// Appends the JSON text of a signed integer to `out`.
pub fn write_integer(n: i64, out: &mut String)
    ensures
        final(out)@ == old(out)@ + integer_text(n as int),
{
    if n < 0 {
        proof {
            reveal_strlit("-");
        }
        out.append("-");
        let m: u64 = (-(n as i128)) as u64;
        write_decimal(m, out);
    } else {
        write_decimal(n as u64, out);
    }
}

/// Appends the members `es` to `out`, as an object's body.
pub fn write_members(es: &Vec<(String, String)>, out: &mut String)
    ensures
        final(out)@ == old(out)@ + members_text(entries_view(es@)),
{
    let n = es.len();
    let mut i: usize = 0;
    proof {
        assert(entries_view(es@).take(0) =~= Seq::<EntryText>::empty());
    }
    while i < n
        invariant
            n == es@.len(),
            i <= n,
            out@ == old(out)@ + members_text(entries_view(es@).take(i as int)),
        decreases n - i,
    {
        let ghost before = out@;
        let ghost es_v = entries_view(es@);
        proof {
            reveal_strlit(":");
            reveal_strlit(",");
            assert(es_v[i as int] == (es@[i as int].0@, es@[i as int].1@));
        }
        if i > 0 {
            out.append(",");
        }
        let k = quote(es[i].0.as_str());
        out.append(k.as_str());
        out.append(":");
        out.append(es[i].1.as_str());
        proof {
            let t = es_v.take(i as int + 1);
            assert(t.drop_last() =~= es_v.take(i as int));
            assert(t.last() == es_v[i as int]);
            if i == 0 {
                assert(es_v.take(0) =~= Seq::<EntryText>::empty());
                assert(out@ =~= before + member_text(es_v[0]));
            } else {
                assert(out@ =~= before + seq![','] + member_text(es_v[i as int]));
            }
        }
        i = i + 1;
    }
    proof {
        assert(entries_view(es@).take(n as int) =~= entries_view(es@));
    }
}

/// Appends the elements `xs` to `out`, as an array's body.
pub fn write_elements(xs: &Vec<String>, out: &mut String)
    ensures
        final(out)@ == old(out)@ + elements_text(texts_view(xs@)),
{
    let n = xs.len();
    let mut i: usize = 0;
    proof {
        assert(texts_view(xs@).take(0) =~= Seq::<Seq<char>>::empty());
    }
    while i < n
        invariant
            n == xs@.len(),
            i <= n,
            out@ == old(out)@ + elements_text(texts_view(xs@).take(i as int)),
        decreases n - i,
    {
        let ghost before = out@;
        let ghost xs_v = texts_view(xs@);
        proof {
            reveal_strlit(",");
            assert(xs_v[i as int] == xs@[i as int]@);
        }
        if i > 0 {
            out.append(",");
        }
        out.append(xs[i].as_str());
        proof {
            let t = xs_v.take(i as int + 1);
            assert(t.drop_last() =~= xs_v.take(i as int));
            assert(t.last() == xs_v[i as int]);
            if i == 0 {
                assert(xs_v.take(0) =~= Seq::<Seq<char>>::empty());
                assert(out@ =~= before + xs_v[0]);
            } else {
                assert(out@ =~= before + seq![','] + xs_v[i as int]);
            }
        }
        i = i + 1;
    }
    proof {
        assert(texts_view(xs@).take(n as int) =~= texts_view(xs@));
    }
}

/// The JSON object with the members `es`.
pub fn object(es: &Vec<(String, String)>) -> (r: String)
    ensures
        r@ == object_text(entries_view(es@)),
{
    proof {
        reveal_strlit("{");
        reveal_strlit("}");
    }
    let mut out = String::new();
    out.append("{");
    write_members(es, &mut out);
    out.append("}");
    proof {
        assert(out@ =~= object_text(entries_view(es@)));
    }
    out
}

/// The JSON array with the element texts `xs`.
pub fn array(xs: &Vec<String>) -> (r: String)
    ensures
        r@ == array_text(texts_view(xs@)),
{
    proof {
        reveal_strlit("[");
        reveal_strlit("]");
    }
    let mut out = String::new();
    out.append("[");
    write_elements(xs, &mut out);
    out.append("]");
    proof {
        assert(out@ =~= array_text(texts_view(xs@)));
    }
    out
}

} // verus!
