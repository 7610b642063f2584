use vstd::prelude::*;
use crate::model::{Credential, CredentialSchemaLink};
use crate::tree::{ClaimProperty, ClaimPropertyValue};
use crate::url::URL;

verus! {

/// The UTF-8 bytes of a piece of fixed text.
pub open spec fn lit(s: &str) -> Seq<u8> {
    vstd::utf8::encode_utf8(s@)
}

/// A lower-case hexadecimal digit.
pub open spec fn hex_digit(d: u8) -> u8 {
    if d < 10 {
        (48 + d) as u8
    } else {
        (87 + d) as u8
    }
}

/// How one byte stands inside a JSON string: quote and backslash are
/// escaped, control bytes are written as `\u00XX`, all else is kept.
pub open spec fn escape_byte(x: u8) -> Seq<u8> {
    if x == 34 {
        seq![92u8, 34u8]
    } else if x == 92 {
        seq![92u8, 92u8]
    } else if x < 32 {
        seq![92u8, 117u8, 48u8, 48u8, hex_digit(x / 16), hex_digit(x % 16)]
    } else {
        seq![x]
    }
}

/// The bytes escaped one by one.
pub open spec fn escape_bytes(b: Seq<u8>) -> Seq<u8>
    decreases b.len(),
{
    if b.len() == 0 {
        seq![]
    } else {
        escape_bytes(b.drop_last()) + escape_byte(b.last())
    }
}

/// A JSON string literal holding `s`.
pub open spec fn json_string(s: Seq<char>) -> Seq<u8> {
    seq![34u8] + escape_bytes(vstd::utf8::encode_utf8(s)) + seq![34u8]
}

/// The decimal digits of a natural number.
pub open spec fn decimal_digits(n: nat) -> Seq<u8>
    decreases n,
{
    if n < 10 {
        seq![(48 + n) as u8]
    } else {
        decimal_digits(n / 10).push((48 + n % 10) as u8)
    }
}

/// A JSON number holding the integer `n`.
pub open spec fn json_int(n: int) -> Seq<u8> {
    if n < 0 {
        seq![45u8] + decimal_digits((-n) as nat)
    } else {
        decimal_digits(n as nat)
    }
}

/// The pieces written one after another with a comma between two of them.
pub open spec fn join(s: Seq<Seq<u8>>) -> Seq<u8>
    decreases s.len(),
{
    if s.len() == 0 {
        seq![]
    } else if s.len() == 1 {
        s[0]
    } else {
        join(s.drop_last()) + seq![44u8] + s.last()
    }
}

/// A JSON array of the identifiers' strings.
pub open spec fn url_array(s: Seq<URL>) -> Seq<u8> {
    seq![91u8] + join(s.map(|i: int, u: URL| json_string(u@))) + seq![93u8]
}

/// A schema reference as a JSON object.
pub open spec fn link_json(l: CredentialSchemaLink) -> Seq<u8> {
    lit("{\"id\":") + json_string(l.id@) + lit(",\"type_\":") + json_string(l.type_@) + lit("}")
}

/// A JSON array of schema references.
pub open spec fn link_array(s: Seq<CredentialSchemaLink>) -> Seq<u8> {
    seq![91u8] + join(s.map(|i: int, l: CredentialSchemaLink| link_json(l))) + seq![93u8]
}

/// A JSON array of `n` empty objects.
pub open spec fn empty_objects(n: nat) -> Seq<u8> {
    seq![91u8] + join(Seq::new(n, |i: int| lit("{}"))) + seq![93u8]
}

/// A claim leaf as a tagged JSON object.
pub open spec fn leaf_json(v: ClaimPropertyValue) -> Seq<u8> {
    match v {
        ClaimPropertyValue::Text(s) => lit("{\"Text\":") + json_string(s@) + lit("}"),
        ClaimPropertyValue::Number(n) => lit("{\"Number\":") + json_int(n as int) + lit("}"),
        ClaimPropertyValue::Boolean(b) => lit("{\"Boolean\":") + (if b {
            lit("true")
        } else {
            lit("false")
        }) + lit("}"),
    }
}

/// A claim tree as nested tagged JSON objects; map entries in their stored
/// order, which is the order of their keys in a well-formed tree.
pub open spec fn claim_json(c: ClaimProperty) -> Seq<u8>
    decreases c,
{
    match c {
        ClaimProperty::Value(v) => lit("{\"Value\":") + leaf_json(v) + lit("}"),
        ClaimProperty::Array(a) => lit("{\"Array\":[") + claim_items(a@) + lit("]}"),
        ClaimProperty::Object(m) => lit("{\"Map\":{") + claim_entries(m@) + lit("}}"),
    }
}

/// The elements of a claim array, comma-separated.
pub open spec fn claim_items(s: Seq<ClaimProperty>) -> Seq<u8>
    decreases s,
{
    if s.len() == 0 {
        seq![]
    } else if s.len() == 1 {
        claim_json(s[0])
    } else {
        claim_items(s.subrange(0, s.len() - 1)) + seq![44u8] + claim_json(s[s.len() - 1])
    }
}

/// The entries of a claim map, comma-separated.
pub open spec fn claim_entries(s: Seq<(String, ClaimProperty)>) -> Seq<u8>
    decreases s,
{
    if s.len() == 0 {
        seq![]
    } else if s.len() == 1 {
        json_string(s[0].0@) + seq![58u8] + claim_json(s[0].1)
    } else {
        claim_entries(s.subrange(0, s.len() - 1)) + seq![44u8] + json_string(s[s.len() - 1].0@)
            + seq![58u8] + claim_json(s[s.len() - 1].1)
    }
}

/// The canonical form of a credential: its JSON encoding with the keys of
/// every object in lexicographic order.
pub open spec fn credential_json(c: Credential) -> Seq<u8> {
    lit("{\"context\":") + url_array(c.context@) + lit(",\"credential_schema\":") + link_array(
        c.credential_schema@,
    ) + lit(",\"credential_status\":{},\"credential_subject\":{") + claim_entries(
        c.credential_subject@,
    ) + lit("},\"evidence\":") + empty_objects(c.evidence@.len()) + lit(",\"id\":") + json_string(
        c.id@,
    ) + lit(",\"issuer\":") + json_string(c.issuer@) + lit(",\"refresh_service\":")
        + empty_objects(c.refresh_service@.len()) + lit(",\"terms_of_use\":") + empty_objects(
        c.terms_of_use@.len(),
    ) + lit(",\"type_\":") + url_array(c.type_@) + lit(",\"valid_from\":") + json_int(
        c.valid_from as int,
    ) + lit(",\"valid_until\":") + json_int(c.valid_until as int) + lit("}")
}

fn push_str(out: &mut Vec<u8>, s: &str)
    ensures
        final(out)@ == old(out)@ + lit(s),
{
    let b = s.as_bytes();
    let mut i: usize = 0;
    while i < b.len()
        invariant
            i <= b@.len(),
            b@ == lit(s),
            out@ == old(out)@ + b@.take(i as int),
        decreases b.len() - i,
    {
        proof {
            assert(b@.take(i + 1) =~= b@.take(i as int).push(b@[i as int]));
        }
        out.push(b[i]);
        i = i + 1;
    }
    proof {
        assert(b@.take(i as int) =~= b@);
    }
}

fn push_hex_digit(out: &mut Vec<u8>, d: u8)
    requires
        d < 16,
    ensures
        final(out)@ == old(out)@.push(hex_digit(d)),
{
    if d < 10 {
        out.push(48 + d);
    } else {
        out.push(87 + d);
    }
}

fn push_escaped_byte(out: &mut Vec<u8>, x: u8)
    ensures
        final(out)@ == old(out)@ + escape_byte(x),
{
    if x == 34 {
        out.push(92);
        out.push(34);
    } else if x == 92 {
        out.push(92);
        out.push(92);
    } else if x < 32 {
        out.push(92);
        out.push(117);
        out.push(48);
        out.push(48);
        push_hex_digit(out, x / 16);
        push_hex_digit(out, x % 16);
    } else {
        out.push(x);
    }
    proof {
        assert(final(out)@ =~= old(out)@ + escape_byte(x));
    }
}

fn push_json_string(out: &mut Vec<u8>, s: &str)
    ensures
        final(out)@ == old(out)@ + json_string(s@),
{
    let b = s.as_bytes();
    out.push(34);
    let ghost start = out@;
    let mut i: usize = 0;
    while i < b.len()
        invariant
            i <= b@.len(),
            b@ == vstd::utf8::encode_utf8(s@),
            start == old(out)@.push(34u8),
            out@ == start + escape_bytes(b@.take(i as int)),
        decreases b.len() - i,
    {
        proof {
            assert(b@.take(i + 1).drop_last() =~= b@.take(i as int));
        }
        push_escaped_byte(out, b[i]);
        i = i + 1;
        proof {
            assert(out@ =~= start + escape_bytes(b@.take(i as int)));
        }
    }
    proof {
        assert(b@.take(i as int) =~= b@);
    }
    out.push(34);
    proof {
        assert(out@ =~= old(out)@ + json_string(s@));
    }
}

/// A byte string backwards.
spec fn reversed(s: Seq<u8>) -> Seq<u8> {
    Seq::new(s.len(), |i: int| s[s.len() - 1 - i])
}

fn push_decimal(out: &mut Vec<u8>, n: u64)
    ensures
        final(out)@ == old(out)@ + decimal_digits(n as nat),
{
    let mut rev: Vec<u8> = Vec::new();
    let mut v: u64 = n;
    while v >= 10
        invariant
            decimal_digits(n as nat) == decimal_digits(v as nat) + reversed(rev@),
        decreases v,
    {
        let d: u8 = (v % 10) as u8;
        proof {
            assert(reversed(rev@.push(d)) =~= seq![d] + reversed(rev@));
            assert(decimal_digits(v as nat) == decimal_digits((v / 10) as nat).push((48 + v % 10) as u8));
        }
        rev.push(48 + d);
        proof {
            assert(reversed(rev@) =~= seq![(48 + d) as u8] + reversed(rev@.drop_last()));
            assert(decimal_digits(v as nat) + reversed(rev@.drop_last()) =~= decimal_digits((v / 10) as nat) + reversed(rev@));
        }
        v = v / 10;
    }
    proof {
        assert(reversed(rev@.push((48 + v) as u8)) =~= seq![(48 + v) as u8] + reversed(rev@));
    }
    rev.push(48 + v as u8);
    proof {
        assert(decimal_digits(n as nat) =~= reversed(rev@));
    }
    let ghost start = out@;
    let mut k: usize = rev.len();
    while k > 0
        invariant
            k <= rev@.len(),
            out@ == start + reversed(rev@).take(rev@.len() - k),
        decreases k,
    {
        proof {
            assert(reversed(rev@).take(rev@.len() - k + 1) =~= reversed(rev@).take(rev@.len() - k).push(rev@[k - 1]));
        }
        k = k - 1;
        out.push(rev[k]);
    }
    proof {
        assert(reversed(rev@).take(rev@.len() as int) =~= reversed(rev@));
    }
}

fn push_int(out: &mut Vec<u8>, n: i64)
    ensures
        final(out)@ == old(out)@ + json_int(n as int),
{
    if n < 0 {
        out.push(45);
        let m: u64 = (0 - (n as i128)) as u64;
        push_decimal(out, m);
        proof {
            assert(final(out)@ =~= old(out)@ + json_int(n as int));
        }
    } else {
        push_decimal(out, n as u64);
    }
}

fn push_url_array(out: &mut Vec<u8>, s: &Vec<URL>)
    ensures
        final(out)@ == old(out)@ + url_array(s@),
{
    let ghost items = s@.map(|i: int, u: URL| json_string(u@));
    out.push(91);
    let ghost start = out@;
    let mut i: usize = 0;
    while i < s.len()
        invariant
            i <= s@.len(),
            items == s@.map(|i: int, u: URL| json_string(u@)),
            start == old(out)@.push(91u8),
            out@ == start + join(items.take(i as int)),
        decreases s.len() - i,
    {
        proof {
            assert(items.take(i + 1).drop_last() =~= items.take(i as int));
        }
        if i > 0 {
            out.push(44);
        }
        push_json_string(out, s[i].get_str());
        i = i + 1;
        proof {
            assert(out@ =~= start + join(items.take(i as int)));
        }
    }
    proof {
        assert(items.take(i as int) =~= items);
    }
    out.push(93);
    proof {
        assert(out@ =~= old(out)@ + url_array(s@));
    }
}

fn push_link(out: &mut Vec<u8>, l: &CredentialSchemaLink)
    ensures
        final(out)@ == old(out)@ + link_json(*l),
{
    push_str(out, "{\"id\":");
    push_json_string(out, l.id.get_str());
    push_str(out, ",\"type_\":");
    push_json_string(out, l.type_.as_str());
    push_str(out, "}");
    proof {
        assert(final(out)@ =~= old(out)@ + link_json(*l));
    }
}

fn push_link_array(out: &mut Vec<u8>, s: &Vec<CredentialSchemaLink>)
    ensures
        final(out)@ == old(out)@ + link_array(s@),
{
    let ghost items = s@.map(|i: int, l: CredentialSchemaLink| link_json(l));
    out.push(91);
    let ghost start = out@;
    let mut i: usize = 0;
    while i < s.len()
        invariant
            i <= s@.len(),
            items == s@.map(|i: int, l: CredentialSchemaLink| link_json(l)),
            start == old(out)@.push(91u8),
            out@ == start + join(items.take(i as int)),
        decreases s.len() - i,
    {
        proof {
            assert(items.take(i + 1).drop_last() =~= items.take(i as int));
        }
        if i > 0 {
            out.push(44);
        }
        push_link(out, &s[i]);
        i = i + 1;
        proof {
            assert(out@ =~= start + join(items.take(i as int)));
        }
    }
    proof {
        assert(items.take(i as int) =~= items);
    }
    out.push(93);
    proof {
        assert(out@ =~= old(out)@ + link_array(s@));
    }
}

fn push_empty_objects(out: &mut Vec<u8>, n: usize)
    ensures
        final(out)@ == old(out)@ + empty_objects(n as nat),
{
    let ghost items = Seq::new(n as nat, |i: int| lit("{}"));
    out.push(91);
    let ghost start = out@;
    let mut i: usize = 0;
    while i < n
        invariant
            i <= n,
            items == Seq::new(n as nat, |i: int| lit("{}")),
            start == old(out)@.push(91u8),
            out@ == start + join(items.take(i as int)),
        decreases n - i,
    {
        proof {
            assert(items.take(i + 1).drop_last() =~= items.take(i as int));
        }
        if i > 0 {
            out.push(44);
        }
        push_str(out, "{}");
        i = i + 1;
        proof {
            assert(out@ =~= start + join(items.take(i as int)));
        }
    }
    proof {
        assert(items.take(i as int) =~= items);
    }
    out.push(93);
    proof {
        assert(out@ =~= old(out)@ + empty_objects(n as nat));
    }
}

fn push_leaf(out: &mut Vec<u8>, v: &ClaimPropertyValue)
    ensures
        final(out)@ == old(out)@ + leaf_json(*v),
{
    match v {
        ClaimPropertyValue::Text(s) => {
            push_str(out, "{\"Text\":");
            push_json_string(out, s.as_str());
        },
        ClaimPropertyValue::Number(n) => {
            push_str(out, "{\"Number\":");
            push_int(out, *n as i64);
        },
        ClaimPropertyValue::Boolean(b) => {
            push_str(out, "{\"Boolean\":");
            if *b {
                push_str(out, "true");
            } else {
                push_str(out, "false");
            }
        },
    }
    push_str(out, "}");
    proof {
        assert(final(out)@ =~= old(out)@ + leaf_json(*v));
    }
}

fn push_claim(out: &mut Vec<u8>, c: &ClaimProperty)
    ensures
        final(out)@ == old(out)@ + claim_json(*c),
    decreases c, 1nat,
{
    match c {
        ClaimProperty::Value(v) => {
            push_str(out, "{\"Value\":");
            push_leaf(out, v);
            push_str(out, "}");
        },
        ClaimProperty::Array(a) => {
            push_str(out, "{\"Array\":[");
            let ghost start = out@;
            let mut i: usize = 0;
            while i < a.len()
                invariant
                    i <= a@.len(),
                    *c == ClaimProperty::Array(*a),
                    out@ == start + claim_items(a@.take(i as int)),
                decreases a.len() - i,
            {
                proof {
                    assert(c->Array_0 == *a);
                    assert(decreases_to!(*c => c->Array_0));
                    assert(decreases_to!(*a => a[i as int]));
                    assert(a@.take(i + 1).subrange(0, i as int) =~= a@.take(i as int));
                }
                if i > 0 {
                    out.push(44);
                }
                push_claim(out, &a[i]);
                i = i + 1;
                proof {
                    assert(out@ =~= start + claim_items(a@.take(i as int)));
                }
            }
            proof {
                assert(a@.take(i as int) =~= a@);
            }
            push_str(out, "]}");
        },
        ClaimProperty::Object(m) => {
            push_str(out, "{\"Map\":{");
            push_claim_entries(out, m, c);
            push_str(out, "}}");
        },
    }
    proof {
        assert(final(out)@ =~= old(out)@ + claim_json(*c));
    }
}

/// Writes the entries of the map node `parent`.
fn push_claim_entries(out: &mut Vec<u8>, m: &Vec<(String, ClaimProperty)>, parent: &ClaimProperty)
    requires
        *parent == ClaimProperty::Object(*m),
    ensures
        final(out)@ == old(out)@ + claim_entries(m@),
    decreases parent, 0nat,
{
    let ghost start = out@;
    let mut i: usize = 0;
    while i < m.len()
        invariant
            i <= m@.len(),
            *parent == ClaimProperty::Object(*m),
            start == old(out)@,
            out@ == start + claim_entries(m@.take(i as int)),
        decreases m.len() - i,
    {
        proof {
            assert(parent->Object_0 == *m);
            assert(decreases_to!(*parent => parent->Object_0));
            assert(decreases_to!(*m => m[i as int]));
            assert(m@.take(i + 1).subrange(0, i as int) =~= m@.take(i as int));
        }
        if i > 0 {
            out.push(44);
        }
        push_json_string(out, m[i].0.as_str());
        out.push(58);
        push_claim(out, &m[i].1);
        i = i + 1;
        proof {
            assert(out@ =~= start + claim_entries(m@.take(i as int)));
        }
    }
    proof {
        assert(m@.take(i as int) =~= m@);
    }
}

/// Writes the entries of a credential's subject map.
fn push_subject_entries(out: &mut Vec<u8>, m: &Vec<(String, ClaimProperty)>)
    ensures
        final(out)@ == old(out)@ + claim_entries(m@),
{
    let ghost start = out@;
    let mut i: usize = 0;
    while i < m.len()
        invariant
            i <= m@.len(),
            start == old(out)@,
            out@ == start + claim_entries(m@.take(i as int)),
        decreases m.len() - i,
    {
        proof {
            assert(m@.take(i + 1).subrange(0, i as int) =~= m@.take(i as int));
        }
        if i > 0 {
            out.push(44);
        }
        push_json_string(out, m[i].0.as_str());
        out.push(58);
        push_claim(out, &m[i].1);
        i = i + 1;
        proof {
            assert(out@ =~= start + claim_entries(m@.take(i as int)));
        }
    }
    proof {
        assert(m@.take(i as int) =~= m@);
    }
}

/// The canonical bytes of a credential, which its proofs sign.
pub fn credential_bytes(c: &Credential) -> (r: Vec<u8>)
    ensures
        r@ == credential_json(*c),
{
    let mut out: Vec<u8> = Vec::new();
    push_str(&mut out, "{\"context\":");
    push_url_array(&mut out, &c.context);
    push_str(&mut out, ",\"credential_schema\":");
    push_link_array(&mut out, &c.credential_schema);
    push_str(&mut out, ",\"credential_status\":{},\"credential_subject\":{");
    push_subject_entries(&mut out, &c.credential_subject);
    push_str(&mut out, "},\"evidence\":");
    push_empty_objects(&mut out, c.evidence.len());
    push_str(&mut out, ",\"id\":");
    push_json_string(&mut out, c.id.get_str());
    push_str(&mut out, ",\"issuer\":");
    push_json_string(&mut out, c.issuer.get_str());
    push_str(&mut out, ",\"refresh_service\":");
    push_empty_objects(&mut out, c.refresh_service.len());
    push_str(&mut out, ",\"terms_of_use\":");
    push_empty_objects(&mut out, c.terms_of_use.len());
    push_str(&mut out, ",\"type_\":");
    push_url_array(&mut out, &c.type_);
    push_str(&mut out, ",\"valid_from\":");
    push_int(&mut out, c.valid_from);
    push_str(&mut out, ",\"valid_until\":");
    push_int(&mut out, c.valid_until);
    push_str(&mut out, "}");
    proof {
        assert(out@ =~= credential_json(*c));
    }
    out
}

} // verus!
