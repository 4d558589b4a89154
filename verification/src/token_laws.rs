//! What the encoding of the diagnostic token guarantees: its alphabet, and
//! that no two captures share a token.

use vstd::prelude::*;
use vstd::seq_lib::lemma_concat_associative;
use vstd::utf8::{encode_utf8, encode_utf8_decode_utf8};
use crate::context::{well_formed, ContextView};
use crate::token::{
    additional_info,
    all_url_safe,
    argument_width,
    base64_text,
    be_bytes,
    cbor_head,
    cbor_text,
    cbor_unsigned,
    is_url_safe,
    number_entry,
    record_bytes,
    sextet_char,
    text_entry,
    token_at,
    token_text,
};

verus! {

/// The alphabet maps the six-bit values one to one.
pub proof fn lemma_sextet_char_injective(u: int, v: int)
    requires
        0 <= u < 64,
        0 <= v < 64,
        sextet_char(u) == sextet_char(v),
    ensures
        u == v,
{
}

/// Every character of the alphabet is URL-safe.
pub proof fn lemma_sextet_char_is_url_safe(v: int)
    requires
        0 <= v < 64,
    ensures
        is_url_safe(sextet_char(v)),
{
}

/// Base64 text holds URL-safe characters only.
pub proof fn lemma_base64_is_url_safe(bytes: Seq<u8>)
    ensures
        all_url_safe(base64_text(bytes)),
    decreases bytes.len(),
{
    let text = base64_text(bytes);
    if bytes.len() == 0 {
    } else {
        let a = bytes[0] as int;
        lemma_sextet_char_is_url_safe(a / 4);
        if bytes.len() == 1 {
            lemma_sextet_char_is_url_safe((a % 4) * 16);
        } else {
            let b = bytes[1] as int;
            lemma_sextet_char_is_url_safe((a % 4) * 16 + b / 16);
            if bytes.len() == 2 {
                lemma_sextet_char_is_url_safe((b % 16) * 4);
            } else {
                let c = bytes[2] as int;
                lemma_sextet_char_is_url_safe((b % 16) * 4 + c / 64);
                lemma_sextet_char_is_url_safe(c % 64);
                let rest = base64_text(bytes.subrange(3, bytes.len() as int));
                lemma_base64_is_url_safe(bytes.subrange(3, bytes.len() as int));
                assert forall|i: int| 0 <= i < text.len() implies is_url_safe(#[trigger] text[i]) by {
                    if i >= 4 {
                        assert(text[i] == rest[i - 4]);
                    }
                }
            }
        }
    }
}

/// Base64 loses nothing: bytes with the same text are the same bytes.
pub proof fn lemma_base64_injective(x: Seq<u8>, y: Seq<u8>)
    requires
        base64_text(x) == base64_text(y),
    ensures
        x == y,
    decreases x.len(),
{
    let tx = base64_text(x);
    let ty = base64_text(y);
    if x.len() == 0 || y.len() == 0 {
        assert(x.len() == 0 ==> tx.len() == 0);
        assert(y.len() == 0 ==> ty.len() == 0);
        assert(x.len() > 0 ==> tx.len() >= 2);
        assert(y.len() > 0 ==> ty.len() >= 2);
        assert(x =~= y);
    } else {
        let a = x[0] as int;
        let p = y[0] as int;
        assert(tx[0] == sextet_char(a / 4));
        assert(ty[0] == sextet_char(p / 4));
        lemma_sextet_char_injective(a / 4, p / 4);
        assert(x.len() == 1 ==> tx.len() == 2);
        assert(x.len() == 2 ==> tx.len() == 3);
        assert(x.len() >= 3 ==> tx.len() >= 4);
        assert(y.len() == 1 ==> ty.len() == 2);
        assert(y.len() == 2 ==> ty.len() == 3);
        assert(y.len() >= 3 ==> ty.len() >= 4);
        if x.len() == 1 {
            assert(tx[1] == sextet_char((a % 4) * 16));
            assert(ty[1] == sextet_char((p % 4) * 16));
            lemma_sextet_char_injective((a % 4) * 16, (p % 4) * 16);
            assert(x =~= y);
        } else {
            let b = x[1] as int;
            let q = y[1] as int;
            assert(tx[1] == sextet_char((a % 4) * 16 + b / 16));
            assert(ty[1] == sextet_char((p % 4) * 16 + q / 16));
            lemma_sextet_char_injective((a % 4) * 16 + b / 16, (p % 4) * 16 + q / 16);
            if x.len() == 2 {
                assert(tx[2] == sextet_char((b % 16) * 4));
                assert(ty[2] == sextet_char((q % 16) * 4));
                lemma_sextet_char_injective((b % 16) * 4, (q % 16) * 4);
                assert(x =~= y);
            } else {
                let c = x[2] as int;
                let r = y[2] as int;
                let xr = x.subrange(3, x.len() as int);
                let yr = y.subrange(3, y.len() as int);
                assert(tx[2] == sextet_char((b % 16) * 4 + c / 64));
                assert(ty[2] == sextet_char((q % 16) * 4 + r / 64));
                lemma_sextet_char_injective((b % 16) * 4 + c / 64, (q % 16) * 4 + r / 64);
                assert(tx[3] == sextet_char(c % 64));
                assert(ty[3] == sextet_char(r % 64));
                lemma_sextet_char_injective(c % 64, r % 64);
                assert(base64_text(xr) =~= tx.subrange(4, tx.len() as int));
                assert(base64_text(yr) =~= ty.subrange(4, ty.len() as int));
                lemma_base64_injective(xr, yr);
                assert forall|i: int| 0 <= i < x.len() implies x[i] == y[i] by {
                    if i >= 3 {
                        assert(x[i] == xr[i - 3]);
                        assert(y[i] == yr[i - 3]);
                    }
                }
                assert(x =~= y);
            }
        }
    }
}

/// The least number that `width` bytes cannot hold.
pub open spec fn radix_limit(width: nat) -> nat
    decreases width,
{
    if width == 0 {
        1
    } else {
        256 * radix_limit((width - 1) as nat)
    }
}

/// Numbers that fit the width have different bytes.
pub proof fn lemma_be_bytes_injective(m: nat, n: nat, width: nat)
    requires
        m < radix_limit(width),
        n < radix_limit(width),
        be_bytes(m, width) == be_bytes(n, width),
    ensures
        m == n,
    decreases width,
{
    if width > 0 {
        let w = (width - 1) as nat;
        let bm = be_bytes(m, width);
        let bn = be_bytes(n, width);
        assert(bm.last() == (m % 256) as u8);
        assert(bn.last() == (n % 256) as u8);
        assert(be_bytes(m / 256, w) =~= bm.drop_last());
        assert(be_bytes(n / 256, w) =~= bn.drop_last());
        lemma_be_bytes_injective(m / 256, n / 256, w);
    }
}

/// The bytes of a number are as many as the width.
pub proof fn lemma_be_bytes_len(n: nat, width: nat)
    ensures
        be_bytes(n, width).len() == width,
    decreases width,
{
    if width > 0 {
        lemma_be_bytes_len(n / 256, (width - 1) as nat);
    }
}

/// A head says where it ends: of two byte strings that are equal and begin
/// with heads of one major type, the heads have the same argument and what
/// follows them is the same.
pub proof fn lemma_cbor_head_delimits(
    major: nat,
    m: nat,
    n: nat,
    after_m: Seq<u8>,
    after_n: Seq<u8>,
)
    requires
        major < 8,
        m <= u64::MAX,
        n <= u64::MAX,
        cbor_head(major, m) + after_m == cbor_head(major, n) + after_n,
    ensures
        m == n,
        after_m == after_n,
{
    let hm = cbor_head(major, m);
    let hn = cbor_head(major, n);
    let sm = hm + after_m;
    let sn = hn + after_n;
    let w = argument_width(m);
    lemma_be_bytes_len(m, argument_width(m));
    lemma_be_bytes_len(n, argument_width(n));
    assert(sm[0] == hm[0]);
    assert(sn[0] == hn[0]);
    assert(additional_info(m) == additional_info(n));
    assert(argument_width(n) == w);
    assert(be_bytes(m, w) =~= sm.subrange(1, 1 + w as int));
    assert(be_bytes(n, w) =~= sn.subrange(1, 1 + w as int));
    reveal_with_fuel(radix_limit, 9);
    if w > 0 {
        lemma_be_bytes_injective(m, n, w);
    }
    assert(after_m =~= sm.subrange(1 + w as int, sm.len() as int));
    assert(after_n =~= sn.subrange(1 + w as int, sn.len() as int));
}

/// A number says where it ends.
pub proof fn lemma_cbor_unsigned_delimits(m: u16, n: u16, after_m: Seq<u8>, after_n: Seq<u8>)
    requires
        cbor_unsigned(m) + after_m == cbor_unsigned(n) + after_n,
    ensures
        m == n,
        after_m == after_n,
{
    lemma_cbor_head_delimits(0, m as nat, n as nat, after_m, after_n);
}

/// The text is one that a program can hold: its UTF-8 form is no longer than
/// a 64-bit length can say.
pub open spec fn holdable(text: Seq<char>) -> bool {
    encode_utf8(text).len() <= u64::MAX
}

/// A text says where it ends.
pub proof fn lemma_cbor_text_delimits(a: Seq<char>, b: Seq<char>, after_a: Seq<u8>, after_b: Seq<u8>)
    requires
        holdable(a),
        holdable(b),
        cbor_text(a) + after_a == cbor_text(b) + after_b,
    ensures
        a == b,
        after_a == after_b,
{
    let ua = encode_utf8(a);
    let ub = encode_utf8(b);
    assert(cbor_text(a) + after_a =~= cbor_head(3, ua.len()) + (ua + after_a));
    assert(cbor_text(b) + after_b =~= cbor_head(3, ub.len()) + (ub + after_b));
    lemma_cbor_head_delimits(3, ua.len(), ub.len(), ua + after_a, ub + after_b);
    assert(ua =~= (ua + after_a).subrange(0, ua.len() as int));
    assert(ub =~= (ub + after_b).subrange(0, ub.len() as int));
    assert(after_a =~= (ua + after_a).subrange(ua.len() as int, (ua + after_a).len() as int));
    assert(after_b =~= (ub + after_b).subrange(ub.len() as int, (ub + after_b).len() as int));
    encode_utf8_decode_utf8(a);
    encode_utf8_decode_utf8(b);
}

/// A map entry with a number says where it ends. The keys are the same.
pub proof fn lemma_number_entry_delimits(key: Seq<char>, m: u16, n: u16, after_m: Seq<u8>, after_n: Seq<u8>)
    requires
        number_entry(key, m) + after_m == number_entry(key, n) + after_n,
    ensures
        m == n,
        after_m == after_n,
{
    let k = cbor_text(key);
    let sm = cbor_unsigned(m) + after_m;
    let sn = cbor_unsigned(n) + after_n;
    assert(number_entry(key, m) + after_m =~= k + sm);
    assert(number_entry(key, n) + after_n =~= k + sn);
    assert(sm =~= (k + sm).subrange(k.len() as int, (k + sm).len() as int));
    assert(sn =~= (k + sn).subrange(k.len() as int, (k + sn).len() as int));
    lemma_cbor_unsigned_delimits(m, n, after_m, after_n);
}

/// A map entry with a text says where it ends. The keys are the same.
pub proof fn lemma_text_entry_delimits(
    key: Seq<char>,
    a: Seq<char>,
    b: Seq<char>,
    after_a: Seq<u8>,
    after_b: Seq<u8>,
)
    requires
        holdable(a),
        holdable(b),
        text_entry(key, a) + after_a == text_entry(key, b) + after_b,
    ensures
        a == b,
        after_a == after_b,
{
    let k = cbor_text(key);
    let sa = cbor_text(a) + after_a;
    let sb = cbor_text(b) + after_b;
    assert(text_entry(key, a) + after_a =~= k + sa);
    assert(text_entry(key, b) + after_b =~= k + sb);
    assert(sa =~= (k + sa).subrange(k.len() as int, (k + sa).len() as int));
    assert(sb =~= (k + sb).subrange(k.len() as int, (k + sb).len() as int));
    lemma_cbor_text_delimits(a, b, after_a, after_b);
}

/// The texts of a record are ones that a program can hold.
pub open spec fn record_holdable(c: ContextView, captured_at: Seq<char>) -> bool {
    &&& holdable(c.original_uri)
    &&& holdable(c.namespace)
    &&& holdable(c.ingress_name)
    &&& holdable(c.service_name)
    &&& holdable(c.request_id)
    &&& holdable(c.method)
    &&& holdable(captured_at)
}

/// Two contexts agree on all that a record holds of them.
pub open spec fn same_record_fields(c: ContextView, d: ContextView) -> bool {
    &&& c.status_code == d.status_code
    &&& c.original_uri == d.original_uri
    &&& c.namespace == d.namespace
    &&& c.ingress_name == d.ingress_name
    &&& c.service_name == d.service_name
    &&& c.service_port == d.service_port
    &&& c.request_id == d.request_id
    &&& c.method == d.method
}

/// The record with its entries grouped from the right: what stands from the
/// last entry on, from the last but one, and so on down to the first.
spec fn record_tail_8(c: ContextView) -> Seq<u8> {
    text_entry("m"@, c.method) + Seq::<u8>::empty()
}

spec fn record_tail_7(c: ContextView, t: Seq<char>) -> Seq<u8> {
    text_entry("t"@, t) + record_tail_8(c)
}

spec fn record_tail_6(c: ContextView, t: Seq<char>) -> Seq<u8> {
    text_entry("d"@, c.request_id) + record_tail_7(c, t)
}

spec fn record_tail_5(c: ContextView, t: Seq<char>) -> Seq<u8> {
    number_entry("p"@, c.service_port) + record_tail_6(c, t)
}

spec fn record_tail_4(c: ContextView, t: Seq<char>) -> Seq<u8> {
    text_entry("s"@, c.service_name) + record_tail_5(c, t)
}

spec fn record_tail_3(c: ContextView, t: Seq<char>) -> Seq<u8> {
    text_entry("i"@, c.ingress_name) + record_tail_4(c, t)
}

spec fn record_tail_2(c: ContextView, t: Seq<char>) -> Seq<u8> {
    text_entry("n"@, c.namespace) + record_tail_3(c, t)
}

spec fn record_tail_1(c: ContextView, t: Seq<char>) -> Seq<u8> {
    text_entry("o"@, c.original_uri) + record_tail_2(c, t)
}

spec fn record_tail_0(c: ContextView, t: Seq<char>) -> Seq<u8> {
    number_entry("c"@, c.status_code) + record_tail_1(c, t)
}

proof fn lemma_record_regrouped(c: ContextView, t: Seq<char>)
    ensures
        record_bytes(c, t) == seq![0xa9u8] + record_tail_0(c, t),
{
    let e0 = number_entry("c"@, c.status_code);
    let e1 = text_entry("o"@, c.original_uri);
    let e2 = text_entry("n"@, c.namespace);
    let e3 = text_entry("i"@, c.ingress_name);
    let e4 = text_entry("s"@, c.service_name);
    let e5 = number_entry("p"@, c.service_port);
    let e6 = text_entry("d"@, c.request_id);
    let e7 = text_entry("t"@, t);
    let e8 = text_entry("m"@, c.method);
    let lead = seq![0xa9u8];
    let upto0 = lead + e0;
    let upto1 = upto0 + e1;
    let upto2 = upto1 + e2;
    let upto3 = upto2 + e3;
    let upto4 = upto3 + e4;
    let upto5 = upto4 + e5;
    let upto6 = upto5 + e6;
    let upto7 = upto6 + e7;
    assert(record_bytes(c, t) == upto7 + e8);
    assert(e8 + Seq::<u8>::empty() =~= e8);
    assert(upto7 + e8 == upto7 + record_tail_8(c));
    lemma_concat_associative(upto6, e7, record_tail_8(c));
    lemma_concat_associative(upto5, e6, record_tail_7(c, t));
    lemma_concat_associative(upto4, e5, record_tail_6(c, t));
    lemma_concat_associative(upto3, e4, record_tail_5(c, t));
    lemma_concat_associative(upto2, e3, record_tail_4(c, t));
    lemma_concat_associative(upto1, e2, record_tail_3(c, t));
    lemma_concat_associative(upto0, e1, record_tail_2(c, t));
    lemma_concat_associative(lead, e0, record_tail_1(c, t));
}

/// A record loses nothing: two captures with the same record agree on every
/// field that a record holds, and on the instant.
pub proof fn lemma_record_injective(c: ContextView, s: Seq<char>, d: ContextView, t: Seq<char>)
    requires
        record_holdable(c, s),
        record_holdable(d, t),
        record_bytes(c, s) == record_bytes(d, t),
    ensures
        same_record_fields(c, d),
        s == t,
{
    lemma_record_regrouped(c, s);
    lemma_record_regrouped(d, t);
    let lead = seq![0xa9u8];
    let rc = lead + record_tail_0(c, s);
    let rd = lead + record_tail_0(d, t);
    assert(record_tail_0(c, s) =~= rc.subrange(1, rc.len() as int));
    assert(record_tail_0(d, t) =~= rd.subrange(1, rd.len() as int));
    lemma_number_entry_delimits(
        "c"@,
        c.status_code,
        d.status_code,
        record_tail_1(c, s),
        record_tail_1(d, t),
    );
    lemma_text_entry_delimits(
        "o"@,
        c.original_uri,
        d.original_uri,
        record_tail_2(c, s),
        record_tail_2(d, t),
    );
    lemma_text_entry_delimits(
        "n"@,
        c.namespace,
        d.namespace,
        record_tail_3(c, s),
        record_tail_3(d, t),
    );
    lemma_text_entry_delimits(
        "i"@,
        c.ingress_name,
        d.ingress_name,
        record_tail_4(c, s),
        record_tail_4(d, t),
    );
    lemma_text_entry_delimits(
        "s"@,
        c.service_name,
        d.service_name,
        record_tail_5(c, s),
        record_tail_5(d, t),
    );
    lemma_number_entry_delimits(
        "p"@,
        c.service_port,
        d.service_port,
        record_tail_6(c, s),
        record_tail_6(d, t),
    );
    lemma_text_entry_delimits(
        "d"@,
        c.request_id,
        d.request_id,
        record_tail_7(c, s),
        record_tail_7(d, t),
    );
    lemma_text_entry_delimits("t"@, s, t, record_tail_8(c), record_tail_8(d));
    lemma_text_entry_delimits("m"@, c.method, d.method, Seq::empty(), Seq::empty());
}

/// Tokens tell captures apart: two captures with the same token agree on
/// every field that the token is made of, and on the instant.
pub proof fn lemma_token_injective(c: ContextView, s: Seq<char>, d: ContextView, t: Seq<char>)
    requires
        record_holdable(c, s),
        record_holdable(d, t),
        token_text(c, s) == token_text(d, t),
    ensures
        same_record_fields(c, d),
        s == t,
{
    lemma_base64_injective(record_bytes(c, s), record_bytes(d, t));
    lemma_record_injective(c, s, d, t);
}

/// Two well-formed contexts with the same token are the same context.
pub proof fn lemma_token_identifies_context(c: ContextView, s: Seq<char>, d: ContextView, t: Seq<char>)
    requires
        well_formed(c),
        well_formed(d),
        record_holdable(c, s),
        record_holdable(d, t),
        token_text(c, s) == token_text(d, t),
    ensures
        c == d,
        s == t,
{
    lemma_token_injective(c, s, d, t);
}

/// One context captured at two instants whose texts differ has two tokens.
pub proof fn lemma_instants_give_distinct_tokens(c: ContextView, s: Seq<char>, t: Seq<char>)
    requires
        record_holdable(c, s),
        record_holdable(c, t),
        s != t,
    ensures
        token_text(c, s) != token_text(c, t),
{
    if token_text(c, s) == token_text(c, t) {
        lemma_token_injective(c, s, c, t);
    }
}

/// The token of a context and a rendered instant is never empty: an empty
/// token always says that none could be made.
pub proof fn lemma_token_is_not_empty(c: ContextView, captured_at: Seq<char>)
    ensures
        token_text(c, captured_at).len() > 0,
{
    lemma_record_regrouped(c, captured_at);
    let record = record_bytes(c, captured_at);
    assert(record.len() > 0);
    assert(base64_text(record).len() >= 2);
}

/// Captures are told apart: one context captured at two instants whose
/// texts differ, or of which only one has a text, has two tokens.
pub proof fn lemma_captures_are_told_apart(
    c: ContextView,
    s: Option<Seq<char>>,
    t: Option<Seq<char>>,
)
    requires
        s != t,
        s matches Some(text) ==> record_holdable(c, text),
        t matches Some(text) ==> record_holdable(c, text),
    ensures
        token_at(c, s) != token_at(c, t),
{
    if s is Some {
        lemma_token_is_not_empty(c, s->0);
    }
    if t is Some {
        lemma_token_is_not_empty(c, t->0);
    }
    if s is Some && t is Some {
        lemma_instants_give_distinct_tokens(c, s->0, t->0);
    }
}

/// A token holds URL-safe characters only.
pub proof fn lemma_token_is_url_safe(c: ContextView, captured_at: Seq<char>)
    ensures
        all_url_safe(token_text(c, captured_at)),
{
    lemma_base64_is_url_safe(record_bytes(c, captured_at));
}

} // verus!
