//! Building blocks of the signed query: ordering of parameter names,
//! the stable sort by name, lowercase hexadecimal digests, and the two
//! outside computations the signature rests on (form encoding and MD5).

use serde_urlencoded::ser::Error as UrlEncodeError;
use vstd::prelude::*;
use vstd::utf8::encode_utf8;
use crate::text::hex_digit_upper;

verus! {

/// A request parameter as plain text: its name and its value.
pub type ParamView = (Seq<char>, Seq<char>);

/// The text of each parameter of `s`.
pub open spec fn param_views(s: Seq<(String, String)>) -> Seq<ParamView> {
    s.map_values(|p: (String, String)| (p.0@, p.1@))
}

/// Lexicographic comparison of `a` and `b` from position `i` on: `a` is not
/// greater than `b` when they agree up to the end of `a`, or when the first
/// character where they differ is smaller in `a`.
pub open spec fn chars_le_from(a: Seq<char>, b: Seq<char>, i: nat) -> bool
    decreases a.len() - i,
{
    if i >= a.len() {
        true
    } else if i >= b.len() {
        false
    } else if a[i as int] != b[i as int] {
        a[i as int] < b[i as int]
    } else {
        chars_le_from(a, b, i + 1)
    }
}

/// Lexicographic order of character sequences (the order of `str`, since
/// UTF-8 keeps the order of code points).
pub open spec fn chars_le(a: Seq<char>, b: Seq<char>) -> bool {
    chars_le_from(a, b, 0)
}

pub proof fn lemma_chars_le_from_reflexive(a: Seq<char>, i: nat)
    ensures
        chars_le_from(a, a, i),
    decreases a.len() - i,
{
    if i < a.len() {
        lemma_chars_le_from_reflexive(a, i + 1);
    }
}

pub proof fn lemma_chars_le_from_total(a: Seq<char>, b: Seq<char>, i: nat)
    ensures
        chars_le_from(a, b, i) || chars_le_from(b, a, i),
    decreases a.len() - i,
{
    if i < a.len() && i < b.len() && a[i as int] == b[i as int] {
        lemma_chars_le_from_total(a, b, i + 1);
    }
}

pub proof fn lemma_chars_le_from_transitive(a: Seq<char>, b: Seq<char>, c: Seq<char>, i: nat)
    requires
        chars_le_from(a, b, i),
        chars_le_from(b, c, i),
    ensures
        chars_le_from(a, c, i),
    decreases a.len() - i,
{
    if i < a.len() && i < b.len() && i < c.len() && a[i as int] == b[i as int] && b[i as int]
        == c[i as int] {
        lemma_chars_le_from_transitive(a, b, c, i + 1);
    }
}

/// Compares two texts in the order of `chars_le`.
pub fn str_le(a: &str, b: &str) -> (le: bool)
    ensures
        le == chars_le(a@, b@),
{
    let na = a.unicode_len();
    let nb = b.unicode_len();
    let mut i: usize = 0;
    while i < na && i < nb
        invariant
            na == a@.len(),
            nb == b@.len(),
            i <= na,
            i <= nb,
            chars_le(a@, b@) == chars_le_from(a@, b@, i as nat),
        decreases na - i,
    {
        let ca = a.get_char(i);
        let cb = b.get_char(i);
        if ca != cb {
            return ca < cb;
        }
        i = i + 1;
    }
    i >= na
}

pub proof fn lemma_chars_le_from_antisymmetric(a: Seq<char>, b: Seq<char>, i: nat)
    requires
        chars_le_from(a, b, i),
        chars_le_from(b, a, i),
        i <= a.len(),
        i <= b.len(),
    ensures
        a.subrange(i as int, a.len() as int) == b.subrange(i as int, b.len() as int),
    decreases a.len() - i,
{
    if i < a.len() && i < b.len() {
        lemma_chars_le_from_antisymmetric(a, b, i + 1);
        assert(a.subrange(i as int, a.len() as int) =~= seq![a[i as int]] + a.subrange(
            i + 1int,
            a.len() as int,
        ));
        assert(b.subrange(i as int, b.len() as int) =~= seq![b[i as int]] + b.subrange(
            i + 1int,
            b.len() as int,
        ));
    } else {
        assert(a.subrange(i as int, a.len() as int) =~= Seq::<char>::empty());
        assert(b.subrange(i as int, b.len() as int) =~= Seq::<char>::empty());
    }
}

/// Every parameter name of `s` is not greater than the names after it.
pub open spec fn sorted_by_name(s: Seq<ParamView>) -> bool {
    forall|i: int, j: int| 0 <= i < j < s.len() ==> chars_le(#[trigger] s[i].0, #[trigger] s[j].0)
}

/// Selects the parameters named `k`.
pub open spec fn named(k: Seq<char>) -> spec_fn(ParamView) -> bool {
    |p: ParamView| p.0 == k
}

/// `output` is `input` sorted by name, where parameters of one name keep
/// the order they had in `input` (a stable sort).
pub open spec fn stable_sort_by_name(input: Seq<ParamView>, output: Seq<ParamView>) -> bool {
    &&& sorted_by_name(output)
    &&& forall|k: Seq<char>| #[trigger] output.filter(named(k)) == input.filter(named(k))
}

proof fn lemma_insert_keeps_stable_sort(
    input: Seq<ParamView>,
    output: Seq<ParamView>,
    x: ParamView,
    p: int,
)
    requires
        stable_sort_by_name(input, output),
        0 <= p <= output.len(),
        forall|q: int| 0 <= q < p ==> chars_le(#[trigger] output[q].0, x.0),
        p < output.len() ==> !chars_le(output[p].0, x.0),
    ensures
        stable_sort_by_name(input.push(x), output.insert(p, x)),
{
    let out2 = output.insert(p, x);
    let left = output.subrange(0, p);
    let right = output.subrange(p, output.len() as int);
    assert(output =~= left + right);
    assert(out2 =~= left + seq![x] + right);
    // every name after the insertion point is strictly greater than x's
    assert forall|q: int| p <= q < output.len() implies !chars_le(#[trigger] output[q].0, x.0)
        && chars_le(x.0, output[q].0) by {
        if chars_le(output[q].0, x.0) {
            lemma_chars_le_from_transitive(output[p].0, output[q].0, x.0, 0);
        }
        lemma_chars_le_from_total(output[q].0, x.0, 0);
    }
    assert forall|i: int, j: int| 0 <= i < j < out2.len() implies chars_le(
        #[trigger] out2[i].0,
        #[trigger] out2[j].0,
    ) by {
        if j < p {
        } else if j == p {
        } else if i < p {
            lemma_chars_le_from_transitive(out2[i].0, x.0, out2[j].0, 0);
        } else if i == p {
        } else {
            assert(out2[i] == output[i - 1]);
            assert(out2[j] == output[j - 1]);
        }
    }
    assert forall|k: Seq<char>| #[trigger] out2.filter(named(k)) == input.push(x).filter(named(k))
        by {
        Seq::filter_distributes_over_add(left, right, named(k));
        Seq::filter_distributes_over_add(left + seq![x], right, named(k));
        Seq::filter_distributes_over_add(left, seq![x], named(k));
        input.lemma_filter_push(x, named(k));
        reveal_with_fuel(Seq::filter, 2);
        if x.0 == k {
            assert forall|q: int| 0 <= q < right.len() implies !named(k)(#[trigger] right[q]) by {
                assert(right[q] == output[p + q]);
                lemma_chars_le_from_reflexive(x.0, 0);
            }
            assert(right.all(|y: ParamView| !named(k)(y)));
            right.lemma_all_neg_filter_empty(named(k));
            assert(right.filter(named(k)) =~= Seq::<ParamView>::empty());
            assert(out2.filter(named(k)) =~= left.filter(named(k)).push(x));
            assert(output.filter(named(k)) =~= left.filter(named(k)));
        } else {
            assert(seq![x].filter(named(k)) =~= Seq::<ParamView>::empty());
        }
    }
}

proof fn lemma_filter_of_cons(x: ParamView, rest: Seq<ParamView>, k: Seq<char>)
    ensures
        (seq![x] + rest).filter(named(k)) == if x.0 == k {
            seq![x] + rest.filter(named(k))
        } else {
            rest.filter(named(k))
        },
{
    Seq::filter_distributes_over_add(seq![x], rest, named(k));
    reveal_with_fuel(Seq::filter, 2);
    assert(seq![x].drop_last() =~= Seq::<ParamView>::empty());
}

proof fn lemma_sorted_first_is_least(a: Seq<ParamView>, y: ParamView)
    requires
        sorted_by_name(a),
        a.contains(y),
    ensures
        chars_le(a[0].0, y.0),
{
    let j = choose|j: int| 0 <= j < a.len() && a[j] == y;
    if j == 0 {
        lemma_chars_le_from_reflexive(y.0, 0);
    } else {
        assert(chars_le(a[0].0, a[j].0));
    }
}

/// Two sequences sorted by name that hold the same parameters of every
/// name, in the same order, are the same sequence.
pub proof fn lemma_sorted_groups_determine(a: Seq<ParamView>, b: Seq<ParamView>)
    requires
        sorted_by_name(a),
        sorted_by_name(b),
        forall|k: Seq<char>| #[trigger] a.filter(named(k)) == b.filter(named(k)),
    ensures
        a == b,
    decreases a.len(),
{
    if a.len() == 0 || b.len() == 0 {
        if a.len() > 0 {
            a.lemma_filter_contains(named(a[0].0), 0);
            assert(a.filter(named(a[0].0)) == b.filter(named(a[0].0)));
            b.lemma_filter_contains_rev(named(a[0].0), a[0]);
        } else if b.len() > 0 {
            b.lemma_filter_contains(named(b[0].0), 0);
            assert(a.filter(named(b[0].0)) == b.filter(named(b[0].0)));
            a.lemma_filter_contains_rev(named(b[0].0), b[0]);
        }
        assert(a =~= b);
    } else {
        let x = a[0];
        let y = b[0];
        b.lemma_filter_contains(named(y.0), 0);
        assert(a.filter(named(y.0)) == b.filter(named(y.0)));
        a.lemma_filter_contains_rev(named(y.0), y);
        lemma_sorted_first_is_least(a, y);
        a.lemma_filter_contains(named(x.0), 0);
        assert(a.filter(named(x.0)) == b.filter(named(x.0)));
        b.lemma_filter_contains_rev(named(x.0), x);
        lemma_sorted_first_is_least(b, x);
        lemma_chars_le_from_antisymmetric(x.0, y.0, 0);
        assert(x.0 =~= x.0.subrange(0, x.0.len() as int));
        assert(y.0 =~= y.0.subrange(0, y.0.len() as int));
        let a2 = a.drop_first();
        let b2 = b.drop_first();
        assert(a =~= seq![x] + a2);
        assert(b =~= seq![y] + b2);
        lemma_filter_of_cons(x, a2, x.0);
        lemma_filter_of_cons(y, b2, x.0);
        assert((seq![x] + a2.filter(named(x.0)))[0] == x);
        assert((seq![y] + b2.filter(named(x.0)))[0] == y);
        assert(x == y);
        assert forall|k: Seq<char>| #[trigger] a2.filter(named(k)) == b2.filter(named(k)) by {
            lemma_filter_of_cons(x, a2, k);
            lemma_filter_of_cons(y, b2, k);
            assert(a.filter(named(k)) == b.filter(named(k)));
            if x.0 == k {
                assert(a2.filter(named(k)) =~= (seq![x] + a2.filter(named(k))).drop_first());
                assert(b2.filter(named(k)) =~= (seq![y] + b2.filter(named(k))).drop_first());
            }
        }
        assert forall|i: int, j: int| 0 <= i < j < a2.len() implies chars_le(
            #[trigger] a2[i].0,
            #[trigger] a2[j].0,
        ) by {
            assert(a2[i] == a[i + 1] && a2[j] == a[j + 1]);
        }
        assert forall|i: int, j: int| 0 <= i < j < b2.len() implies chars_le(
            #[trigger] b2[i].0,
            #[trigger] b2[j].0,
        ) by {
            assert(b2[i] == b[i + 1] && b2[j] == b[j + 1]);
        }
        lemma_sorted_groups_determine(a2, b2);
    }
}

/// A stable sort by name has one result: any two stable sorts of the same
/// parameters are equal.
pub proof fn lemma_stable_sort_unique(input: Seq<ParamView>, a: Seq<ParamView>, b: Seq<ParamView>)
    requires
        stable_sort_by_name(input, a),
        stable_sort_by_name(input, b),
    ensures
        a == b,
{
    assert forall|k: Seq<char>| #[trigger] a.filter(named(k)) == b.filter(named(k)) by {
        assert(a.filter(named(k)) == input.filter(named(k)));
        assert(b.filter(named(k)) == input.filter(named(k)));
    }
    lemma_sorted_groups_determine(a, b);
}

/// Sorts parameters by name, keeping the order of parameters that share a
/// name, as `sort_by_key` on the name does.
pub fn sort_params_by_name(params: &Vec<(String, String)>) -> (sorted: Vec<(String, String)>)
    ensures
        stable_sort_by_name(param_views(params@), param_views(sorted@)),
        sorted@.len() == params@.len(),
{
    let mut out: Vec<(String, String)> = Vec::new();
    let n = params.len();
    proof {
        reveal_with_fuel(Seq::filter, 1);
        assert(param_views(params@).take(0) =~= Seq::<ParamView>::empty());
        assert(param_views(out@) =~= Seq::<ParamView>::empty());
    }
    for i in 0..n
        invariant
            n == params@.len(),
            out@.len() == i,
            stable_sort_by_name(param_views(params@).take(i as int), param_views(out@)),
    {
        let x = (params[i].0.clone(), params[i].1.clone());
        let ghost xv: ParamView = (x.0@, x.1@);
        let mut p: usize = 0;
        while p < out.len() && str_le(out[p].0.as_str(), x.0.as_str())
            invariant
                p <= out@.len(),
                xv == (x.0@, x.1@),
                forall|q: int| 0 <= q < p ==> chars_le(#[trigger] param_views(out@)[q].0, xv.0),
            decreases out@.len() - p,
        {
            p = p + 1;
        }
        let ghost old_out = out@;
        proof {
            lemma_insert_keeps_stable_sort(
                param_views(params@).take(i as int),
                param_views(out@),
                xv,
                p as int,
            );
            assert(param_views(params@).take(i as int).push(xv) =~= param_views(params@).take(
                i + 1,
            ));
        }
        out.insert(p, x);
        assert(param_views(out@) =~= param_views(old_out).insert(p as int, xv));
    }
    assert(param_views(params@).take(n as int) =~= param_views(params@));
    out
}

/// The digest MD5 gives for `data`.
pub uninterp spec fn md5_digest(data: Seq<u8>) -> Seq<u8>;

/// `md5::compute`: the MD5 digest of `data`. Trusted: the digest is what
/// `md5_digest` names for the same input, and it is sixteen bytes long (the
/// crate's `Digest` is a `[u8; 16]`).
#[verifier::external_body]
pub(crate) fn md5_bytes(data: &[u8]) -> (digest: Vec<u8>)
    ensures
        digest@ == md5_digest(data@),
        digest@.len() == 16,
{
    md5::compute(data).0.to_vec()
}

/// Bytes that form encoding writes as themselves: ASCII letters and digits
/// and `*`, `-`, `.`, `_`.
pub open spec fn form_unreserved(b: u8) -> bool {
    ||| 48 <= b <= 57
    ||| 65 <= b <= 90
    ||| 97 <= b <= 122
    ||| b == 42
    ||| b == 45
    ||| b == 46
    ||| b == 95
}

/// How form encoding writes one byte: an unreserved byte as itself, a space
/// as `+`, anything else as `%` and two uppercase hexadecimal digits.
pub open spec fn form_encode_byte(b: u8) -> Seq<char> {
    if form_unreserved(b) {
        seq![b as char]
    } else if b == 32 {
        seq!['+']
    } else {
        seq!['%', hex_digit_upper((b / 16) as nat), hex_digit_upper((b % 16) as nat)]
    }
}

/// Form encoding of a byte string, byte by byte.
pub open spec fn form_encode_bytes(bytes: Seq<u8>) -> Seq<char>
    decreases bytes.len(),
{
    if bytes.len() == 0 {
        Seq::empty()
    } else {
        form_encode_bytes(bytes.drop_last()) + form_encode_byte(bytes.last())
    }
}

/// One name/value pair: the encoded UTF-8 name, `=`, the encoded UTF-8
/// value.
pub open spec fn form_pair(p: ParamView) -> Seq<char> {
    form_encode_bytes(encode_utf8(p.0)) + seq!['='] + form_encode_bytes(encode_utf8(p.1))
}

/// The `application/x-www-form-urlencoded` text of a sequence of name/value
/// pairs: the encoded pairs in order, joined by `&`.
pub open spec fn form_urlencoded(pairs: Seq<ParamView>) -> Seq<char>
    decreases pairs.len(),
{
    if pairs.len() == 0 {
        Seq::empty()
    } else if pairs.len() == 1 {
        form_pair(pairs[0])
    } else {
        form_urlencoded(pairs.drop_last()) + seq!['&'] + form_pair(pairs.last())
    }
}

#[verifier::external_type_specification]
#[verifier::external_body]
pub struct ExUrlEncodeError(UrlEncodeError);

/// `serde_urlencoded::to_string` on a sequence of string pairs. Trusted: its
/// source serializes every pair of two strings without error, appending
/// each with `form_urlencoded::Serializer::append_pair`, so the call succeeds
/// and the text is `form_urlencoded` of the pairs.
#[verifier::external_body]
pub(crate) fn urlencode_pairs(pairs: &Vec<(String, String)>) -> (encoded: Result<
    String,
    UrlEncodeError,
>)
    ensures
        encoded is Ok,
        encoded->Ok_0@ == form_urlencoded(param_views(pairs@)),
{
    serde_urlencoded::to_string(pairs)
}

} // verus!
