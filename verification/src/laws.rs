//! Properties of the generated tokens, stated and proved once over every
//! well-formed token rather than checked on samples.
use vstd::prelude::*;

verus! {

use vstd::utf8::encode_utf8;
use crate::json::header_json_bytes;
use crate::jws::b64url_of;
use crate::jws::b64url_char;
use crate::jws::all_b64url_chars;
use crate::token_matches;
use crate::validity_secs_spec;
use crate::DEFAULT_VALIDITY_SECS;

/// How many dots a character sequence contains.
pub open spec fn dot_count(s: Seq<char>) -> int
    decreases s.len(),
{
    if s.len() == 0 {
        0
    } else {
        (if s[0] == '.' {
            1int
        } else {
            0int
        }) + dot_count(s.skip(1))
    }
}

/// The prefix of a character sequence up to, and without, its first dot.
pub open spec fn first_segment(s: Seq<char>) -> Seq<char>
    decreases s.len(),
{
    if s.len() == 0 {
        Seq::empty()
    } else if s[0] == '.' {
        Seq::empty()
    } else {
        seq![s[0]] + first_segment(s.skip(1))
    }
}

/// Dots in a concatenation: the counts of the two parts add up.
proof fn lemma_dot_count_add(a: Seq<char>, b: Seq<char>)
    ensures
        dot_count(a + b) == dot_count(a) + dot_count(b),
    decreases a.len(),
{
    if a.len() == 0 {
        assert(a + b =~= b);
    } else {
        assert((a + b).skip(1) =~= a.skip(1) + b);
        lemma_dot_count_add(a.skip(1), b);
    }
}

/// A sequence over the base64url alphabet contains no dot.
proof fn lemma_b64url_has_no_dot(s: Seq<char>)
    requires
        all_b64url_chars(s),
    ensures
        dot_count(s) == 0,
    decreases s.len(),
{
    if s.len() > 0 {
        assert(b64url_char(s[0]));
        assert(all_b64url_chars(s.skip(1)));
        lemma_b64url_has_no_dot(s.skip(1));
    }
}

/// The prefix before the first dot of `a + [.] + b` is `a`, when `a` holds
/// no dot.
proof fn lemma_first_segment_of_dotted(a: Seq<char>, b: Seq<char>)
    requires
        all_b64url_chars(a),
    ensures
        first_segment(a + seq!['.'] + b) == a,
    decreases a.len(),
{
    let s = a + seq!['.'] + b;
    if a.len() == 0 {
        assert(s[0] == '.');
        assert(first_segment(s) =~= a);
    } else {
        assert(b64url_char(a[0]));
        assert(s[0] == a[0]);
        assert(s.skip(1) =~= a.skip(1) + seq!['.'] + b);
        assert(all_b64url_chars(a.skip(1)));
        lemma_first_segment_of_dotted(a.skip(1), b);
        assert(first_segment(s) =~= a);
    }
}

/// Every well-formed token consists of exactly three dot-separated
/// segments: it contains exactly two dots, and none of its segments is
/// empty of structure — the two dots are the only ones.
pub proof fn lemma_token_three_segments(
    t: Seq<char>,
    kid: Seq<char>,
    iss: Seq<char>,
    iat: int,
    exp: int,
)
    requires
        token_matches(t, kid, iss, iat, exp),
    ensures
        dot_count(t) == 2,
{
    let sig = choose|sig: Seq<char>|
        {
            let h = b64url_of(header_json_bytes(encode_utf8(kid)));
            let p = b64url_of(crate::json::payload_json_bytes(encode_utf8(iss), iat, exp));
            &&& t == h + seq!['.'] + p + seq!['.'] + sig
            &&& sig.len() == 86
            &&& #[trigger] all_b64url_chars(sig)
            &&& all_b64url_chars(h)
            &&& all_b64url_chars(p)
        };
    let h = b64url_of(header_json_bytes(encode_utf8(kid)));
    let p = b64url_of(crate::json::payload_json_bytes(encode_utf8(iss), iat, exp));
    lemma_b64url_has_no_dot(h);
    lemma_b64url_has_no_dot(p);
    lemma_b64url_has_no_dot(sig);
    lemma_dot_count_add(h, seq!['.']);
    lemma_dot_count_add(h + seq!['.'], p);
    lemma_dot_count_add(h + seq!['.'] + p, seq!['.']);
    lemma_dot_count_add(h + seq!['.'] + p + seq!['.'], sig);
    assert(dot_count(seq!['.']) == 1) by {
        let d = seq!['.'];
        assert(d[0] == '.');
        assert(d.skip(1) =~= Seq::<char>::empty());
        assert(dot_count(Seq::<char>::empty()) == 0);
    }
}

/// The first segment of every well-formed token is the base64url encoding
/// of the canonical header for its key id — the header depends on the key
/// id alone.
pub proof fn lemma_first_segment_is_header(
    t: Seq<char>,
    kid: Seq<char>,
    iss: Seq<char>,
    iat: int,
    exp: int,
)
    requires
        token_matches(t, kid, iss, iat, exp),
    ensures
        first_segment(t) == b64url_of(header_json_bytes(encode_utf8(kid))),
{
    let sig = choose|sig: Seq<char>|
        {
            let h = b64url_of(header_json_bytes(encode_utf8(kid)));
            let p = b64url_of(crate::json::payload_json_bytes(encode_utf8(iss), iat, exp));
            &&& t == h + seq!['.'] + p + seq!['.'] + sig
            &&& sig.len() == 86
            &&& #[trigger] all_b64url_chars(sig)
            &&& all_b64url_chars(h)
            &&& all_b64url_chars(p)
        };
    let h = b64url_of(header_json_bytes(encode_utf8(kid)));
    let p = b64url_of(crate::json::payload_json_bytes(encode_utf8(iss), iat, exp));
    let tail = p + seq!['.'] + sig;
    assert(t =~= h + seq!['.'] + tail);
    lemma_first_segment_of_dotted(h, tail);
}

/// Two well-formed tokens for the same key id and issuer, stamped at
/// different instants, have the same structure: the same first segment,
/// and three dot-separated segments each.  Only the payload and signature
/// segments move with the clock.
pub proof fn lemma_structure_does_not_depend_on_time(
    t1: Seq<char>,
    t2: Seq<char>,
    kid: Seq<char>,
    iss: Seq<char>,
    iat1: int,
    exp1: int,
    iat2: int,
    exp2: int,
)
    requires
        token_matches(t1, kid, iss, iat1, exp1),
        token_matches(t2, kid, iss, iat2, exp2),
    ensures
        first_segment(t1) == first_segment(t2),
        dot_count(t1) == 2,
        dot_count(t2) == 2,
{
    lemma_first_segment_is_header(t1, kid, iss, iat1, exp1);
    lemma_first_segment_is_header(t2, kid, iss, iat2, exp2);
    lemma_token_three_segments(t1, kid, iss, iat1, exp1);
    lemma_token_three_segments(t2, kid, iss, iat2, exp2);
}

/// Whether a byte passes through string escaping unchanged: anything that
/// is not a control character, a quote or a backslash.
pub open spec fn plain_json_byte(b: u8) -> bool {
    b >= 0x20 && b != 0x22 && b != 0x5c
}

/// A key id or issuer without quotes, backslashes or control characters is
/// serialised into the header and payload exactly as given, byte for byte.
pub proof fn lemma_plain_text_is_not_escaped(s: Seq<u8>)
    requires
        forall|i: int| 0 <= i < s.len() ==> plain_json_byte(#[trigger] s[i]),
    ensures
        crate::json::json_escaped(s) == s,
    decreases s.len(),
{
    if s.len() > 0 {
        assert(plain_json_byte(s[0]));
        assert(crate::json::escaped_byte(s[0]) == seq![s[0]]);
        assert(forall|i: int|
            0 <= i < s.skip(1).len() ==> plain_json_byte(#[trigger] s.skip(1)[i]));
        lemma_plain_text_is_not_escaped(s.skip(1));
        assert(crate::json::json_escaped(s) =~= s);
    } else {
        assert(crate::json::json_escaped(s) =~= s);
    }
}

/// When no duration is requested, the validity window is exactly the
/// compiled-in default number of seconds.
pub proof fn lemma_default_validity()
    ensures
        validity_secs_spec(None) == 13905000,
        validity_secs_spec(None) == DEFAULT_VALIDITY_SECS,
{
}

/// When a duration is requested, the validity window is exactly the
/// requested number of seconds.
pub proof fn lemma_requested_validity(secs: u64)
    ensures
        validity_secs_spec(Some(secs)) == secs,
{
}

} // verus!
