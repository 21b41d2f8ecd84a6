//! What an account without two-factor credentials signs: its parameters
//! without `otp`, so that no one-time password reaches the signed string.

use vstd::prelude::*;
use vstd::utf8::encode_utf8;
use crate::encoding::{is_percent_char, lemma_percent_encode_chars, percent_encoded};
use crate::exchanges::BaseExchange;
use crate::payload::{has_key, without_key, Entry};
use crate::signing::canonical_query;
use crate::text::{contains_text, ends_with, occurs_at};

verus! {

/// A key that cannot bring `otp=` into a signed string: it neither holds
/// `otp=` nor ends with `otp`.
pub open spec fn plain_key(key: Seq<char>) -> bool {
    !contains_text(key, "otp="@) && !ends_with(key, "otp"@)
}

/// Every entry that is left after a key was taken out is an entry of the
/// original with another key.
pub proof fn lemma_without_key_keeps_others(entries: Seq<Entry>, key: Seq<char>)
    ensures
        forall|i: int|
            0 <= i < without_key(entries, key).len() ==> (#[trigger] without_key(entries, key)[i]).0
                != key && exists|j: int|
                0 <= j < entries.len() && entries[j] == without_key(entries, key)[i],
    decreases entries.len(),
{
    if entries.len() > 0 {
        let front = entries.drop_last();
        lemma_without_key_keeps_others(front, key);
        let out = without_key(entries, key);
        assert forall|i: int| 0 <= i < out.len() implies (#[trigger] out[i]).0 != key && exists|
            j: int,
        |
            0 <= j < entries.len() && entries[j] == out[i] by {
            let inner = without_key(front, key);
            if i < inner.len() {
                assert(out[i] == inner[i]);
                let j = choose|j: int| 0 <= j < front.len() && front[j] == inner[i];
                assert(entries[j] == out[i]);
            } else {
                assert(entries[entries.len() - 1] == out[i]);
            }
        }
    }
}

/// A text in which a character stands that `needle` does not hold cannot
/// hold `needle` across that character: `needle` lies before it or after it.
pub proof fn lemma_split_at_foreign_char(
    before: Seq<char>,
    c: char,
    after: Seq<char>,
    needle: Seq<char>,
)
    requires
        forall|k: int| 0 <= k < needle.len() ==> needle[k] != c,
        !contains_text(before, needle),
        !contains_text(after, needle),
        needle.len() > 0,
    ensures
        !contains_text(before + seq![c] + after, needle),
{
    let all = before + seq![c] + after;
    assert forall|at: int| !occurs_at(all, needle, at) by {
        if occurs_at(all, needle, at) {
            let part = all.subrange(at, at + needle.len());
            let mid = before.len() as int;
            if at + needle.len() <= mid {
                assert(before.subrange(at, at + needle.len()) =~= part);
                assert(occurs_at(before, needle, at));
            } else if at > mid {
                assert(after.subrange(at - mid - 1, at - mid - 1 + needle.len()) =~= part);
                assert(occurs_at(after, needle, at - mid - 1));
            } else {
                assert(part[mid - at] == all[mid]);
                assert(all[mid] == c);
            }
        }
    }
}

/// `key=value` with a plain key and a percent-encoded value holds no `otp=`.
pub proof fn lemma_pair_holds_no_otp(key: Seq<char>, value: Seq<char>)
    requires
        plain_key(key),
    ensures
        !contains_text(key + "="@ + percent_encoded(value), "otp="@),
{
    reveal_strlit("otp=");
    reveal_strlit("otp");
    reveal_strlit("=");
    let needle = "otp="@;
    let encoded = percent_encoded(value);
    let all = key + "="@ + encoded;
    assert(needle.len() == 4);
    assert("otp"@.len() == 3);
    assert("="@.len() == 1);
    lemma_percent_encode_chars(encode_utf8(value));
    assert forall|at: int| !occurs_at(all, needle, at) by {
        if occurs_at(all, needle, at) {
            let part = all.subrange(at, at + 4);
            let last = at + 3;
            assert(part[3] == all[last]);
            assert(all[last] == '=');
            let n = key.len() as int;
            if last < n {
                assert(key.subrange(at, at + 4) =~= part);
                assert(occurs_at(key, needle, at));
            } else if last == n {
                assert(part[0] == all[at]);
                assert(part[1] == all[at + 1]);
                assert(part[2] == all[at + 2]);
                assert(key.subrange(n - 3, n) =~= "otp"@);
            } else {
                let c = encoded[last - n - 1];
                assert(all[last] == c);
                assert(is_percent_char(c));
            }
        }
    }
}

/// `nonce=<nonce>` holds no `otp=` where the nonce holds none.
pub proof fn lemma_head_holds_no_otp(nonce: Seq<char>)
    requires
        !contains_text(nonce, "otp="@),
    ensures
        !contains_text("nonce="@ + nonce, "otp="@),
{
    reveal_strlit("otp=");
    reveal_strlit("nonce=");
    let needle = "otp="@;
    let head = "nonce="@;
    let all = head + nonce;
    assert(needle.len() == 4);
    assert(head.len() == 6);
    assert forall|at: int| !occurs_at(all, needle, at) by {
        if occurs_at(all, needle, at) {
            let part = all.subrange(at, at + 4);
            assert(part[0] == all[at]);
            assert(part[1] == all[at + 1]);
            if at >= 6 {
                assert(nonce.subrange(at - 6, at - 2) =~= part);
                assert(occurs_at(nonce, needle, at - 6));
            }
        }
    }
}

/// The canonical string of parameters with plain keys, under a nonce that
/// holds no `otp=`, holds no `otp=`.
pub proof fn lemma_canonical_holds_no_otp(nonce: Seq<char>, entries: Seq<Entry>)
    requires
        !contains_text(nonce, "otp="@),
        forall|i: int| 0 <= i < entries.len() ==> plain_key(#[trigger] entries[i].0),
    ensures
        !contains_text(canonical_query(nonce, entries), "otp="@),
    decreases entries.len(),
{
    if entries.len() == 0 {
        lemma_head_holds_no_otp(nonce);
        assert(canonical_query(nonce, entries) =~= "nonce="@ + nonce);
    } else {
        let front = entries.drop_last();
        let last = entries.last();
        assert forall|i: int| 0 <= i < front.len() implies plain_key(#[trigger] front[i].0) by {
            assert(front[i] == entries[i]);
        }
        lemma_canonical_holds_no_otp(nonce, front);
        if last.0 != "nonce"@ {
            reveal_strlit("otp=");
            reveal_strlit("&");
            assert("otp="@.len() == 4);
            assert("&"@.len() == 1);
            assert(plain_key(entries[entries.len() - 1].0));
            lemma_pair_holds_no_otp(last.0, last.1);
            let pair = last.0 + "="@ + percent_encoded(last.1);
            lemma_split_at_foreign_char(canonical_query(nonce, front), '&', pair, "otp="@);
            assert("&"@ =~= seq!['&']);
            assert(canonical_query(nonce, entries) =~= canonical_query(nonce, front) + seq!['&']
                + pair);
        }
    }
}

/// The string that an account without two-factor credentials signs holds
/// no `otp=`: the `otp` parameter is taken out before anything is signed.
///
/// This is stated for a nonce without `otp=` and for keys that are `otp`
/// itself or plain: a key such as `totp` stays and brings `totp=` with it.
pub proof fn lemma_signed_string_holds_no_otp(
    exchange: BaseExchange,
    nonce: Seq<char>,
    entries: Seq<Entry>,
)
    requires
        !exchange.two_factor(),
        !contains_text(nonce, "otp="@),
        forall|i: int|
            0 <= i < entries.len() ==> (#[trigger] entries[i].0) == "otp"@ || plain_key(
                entries[i].0,
            ),
    ensures
        !has_key(exchange.signed_entries(entries), "otp"@),
        !contains_text(canonical_query(nonce, exchange.signed_entries(entries)), "otp="@),
{
    let signed = without_key(entries, "otp"@);
    lemma_without_key_keeps_others(entries, "otp"@);
    assert forall|i: int| 0 <= i < signed.len() implies plain_key(#[trigger] signed[i].0) by {
        let j = choose|j: int| 0 <= j < entries.len() && entries[j] == signed[i];
        assert(entries[j].0 == signed[i].0);
    }
    lemma_canonical_holds_no_otp(nonce, signed);
}

} // verus!
