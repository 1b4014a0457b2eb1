//! Properties of signing and request preparation that hold for all inputs.

use vstd::prelude::*;
use crate::client::{request_headers, ThreatConnectClient};
use crate::error::ApiError;
use crate::signing::{decimal, digit_char, signature_header, signing_message};

verus! {

proof fn lemma_decimal_len(n: nat)
    ensures
        decimal(n).len() >= 1,
        n >= 10 ==> decimal(n).len() >= 2,
    decreases n,
{
    if n >= 10 {
        lemma_decimal_len(n / 10);
    }
}

/// Different numbers have different decimal texts.
pub proof fn lemma_decimal_injective(a: nat, b: nat)
    requires
        decimal(a) == decimal(b),
    ensures
        a == b,
    decreases a,
{
    lemma_decimal_len(a);
    lemma_decimal_len(b);
    if a < 10 && b < 10 {
        assert(decimal(a)[0] == digit_char(a));
        assert(decimal(b)[0] == digit_char(b));
    } else if a >= 10 && b >= 10 {
        let da = decimal(a);
        let db = decimal(b);
        assert(da == decimal(a / 10).push(digit_char(a % 10)));
        assert(db == decimal(b / 10).push(digit_char(b % 10)));
        assert(da.last() == digit_char(a % 10));
        assert(db.last() == digit_char(b % 10));
        assert(decimal(a / 10) =~= da.drop_last());
        assert(decimal(b / 10) =~= db.drop_last());
        lemma_decimal_injective(a / 10, b / 10);
    } else if a < 10 {
        assert(decimal(a).len() == 1);
    } else {
        assert(decimal(b).len() == 1);
    }
}

/// Signing is deterministic: two signatures of the same method, path and
/// timestamp by the same client are the same text.
pub proof fn lemma_sign_deterministic(
    client: ThreatConnectClient,
    method: Seq<char>,
    path_and_query: Seq<char>,
    timestamp: u64,
    first: Result<String, ApiError>,
    second: Result<String, ApiError>,
)
    requires
        first matches Ok(s) && s@ == signature_header(
            client.spec_secret_key(), client.spec_access_id(), method, path_and_query, timestamp),
        second matches Ok(s) && s@ == signature_header(
            client.spec_secret_key(), client.spec_access_id(), method, path_and_query, timestamp),
    ensures
        first->Ok_0@ == second->Ok_0@,
{
}

/// Changing one character of the path changes the signed message.
pub proof fn lemma_message_path_sensitive(p1: Seq<char>, p2: Seq<char>, method: Seq<char>, timestamp: u64, i: int)
    requires
        p1.len() == p2.len(),
        0 <= i < p1.len(),
        p1[i] != p2[i],
    ensures
        signing_message(p1, method, timestamp) != signing_message(p2, method, timestamp),
{
    assert(signing_message(p1, method, timestamp)[i] == p1[i]);
    assert(signing_message(p2, method, timestamp)[i] == p2[i]);
}

/// Changing one character of the method changes the signed message.
pub proof fn lemma_message_method_sensitive(path: Seq<char>, m1: Seq<char>, m2: Seq<char>, timestamp: u64, i: int)
    requires
        m1.len() == m2.len(),
        0 <= i < m1.len(),
        m1[i] != m2[i],
    ensures
        signing_message(path, m1, timestamp) != signing_message(path, m2, timestamp),
{
    reveal_strlit(":");
    let k = path.len() + 1 + i;
    assert((path + ":"@ + m1)[k] == m1[i]);
    assert((path + ":"@ + m2)[k] == m2[i]);
    assert(signing_message(path, m1, timestamp)[k] == m1[i]);
    assert(signing_message(path, m2, timestamp)[k] == m2[i]);
}

/// Changing the timestamp changes the signed message.
pub proof fn lemma_message_timestamp_sensitive(path: Seq<char>, method: Seq<char>, t1: u64, t2: u64)
    requires
        t1 != t2,
    ensures
        signing_message(path, method, t1) != signing_message(path, method, t2),
{
    let prefix = path + ":"@ + method + ":"@;
    let m1 = signing_message(path, method, t1);
    let m2 = signing_message(path, method, t2);
    if m1 == m2 {
        assert(m1 == prefix + decimal(t1 as nat));
        assert(m2 == prefix + decimal(t2 as nat));
        assert(decimal(t1 as nat) =~= m1.subrange(prefix.len() as int, m1.len() as int));
        assert(decimal(t2 as nat) =~= m2.subrange(prefix.len() as int, m2.len() as int));
        lemma_decimal_injective(t1 as nat, t2 as nat);
    }
}

/// Requests prepared by one client at two timestamps are independent: each
/// carries its own timestamp, signed into its own message, and requests at
/// different timestamps differ in both.
pub proof fn lemma_requests_independent(
    client: ThreatConnectClient,
    path_and_query: Seq<char>,
    t1: u64,
    t2: u64,
)
    requires
        t1 != t2,
    ensures
        ({
            let h1 = request_headers(signature_header(
                client.spec_secret_key(), client.spec_access_id(), "GET"@, path_and_query, t1), t1);
            let h2 = request_headers(signature_header(
                client.spec_secret_key(), client.spec_access_id(), "GET"@, path_and_query, t2), t2);
            &&& h1[1].1 == decimal(t1 as nat)
            &&& h2[1].1 == decimal(t2 as nat)
            &&& h1[1].1 != h2[1].1
        }),
        signing_message(path_and_query, "GET"@, t1) != signing_message(path_and_query, "GET"@, t2),
{
    lemma_message_timestamp_sensitive(path_and_query, "GET"@, t1, t2);
    if decimal(t1 as nat) == decimal(t2 as nat) {
        lemma_decimal_injective(t1 as nat, t2 as nat);
    }
}

} // verus!
