use vstd::prelude::*;
use crate::error::ConfidentialError;

verus! {

/// The decimal digit character for `d < 10`.
pub open spec fn digit_char(d: nat) -> char {
    if d == 0 { '0' }
    else if d == 1 { '1' }
    else if d == 2 { '2' }
    else if d == 3 { '3' }
    else if d == 4 { '4' }
    else if d == 5 { '5' }
    else if d == 6 { '6' }
    else if d == 7 { '7' }
    else if d == 8 { '8' }
    else { '9' }
}

/// The decimal representation of `n`, without leading zeros.
pub open spec fn decimal(n: nat) -> Seq<char>
    decreases n,
{
    if n < 10 {
        seq![digit_char(n)]
    } else {
        decimal(n / 10).push(digit_char(n % 10))
    }
}

/// The decimal representation of a signed integer, with a leading `-` when negative.
pub open spec fn signed_decimal(i: int) -> Seq<char> {
    if i < 0 {
        seq!['-'] + decimal((-i) as nat)
    } else {
        decimal(i as nat)
    }
}

/// The attestation text for a balance against a threshold at a given time.
pub open spec fn attestation_text(balance: nat, threshold: nat, timestamp: int) -> Seq<char> {
    if balance >= threshold {
        "proof:eligible:"@ + decimal(balance) + ":"@ + decimal(threshold) + ":"@
            + signed_decimal(timestamp)
    } else {
        "proof:ineligible"@
    }
}

fn digit_str(d: u64) -> (r: &'static str)
    requires
        d < 10,
    ensures
        r@ == seq![digit_char(d as nat)],
{
    proof {
        reveal_strlit("0");
        reveal_strlit("1");
        reveal_strlit("2");
        reveal_strlit("3");
        reveal_strlit("4");
        reveal_strlit("5");
        reveal_strlit("6");
        reveal_strlit("7");
        reveal_strlit("8");
        reveal_strlit("9");
    }
    if d == 0 { "0" }
    else if d == 1 { "1" }
    else if d == 2 { "2" }
    else if d == 3 { "3" }
    else if d == 4 { "4" }
    else if d == 5 { "5" }
    else if d == 6 { "6" }
    else if d == 7 { "7" }
    else if d == 8 { "8" }
    else { "9" }
}

/// Appends the decimal representation of `n` to `s`.
pub fn push_decimal(s: &mut String, n: u64)
    ensures
        final(s)@ == old(s)@ + decimal(n as nat),
    decreases n,
{
    if n >= 10 {
        push_decimal(s, n / 10);
    }
    s.append(digit_str(n % 10));
    proof {
        if n >= 10 {
            assert(decimal(n as nat) == decimal((n / 10) as nat).push(digit_char((n % 10) as nat)));
        }
        assert(final(s)@ =~= old(s)@ + decimal(n as nat));
    }
}

/// Appends the decimal representation of a signed `i` to `s`.
pub fn push_signed_decimal(s: &mut String, i: i64)
    ensures
        final(s)@ == old(s)@ + signed_decimal(i as int),
{
    if i < 0 {
        proof { reveal_strlit("-"); }
        s.append("-");
        let magnitude: u64 = ((-(i + 1)) as u64) + 1;
        push_decimal(s, magnitude);
        assert(final(s)@ =~= old(s)@ + signed_decimal(i as int));
    } else {
        push_decimal(s, i as u64);
    }
}

/// Builds the eligibility attestation of `available_balance` against `threshold`,
/// stamped with `timestamp` (seconds since the Unix epoch).
///
/// The attestation is an inspectable statement, not a cryptographic proof.
pub fn eligibility_attestation(available_balance: u64, threshold: u64, timestamp: i64) -> (r: (
    bool,
    String,
))
    ensures
        r.0 == (available_balance >= threshold),
        r.1@ == attestation_text(available_balance as nat, threshold as nat, timestamp as int),
{
    let eligible = available_balance >= threshold;
    if eligible {
        let mut text = String::from_str("proof:eligible:");
        push_decimal(&mut text, available_balance);
        text.append(":");
        push_decimal(&mut text, threshold);
        text.append(":");
        push_signed_decimal(&mut text, timestamp);
        proof {
            reveal_strlit("proof:eligible:");
            reveal_strlit(":");
        }
        (true, text)
    } else {
        proof { reveal_strlit("proof:ineligible"); }
        (false, String::from_str("proof:ineligible"))
    }
}

/// Relies on chrono's `Utc::now().timestamp()`: the current time in seconds
/// since the Unix epoch. It depends on the clock, so nothing is stated of it.
#[verifier::external_body]
fn now_timestamp() -> (r: i64) {
    chrono::Utc::now().timestamp()
}

/// Builds the eligibility attestation of `available_balance` against
/// `threshold`, stamped with the current time.
pub fn generate_eligibility_proof(available_balance: u64, threshold: u64) -> (r: Result<
    (bool, String),
    ConfidentialError,
>)
    ensures
        r is Ok,
        r->Ok_0.0 == (available_balance >= threshold),
        exists|t: i64|
            r->Ok_0.1@ == #[trigger] attestation_text(
                available_balance as nat,
                threshold as nat,
                t as int,
            ),
{
    let timestamp = now_timestamp();
    Ok(eligibility_attestation(available_balance, threshold, timestamp))
}

/// Whether `part` occurs in `text`.
pub open spec fn contains(text: Seq<char>, part: Seq<char>) -> bool {
    exists|i: int|
        0 <= i && i + part.len() <= text.len() && #[trigger] text.subrange(i, i + part.len())
            == part
}

/// The verdict is spelled out in the attestation: "eligible" occurs in it when
/// the balance reaches the threshold, and "ineligible" when it does not.
pub proof fn lemma_attestation_names_verdict(balance: nat, threshold: nat, timestamp: int)
    ensures
        balance >= threshold ==> contains(
            attestation_text(balance, threshold, timestamp),
            "eligible"@,
        ),
        balance < threshold ==> contains(
            attestation_text(balance, threshold, timestamp),
            "ineligible"@,
        ),
{
    reveal_strlit("proof:eligible:");
    reveal_strlit("proof:ineligible");
    reveal_strlit("eligible");
    reveal_strlit("ineligible");
    reveal_strlit(":");
    let text = attestation_text(balance, threshold, timestamp);
    if balance >= threshold {
        assert(text.subrange(6, 14) =~= "eligible"@);
        assert(text.subrange(6, 6 + "eligible"@.len() as int) == "eligible"@);
    } else {
        assert(text.subrange(6, 16) =~= "ineligible"@);
        assert(text.subrange(6, 6 + "ineligible"@.len() as int) == "ineligible"@);
    }
}

} // verus!
