//! The progress wire protocol between the batch converter and the poller:
//! the pipe-delimited message `Progress|<processed>|<total>`, its encoder and
//! its validating decoder, and the percentage a decoded message stands for.

use vstd::prelude::*;
use vstd::string::StringExecFns;
use crate::text::{
    dec_digits, dec_value, is_dec_seq, is_digit, split_char, split_on, str_eq, parse_u32,
    push_decimal, lemma_dec_digits_are_digits, lemma_dec_value_of_digits, lemma_split_concat,
    lemma_split_no_delim,
};

verus! {

/// The wire form of a progress report: `Progress|<processed>|<total>`.
pub open spec fn spec_encode(p: nat, t: nat) -> Seq<char> {
    "Progress"@ + seq!['|'] + dec_digits(p) + seq!['|'] + dec_digits(t)
}

/// Faults the poller reports without stopping: a message of the wrong shape,
/// a count field that is not a number, and a zero total that would make the
/// percentage undefined.
#[derive(Debug, Clone, Copy, PartialEq, Eq, Structural)]
pub enum PollError {
    MalformedMessage,
    NonNumericField,
    ZeroTotal,
}

/// A validated progress report: how many entries are done out of how many.
#[derive(Debug, Clone, Copy, PartialEq, Eq, Structural)]
pub struct ProgressUpdate {
    pub processed: u32,
    pub total: u32,
}

impl ProgressUpdate {
    /// A validated update never carries a zero total.
    pub open spec fn wf(self) -> bool {
        self.total > 0
    }

    /// Numerator of the exact percentage `100 * processed / total`.
    pub fn percent_numerator(&self) -> (r: u64)
        ensures
            r == 100 * self.processed as u64,
    {
        100u64 * (self.processed as u64)
    }

    /// Denominator of the exact percentage `100 * processed / total`.
    pub fn percent_denominator(&self) -> (r: u64)
        ensures
            r == self.total as u64,
    {
        self.total as u64
    }
}

/// What decoding a wire message yields: the two counts, or the first fault
/// found, checking the shape first and the number fields second.
pub open spec fn spec_decode(s: Seq<char>) -> Result<(u32, u32), PollError> {
    let fields = split_char(s, '|');
    if fields.len() != 3 {
        Err(PollError::MalformedMessage)
    } else if fields[0] != "Progress"@ {
        Err(PollError::MalformedMessage)
    } else if !(is_dec_seq(fields[1]) && dec_value(fields[1]) <= u32::MAX) {
        Err(PollError::NonNumericField)
    } else if !(is_dec_seq(fields[2]) && dec_value(fields[2]) <= u32::MAX) {
        Err(PollError::NonNumericField)
    } else {
        Ok((dec_value(fields[1]) as u32, dec_value(fields[2]) as u32))
    }
}

/// Decoding followed by the zero-total guard.
pub open spec fn spec_evaluate(s: Seq<char>) -> Result<ProgressUpdate, PollError> {
    match spec_decode(s) {
        Err(e) => Err(e),
        Ok((p, t)) => if t == 0 {
            Err(PollError::ZeroTotal)
        } else {
            Ok(ProgressUpdate { processed: p, total: t })
        },
    }
}

/// Encodes a progress report for the channel.
pub fn encode_progress(processed: u64, total: u64) -> (r: String)
    ensures
        r@ == spec_encode(processed as nat, total as nat),
{
    let mut s = String::from_str("Progress");
    s.append("|");
    push_decimal(&mut s, processed);
    s.append("|");
    push_decimal(&mut s, total);
    proof {
        reveal_strlit("|");
        assert(s@ =~= spec_encode(processed as nat, total as nat));
    }
    s
}

/// Decodes a wire message: exactly three pipe-delimited fields, the literal
/// tag `Progress`, then the two counts.
pub fn decode_progress(s: &str) -> (r: Result<(u32, u32), PollError>)
    ensures
        r == spec_decode(s@),
{
    let fields = split_on(s, '|');
    proof {
        assert(fields.deep_view().len() == fields@.len());
    }
    if fields.len() != 3 {
        return Err(PollError::MalformedMessage);
    }
    if !str_eq(fields[0].as_str(), "Progress") {
        return Err(PollError::MalformedMessage);
    }
    let p = match parse_u32(fields[1].as_str()) {
        Some(v) => v,
        None => {
            return Err(PollError::NonNumericField);
        },
    };
    let t = match parse_u32(fields[2].as_str()) {
        Some(v) => v,
        None => {
            return Err(PollError::NonNumericField);
        },
    };
    Ok((p, t))
}

/// Decodes and validates a wire message, guarding the percentage against a
/// zero total.
pub fn evaluate_message(s: &str) -> (r: Result<ProgressUpdate, PollError>)
    ensures
        r == spec_evaluate(s@),
        r matches Ok(u) ==> u.wf(),
{
    match decode_progress(s) {
        Err(e) => Err(e),
        Ok((p, t)) => {
            if t == 0 {
                Err(PollError::ZeroTotal)
            } else {
                Ok(ProgressUpdate { processed: p, total: t })
            }
        },
    }
}

proof fn lemma_tag_no_bar()
    ensures
        "Progress"@.len() == 8,
        forall|i: int| 0 <= i < "Progress"@.len() ==> "Progress"@[i] != '|',
{
    reveal_strlit("Progress");
    assert forall|i: int| 0 <= i < "Progress"@.len() implies "Progress"@[i] != '|' by {
        if i == 0 {
            assert("Progress"@[0] != '|');
        } else if i == 1 {
            assert("Progress"@[1] != '|');
        } else if i == 2 {
            assert("Progress"@[2] != '|');
        } else if i == 3 {
            assert("Progress"@[3] != '|');
        } else if i == 4 {
            assert("Progress"@[4] != '|');
        } else if i == 5 {
            assert("Progress"@[5] != '|');
        } else if i == 6 {
            assert("Progress"@[6] != '|');
        } else {
            assert("Progress"@[7] != '|');
        }
    }
}

/// Law: the wire protocol round-trips. Encoding any pair of counts and
/// decoding the result yields exactly that pair back.
pub proof fn lemma_progress_round_trip(p: u32, t: u32)
    ensures
        spec_decode(spec_encode(p as nat, t as nat)) == Ok::<(u32, u32), PollError>((p, t)),
{
    let tag = "Progress"@;
    let dp = dec_digits(p as nat);
    let dt = dec_digits(t as nat);
    lemma_dec_digits_are_digits(p as nat);
    lemma_dec_digits_are_digits(t as nat);
    lemma_dec_value_of_digits(p as nat);
    lemma_dec_value_of_digits(t as nat);
    lemma_tag_no_bar();
    assert forall|i: int| 0 <= i < dp.len() implies dp[i] != '|' by {
        assert(is_digit(dp[i]));
    }
    assert forall|i: int| 0 <= i < dt.len() implies dt[i] != '|' by {
        assert(is_digit(dt[i]));
    }
    let s = spec_encode(p as nat, t as nat);
    let inner = dp + seq!['|'] + dt;
    assert(s =~= tag + seq!['|'] + inner);
    lemma_split_concat(tag, inner, '|');
    lemma_split_concat(dp, dt, '|');
    lemma_split_no_delim(dt, '|');
    let fields = split_char(s, '|');
    assert(fields =~~= seq![tag, dp, dt]);
    assert(fields.len() == 3);
    assert(fields[1] == dp && fields[2] == dt);
    assert(dec_value(dp) == p as nat && dec_value(dt) == t as nat);
}

/// Law: a round-tripped report with a positive total validates to exactly
/// the encoded counts.
pub proof fn lemma_progress_round_trip_update(p: u32, t: u32)
    requires
        t > 0,
    ensures
        spec_evaluate(spec_encode(p as nat, t as nat)) == Ok::<ProgressUpdate, PollError>(
            ProgressUpdate { processed: p, total: t },
        ),
{
    lemma_progress_round_trip(p, t);
}

} // verus!
