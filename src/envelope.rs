//! The two kinds of upstream answers, and how each is read into a number or a failure.
use vstd::prelude::*;
use crate::failure::{internal, outcome_view, FailureView, InvocationFailure, INTERNAL_SERVER_ERROR};
use crate::numeric::{
    all_digits, digit_value, digits_value, has_hex_prefix, int_error_text, is_u64_text, meets_bad_digit_first,
    parse_decimal_u64,
    parse_hex_u64, strip_hex_prefixes, trim_hex_prefixes, u64_text_value, unsigned_digits,
};

verus! {

/// The answer to "current block number": a status only when the upstream
/// reports a failure, and a result that is otherwise the number in hex.
#[derive(PartialEq, Eq, Debug)]
pub struct BlockNumberEnvelope {
    pub status: Option<String>,
    pub result: String,
}

/// The answer to "block reward", one of two shapes with no common tag.
#[derive(PartialEq, Eq, Debug)]
pub enum BlockRewardEnvelope {
    Success(BlockRewardSuccess),
    Failure(BlockRewardFailure),
}

/// The success shape: a status, a message, and an object as the result.
#[derive(PartialEq, Eq, Debug)]
pub struct BlockRewardSuccess {
    pub status: String,
    pub message: String,
    pub info: BlockRewardInfo,
}

/// The object of the success shape; the upstream leaves the timestamp out for
/// a block it has no record of, while it still reports success.
#[derive(PartialEq, Eq, Debug)]
pub struct BlockRewardInfo {
    pub timestamp: Option<String>,
}

/// The failure shape: a status and a text as the result.
#[derive(PartialEq, Eq, Debug)]
pub struct BlockRewardFailure {
    pub status: String,
    pub result: String,
}

/// What reading `text` as a `u64` in base `radix` comes to: the number, or an
/// internal failure with the reader's message.
pub open spec fn number_outcome(text: Seq<char>, radix: nat) -> Result<u64, FailureView> {
    if is_u64_text(text, radix) {
        Ok(u64_text_value(text, radix) as u64)
    } else {
        Err(internal(int_error_text(text, radix)))
    }
}

/// The block number that a block-number answer gives: any status at all marks
/// a failure whose message is the result; without one the result, past its
/// leading `0x`, is read in hex.
pub open spec fn block_number_outcome(has_status: bool, result: Seq<char>) -> Result<u64, FailureView> {
    if has_status {
        Err(internal(result))
    } else {
        number_outcome(strip_hex_prefixes(result), 16)
    }
}

/// The block time that a block-reward answer gives: the failure shape fails
/// with its result; the success shape fails with its message where the
/// timestamp is missing, and otherwise reads the timestamp in decimal.
pub open spec fn block_time_outcome(e: BlockRewardEnvelope) -> Result<u64, FailureView> {
    match e {
        BlockRewardEnvelope::Failure(f) => Err(internal(f.result@)),
        BlockRewardEnvelope::Success(s) => match s.info.timestamp {
            None => Err(internal(s.message@)),
            Some(t) => number_outcome(t@, 10),
        },
    }
}

impl BlockNumberEnvelope {
    /// Reads the current block number out of the answer.
    pub fn into_block_number(self) -> (r: Result<u64, InvocationFailure>)
        ensures
            outcome_view(r) == block_number_outcome(self.status is Some, self.result@),
    {
        if self.status.is_none() {
            let digits = trim_hex_prefixes(self.result.as_str());
            InvocationFailure::from_parse(parse_hex_u64(digits))
        } else {
            Err(InvocationFailure { code: INTERNAL_SERVER_ERROR, message: self.result })
        }
    }
}

impl BlockRewardEnvelope {
    /// Reads the block's timestamp out of the answer.
    pub fn into_block_time(self) -> (r: Result<u64, InvocationFailure>)
        ensures
            outcome_view(r) == block_time_outcome(self),
    {
        match self {
            BlockRewardEnvelope::Success(success) => match success.info.timestamp {
                Some(timestamp) => InvocationFailure::from_parse(parse_decimal_u64(timestamp.as_str())),
                None => Err(InvocationFailure { code: INTERNAL_SERVER_ERROR, message: success.message }),
            },
            BlockRewardEnvelope::Failure(failure) => Err(
                InvocationFailure { code: INTERNAL_SERVER_ERROR, message: failure.result },
            ),
        }
    }
}

/// A block-number answer without a status, whose result is hex digits after an
/// optional `0x`, gives the number those digits spell in base 16.
pub proof fn lemma_hex_result_is_read(prefixed: bool, digits: Seq<char>)
    requires
        digits.len() > 0,
        all_digits(digits, 16),
        digits_value(digits, 16) <= u64::MAX,
    ensures
        block_number_outcome(false, if prefixed { seq!['0', 'x'] + digits } else { digits })
            == Ok::<u64, FailureView>(digits_value(digits, 16) as u64),
{
    let x = 'x';
    assert(digit_value(x) == 33);
    if digits.len() >= 2 {
        assert(digit_value(digits[1]) < 16);
    }
    assert(!has_hex_prefix(digits));
    assert(digits[0] != '+') by {
        assert(digit_value(digits[0]) < 16);
    }
    assert(unsigned_digits(digits) == digits);
    assert(strip_hex_prefixes(digits) == digits);
    assert(is_u64_text(digits, 16));
    if prefixed {
        let s = seq!['0', 'x'] + digits;
        assert(has_hex_prefix(s));
        assert(s.subrange(2, s.len() as int) =~= digits);
        assert(strip_hex_prefixes(s) == digits);
    }
}

proof fn lemma_leading_non_digit(text: Seq<char>, radix: nat)
    requires
        text.len() > 0,
        text[0] != '+',
        digit_value(text[0]) >= radix,
    ensures
        number_outcome(text, radix) == Err::<u64, FailureView>(internal("invalid digit found in string"@)),
{
    assert(unsigned_digits(text) == text);
    assert(!all_digits(text, radix));
    assert(text.take(0) =~= Seq::<char>::empty());
    assert(digits_value(text.take(0), radix) == 0);
    assert(meets_bad_digit_first(text, radix));
}

/// A block-number answer without a status whose result, past its leading
/// `0x`s, begins with a character that is neither a hex digit nor `+` fails
/// with the message "invalid digit found in string".
pub proof fn lemma_non_hex_result_message(result: Seq<char>)
    requires
        strip_hex_prefixes(result).len() > 0,
        strip_hex_prefixes(result)[0] != '+',
        digit_value(strip_hex_prefixes(result)[0]) >= 16,
    ensures
        block_number_outcome(false, result) == Err::<u64, FailureView>(internal("invalid digit found in string"@)),
{
    lemma_leading_non_digit(strip_hex_prefixes(result), 16);
}

/// A block-reward answer of the success shape whose timestamp begins with a
/// character that is neither a decimal digit nor `+` fails with the message
/// "invalid digit found in string".
pub proof fn lemma_non_decimal_timestamp_message(s: BlockRewardSuccess)
    requires
        s.info.timestamp is Some,
        s.info.timestamp->Some_0@.len() > 0,
        s.info.timestamp->Some_0@[0] != '+',
        digit_value(s.info.timestamp->Some_0@[0]) >= 10,
    ensures
        block_time_outcome(BlockRewardEnvelope::Success(s)) == Err::<u64, FailureView>(
            internal("invalid digit found in string"@),
        ),
{
    lemma_leading_non_digit(s.info.timestamp->Some_0@, 10);
}

} // verus!
