use eth_proxy::envelope::{
    BlockNumberEnvelope, BlockRewardEnvelope, BlockRewardFailure, BlockRewardInfo, BlockRewardSuccess,
};
use eth_proxy::failure::InvocationFailure;
use eth_proxy::upstream::{BlockNumber, BlockTime};

fn number_envelope(status: Option<&str>, result: &str) -> BlockNumberEnvelope {
    BlockNumberEnvelope {
        status: status.map(|s| s.to_string()),
        result: result.to_string(),
    }
}

fn success(status: &str, message: &str, timestamp: Option<&str>) -> BlockRewardEnvelope {
    BlockRewardEnvelope::Success(BlockRewardSuccess {
        status: status.to_string(),
        message: message.to_string(),
        info: BlockRewardInfo {
            timestamp: timestamp.map(|t| t.to_string()),
        },
    })
}

#[test]
fn test_block_number_from_error() {
    let block_number = number_envelope(Some("0"), "Max rate limit reached");
    let result: Result<BlockNumber, InvocationFailure> = block_number.into_block_number();
    assert_eq!(result, Err(InvocationFailure::failure("Max rate limit reached")));
}

#[test]
fn test_block_number_from_success() {
    let block_number = number_envelope(None, "0x01ab");
    assert_eq!(block_number.into_block_number(), Ok(427));
}

#[test]
fn test_block_number_from_success_invalid_hex() {
    let block_number = number_envelope(None, "0xxyz");
    let result: Result<BlockNumber, InvocationFailure> = block_number.into_block_number();
    assert_eq!(result, Err(InvocationFailure::failure("invalid digit found in string")));
}

#[test]
fn test_block_time_from_error() {
    let block_time = BlockRewardEnvelope::Failure(BlockRewardFailure {
        status: "0".to_string(),
        result: "Max rate limit reached".to_string(),
    });
    let result: Result<BlockTime, InvocationFailure> = block_time.into_block_time();
    assert_eq!(result, Err(InvocationFailure::failure("Max rate limit reached")));
}

#[test]
fn test_block_time_from_error_no_record_found() {
    let block_time = success("0", "No record found", None);
    let result: Result<BlockTime, InvocationFailure> = block_time.into_block_time();
    assert_eq!(result, Err(InvocationFailure::failure("No record found")));
}

#[test]
fn test_block_time_from_success() {
    let block_time = success("1", "OK", Some("123456789"));
    let result: Result<BlockTime, InvocationFailure> = block_time.into_block_time();
    assert_eq!(result, Ok(123456789));
}

#[test]
fn test_block_time_from_success_invalid_timestamp() {
    let block_time = success("1", "OK", Some("abcdefghij"));
    let result: Result<BlockTime, InvocationFailure> = block_time.into_block_time();
    assert_eq!(result, Err(InvocationFailure::failure("invalid digit found in string")));
}

#[test]
fn block_number_any_status_is_a_failure() {
    let result = number_envelope(Some("1"), "0x10").into_block_number();
    assert_eq!(result, Err(InvocationFailure::failure("0x10")));
    assert_eq!(result.unwrap_err().code(), 500);
}

#[test]
fn block_number_without_prefix() {
    assert_eq!(number_envelope(None, "ff").into_block_number(), Ok(255));
    assert_eq!(number_envelope(None, "0xFF").into_block_number(), Ok(255));
    assert_eq!(number_envelope(None, "0x0").into_block_number(), Ok(0));
}

#[test]
fn block_number_repeated_prefixes_are_all_taken_off() {
    assert_eq!(number_envelope(None, "0x0x10").into_block_number(), Ok(16));
}

#[test]
fn block_number_largest_value() {
    assert_eq!(
        number_envelope(None, "0xffffffffffffffff").into_block_number(),
        Ok(u64::MAX)
    );
}

#[test]
fn block_number_too_large() {
    let result = number_envelope(None, "0x10000000000000000").into_block_number();
    assert_eq!(result, Err(InvocationFailure::failure("number too large to fit in target type")));
}

#[test]
fn block_number_empty_digits() {
    let result = number_envelope(None, "0x").into_block_number();
    assert_eq!(result, Err(InvocationFailure::failure("cannot parse integer from empty string")));
}

#[test]
fn block_time_is_read_in_decimal() {
    assert_eq!(success("1", "OK", Some("0010")).into_block_time(), Ok(10));
    let result = success("1", "OK", Some("0x10")).into_block_time();
    assert_eq!(result, Err(InvocationFailure::failure("invalid digit found in string")));
}

#[test]
fn block_time_empty_timestamp() {
    let result = success("1", "OK", Some("")).into_block_time();
    assert_eq!(result, Err(InvocationFailure::failure("cannot parse integer from empty string")));
}
