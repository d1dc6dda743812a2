//! The two calls to the block explorer: where they go, and what is decided
//! between and after them. The calls themselves are made by the caller.
use vstd::prelude::*;
use vstd::string::StringExecFns;
use crate::envelope::{block_number_outcome, block_time_outcome, BlockNumberEnvelope, BlockRewardEnvelope};
use crate::failure::{outcome_view, FailureView, InvocationFailure};
use crate::numeric::{decimal_text, u64_to_decimal};

verus! {

/// The canonical index of a block.
pub type BlockNumber = u64;

/// A Unix timestamp, in seconds.
pub type BlockTime = u64;

/// The answer of the proxy: the current block and the time it was produced.
#[derive(PartialEq, Eq, Structural, Debug, Clone, Copy)]
pub struct CurrentBlockTime {
    pub block_number: BlockNumber,
    pub timestamp: BlockTime,
}

impl CurrentBlockTime {
    pub fn new(block_number: BlockNumber, timestamp: BlockTime) -> (r: CurrentBlockTime)
        ensures
            r.block_number == block_number,
            r.timestamp == timestamp,
    {
        CurrentBlockTime { block_number, timestamp }
    }
}

/// The block explorer to ask: its domain and the key to ask with.
pub struct Etherscan {
    pub domain: String,
    pub api_key: String,
}

/// The address of the "current block number" query.
pub open spec fn block_number_url(domain: Seq<char>, api_key: Seq<char>) -> Seq<char> {
    "https://"@ + domain + "/api?module=proxy&action=eth_blockNumber&apikey="@ + api_key
}

/// The address of the "block reward" query for block `n`.
pub open spec fn block_time_url(domain: Seq<char>, api_key: Seq<char>, n: nat) -> Seq<char> {
    "https://"@ + domain + "/api?module=block&action=getblockreward&blockno="@ + decimal_text(n)
        + "&apikey="@ + api_key
}

/// Where a request stands once the block number has been asked for.
pub enum Step {
    /// Ask next for the time of this block, at this address.
    FetchBlockTime { block_number: BlockNumber, url: String },
    /// Nothing more to ask: this is the answer.
    Finished(Result<CurrentBlockTime, InvocationFailure>),
}

/// What a step stands for.
pub enum StepView {
    FetchBlockTime { block_number: BlockNumber, url: Seq<char> },
    Finished(Result<CurrentBlockTime, FailureView>),
}

impl View for Step {
    type V = StepView;

    open spec fn view(&self) -> StepView {
        match self {
            Step::FetchBlockTime { block_number, url } => StepView::FetchBlockTime {
                block_number: *block_number,
                url: url@,
            },
            Step::Finished(r) => StepView::Finished(outcome_view(*r)),
        }
    }
}

/// The step that follows the block-number call: its failure, or the failure
/// that its answer reports, ends the request; a block number leads on to the
/// block-time call for that number.
pub open spec fn step_after_block_number(
    domain: Seq<char>,
    api_key: Seq<char>,
    fetched: Result<BlockNumberEnvelope, InvocationFailure>,
) -> StepView {
    match fetched {
        Err(f) => StepView::Finished(Err(f@)),
        Ok(e) => match block_number_outcome(e.status is Some, e.result@) {
            Err(f) => StepView::Finished(Err(f)),
            Ok(n) => StepView::FetchBlockTime {
                block_number: n,
                url: block_time_url(domain, api_key, n as nat),
            },
        },
    }
}

/// The answer once the block-time call for `block_number` is back: its failure,
/// or the failure that its answer reports, or the pair of number and time.
pub open spec fn answer_after_block_time(
    block_number: BlockNumber,
    fetched: Result<BlockRewardEnvelope, InvocationFailure>,
) -> Result<CurrentBlockTime, FailureView> {
    match fetched {
        Err(f) => Err(f@),
        Ok(e) => match block_time_outcome(e) {
            Err(f) => Err(f),
            Ok(t) => Ok(CurrentBlockTime { block_number, timestamp: t }),
        },
    }
}

impl Etherscan {
    pub fn new(domain: &str, api_key: &str) -> (r: Etherscan)
        ensures
            r.domain@ == domain@,
            r.api_key@ == api_key@,
    {
        Etherscan { domain: String::from_str(domain), api_key: String::from_str(api_key) }
    }

    /// The address of the first call of every request.
    pub fn current_block_number_url(&self) -> (r: String)
        ensures
            r@ == block_number_url(self.domain@, self.api_key@),
    {
        let mut url = String::from_str("https://");
        url.append(self.domain.as_str());
        url.append("/api?module=proxy&action=eth_blockNumber&apikey=");
        url.append(self.api_key.as_str());
        url
    }

    /// The address of the block-time call for block `n`.
    pub fn block_time_url(&self, n: BlockNumber) -> (r: String)
        ensures
            r@ == block_time_url(self.domain@, self.api_key@, n as nat),
    {
        let number = u64_to_decimal(n);
        let mut url = String::from_str("https://");
        url.append(self.domain.as_str());
        url.append("/api?module=block&action=getblockreward&blockno=");
        url.append(number.as_str());
        url.append("&apikey=");
        url.append(self.api_key.as_str());
        url
    }

    /// Decides what follows the block-number call, given what it brought back:
    /// the transport or decode failure, or the decoded answer.
    pub fn after_block_number(&self, fetched: Result<BlockNumberEnvelope, InvocationFailure>) -> (r: Step)
        ensures
            r@ == step_after_block_number(self.domain@, self.api_key@, fetched),
    {
        match fetched {
            Err(f) => Step::Finished(Err(f)),
            Ok(envelope) => match envelope.into_block_number() {
                Err(f) => Step::Finished(Err(f)),
                Ok(n) => Step::FetchBlockTime { block_number: n, url: self.block_time_url(n) },
            },
        }
    }

    /// The answer of the request, given the block number and what the
    /// block-time call brought back.
    pub fn after_block_time(block_number: BlockNumber, fetched: Result<BlockRewardEnvelope, InvocationFailure>) -> (r:
        Result<CurrentBlockTime, InvocationFailure>)
        ensures
            outcome_view(r) == answer_after_block_time(block_number, fetched),
    {
        match fetched {
            Err(f) => Err(f),
            Ok(envelope) => match envelope.into_block_time() {
                Err(f) => Err(f),
                Ok(t) => Ok(CurrentBlockTime::new(block_number, t)),
            },
        }
    }
}

/// When the block-number call fails, or its answer reports a failure or holds
/// no number, the request ends with that very failure and the block-time call
/// is never made.
pub proof fn lemma_first_failure_ends_request(
    domain: Seq<char>,
    api_key: Seq<char>,
    fetched: Result<BlockNumberEnvelope, InvocationFailure>,
)
    requires
        fetched is Err || block_number_outcome(fetched->Ok_0.status is Some, fetched->Ok_0.result@) is Err,
    ensures
        step_after_block_number(domain, api_key, fetched) is Finished,
        step_after_block_number(domain, api_key, fetched) == StepView::Finished(
            match fetched {
                Err(f) => Err(f@),
                Ok(e) => Err(block_number_outcome(e.status is Some, e.result@)->Err_0),
            },
        ),
{
}

/// When both calls succeed, the answer pairs the block number read from the
/// first with the timestamp read from the second, and the second call asks
/// for exactly that block.
pub proof fn lemma_both_succeed(
    domain: Seq<char>,
    api_key: Seq<char>,
    first: BlockNumberEnvelope,
    second: BlockRewardEnvelope,
)
    requires
        block_number_outcome(first.status is Some, first.result@) is Ok,
        block_time_outcome(second) is Ok,
    ensures
        ({
            let n = block_number_outcome(first.status is Some, first.result@)->Ok_0;
            &&& step_after_block_number(domain, api_key, Ok(first)) == (StepView::FetchBlockTime {
                block_number: n,
                url: block_time_url(domain, api_key, n as nat),
            })
            &&& answer_after_block_time(n, Ok(second)) == Ok::<CurrentBlockTime, FailureView>(
                CurrentBlockTime { block_number: n, timestamp: block_time_outcome(second)->Ok_0 },
            )
        }),
{
}

/// When the block-time call fails, or its answer reports a failure or holds no
/// timestamp, the request ends with that very failure.
pub proof fn lemma_second_failure_ends_request(
    block_number: BlockNumber,
    fetched: Result<BlockRewardEnvelope, InvocationFailure>,
)
    requires
        fetched is Err || block_time_outcome(fetched->Ok_0) is Err,
    ensures
        answer_after_block_time(block_number, fetched) == match fetched {
            Err(f) => Err::<CurrentBlockTime, FailureView>(f@),
            Ok(e) => Err(block_time_outcome(e)->Err_0),
        },
{
}

} // verus!
