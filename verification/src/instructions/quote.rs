//! Asking the gateway what a transfer would cost. A quote changes nothing.
//!
//! The core prepares the call; the host dispatches it and hands the bytes
//! that the gateway returned to `quote_fee`.
use vstd::prelude::*;
use crate::consts::GAS_OPTIONS;
use crate::cpi_utils::{
    account_metas, create_instruction_data, discriminator, fee_of, metas_of, quote_encoding,
    AccountRef, EndpointQuoteParams, EndpointQuoteParamsView, GatewayCall, GatewayParams,
    Instruction, MessagingFee,
};
use crate::options::gas_options;
use crate::errors::{BridgeError, PortfolioError, RemoteError};
use crate::instructions::set_remote::RemoteRegistry;
use crate::xfer::{frame_of, XferView, XFER};

verus! {

/// What a quote is asked for.
#[derive(Clone, Copy, Debug)]
pub struct QuoteParams {
    /// The destination chain.
    pub dst_eid: u32,
    /// The transfer to quote.
    pub message: XFER,
}

/// Where a quote is asked from.
#[derive(Clone, Debug)]
pub struct Quote {
    /// The address of the portfolio, in whose name the message would go out.
    pub portfolio: [u8; 32],
    /// The program that is the messaging gateway.
    pub endpoint_program: [u8; 32],
    /// The storage that the gateway asks for, the gateway program first.
    pub remaining_accounts: Vec<AccountRef>,
}

/// A transfer made ready for the gateway: the address it goes to and its
/// frame.
#[derive(Clone, Debug)]
pub struct Outbound {
    pub receiver: [u8; 32],
    pub message: Vec<u8>,
}

/// Makes a transfer ready for the gateway: resolves the endpoint on the
/// destination chain and packs the message. Quote and send both go through
/// this step, so both hand the gateway the same receiver and the same bytes.
///
/// Fails with `NotRegistered` where the destination chain has no remote.
pub fn outbound(remotes: &RemoteRegistry, dst_eid: u32, message: &XFER) -> (ready: Result<
    Outbound,
    BridgeError,
>)
    ensures
        !remotes@.contains_key(dst_eid) ==> ready == Err::<Outbound, BridgeError>(
            BridgeError::Remote(RemoteError::NotRegistered),
        ),
        remotes@.contains_key(dst_eid) ==> {
            &&& ready matches Ok(out)
            &&& out.receiver == remotes@[dst_eid].address
            &&& out.message@ == frame_of(message@)
            &&& out.message@.len() == 128
        },
{
    let receiver = match remotes.resolve(dst_eid) {
        Ok(address) => address,
        Err(e) => {
            return Err(BridgeError::Remote(e));
        },
    };
    match message.pack_xfer_message() {
        Ok(packed) => Ok(Outbound { receiver, message: packed }),
        Err(e) => Err(BridgeError::Codec(e)),
    }
}

/// The parameters that a quote hands to the gateway.
pub open spec fn quote_request(
    sender: [u8; 32],
    dst_eid: u32,
    receiver: [u8; 32],
    message: XferView,
) -> EndpointQuoteParamsView {
    EndpointQuoteParamsView {
        sender,
        dst_eid,
        receiver,
        message: frame_of(message),
        options: GAS_OPTIONS@,
        pay_in_lz_token: false,
    }
}

/// The parameters of the quote for `params`: the portfolio as sender, the
/// registered endpoint of the destination chain as receiver, the packed
/// transfer, the fixed execution options, and payment in the native
/// currency.
///
/// Fails with `NotRegistered` where the destination chain has no remote.
pub fn quote_params(ctx: &Quote, remotes: &RemoteRegistry, params: &QuoteParams) -> (request:
    Result<EndpointQuoteParams, BridgeError>)
    ensures
        !remotes@.contains_key(params.dst_eid) ==> request == Err::<
            EndpointQuoteParams,
            BridgeError,
        >(BridgeError::Remote(RemoteError::NotRegistered)),
        remotes@.contains_key(params.dst_eid) ==> {
            &&& request matches Ok(q)
            &&& q@ == quote_request(
                ctx.portfolio,
                params.dst_eid,
                remotes@[params.dst_eid].address,
                params.message@,
            )
            &&& q.encodable()
        },
{
    let ready = match outbound(remotes, params.dst_eid, &params.message) {
        Ok(ready) => ready,
        Err(e) => {
            return Err(e);
        },
    };
    let options = gas_options();
    Ok(
        EndpointQuoteParams {
            sender: ctx.portfolio,
            dst_eid: params.dst_eid,
            receiver: ready.receiver,
            message: ready.message,
            pay_in_lz_token: false,
            options,
        },
    )
}

/// Prepares the call that asks the gateway for a quote.
///
/// Fails with `NotRegistered` where the destination chain has no remote.
/// Otherwise the call goes to the gateway program, lists the storage handed
/// over, carries the discriminator of `quote` and the parameters of
/// `quote_params`, and is signed by nobody.
pub fn quote(ctx: &Quote, remotes: &RemoteRegistry, params: &QuoteParams) -> (call: Result<
    GatewayCall,
    BridgeError,
>)
    ensures
        !remotes@.contains_key(params.dst_eid) ==> call == Err::<GatewayCall, BridgeError>(
            BridgeError::Remote(RemoteError::NotRegistered),
        ),
        remotes@.contains_key(params.dst_eid) ==> {
            &&& call matches Ok(c)
            &&& c.instruction.program_id == ctx.endpoint_program
            &&& c.instruction.accounts@ == metas_of(ctx.remaining_accounts@, None)
            &&& c.instruction.data@ == discriminator("quote"@) + quote_encoding(
                quote_request(
                    ctx.portfolio,
                    params.dst_eid,
                    remotes@[params.dst_eid].address,
                    params.message@,
                ),
            )
            &&& c.signer_seeds@.len() == 0
        },
{
    let request = match quote_params(ctx, remotes, params) {
        Ok(request) => request,
        Err(e) => {
            return Err(e);
        },
    };
    let data = create_instruction_data(&request, "quote");
    let accounts = account_metas(&ctx.remaining_accounts, None);
    Ok(
        GatewayCall {
            instruction: Instruction { program_id: ctx.endpoint_program, accounts, data },
            signer_seeds: Vec::new(),
        },
    )
}

/// Reads the fee from what the gateway returned for a quote.
///
/// Fails with `LzQuoteError` where the gateway returned nothing, or
/// returned bytes that carry no fee.
pub fn quote_fee(return_data: &Option<Vec<u8>>) -> (fee: Result<MessagingFee, PortfolioError>)
    ensures
        fee == match *return_data {
            Some(bytes) => match fee_of(bytes@) {
                Some(f) => Ok::<MessagingFee, PortfolioError>(f),
                None => Err::<MessagingFee, PortfolioError>(PortfolioError::LzQuoteError),
            },
            None => Err::<MessagingFee, PortfolioError>(PortfolioError::LzQuoteError),
        },
{
    match return_data {
        Some(bytes) => match MessagingFee::try_from_slice(bytes.as_slice()) {
            Some(fee) => Ok(fee),
            None => Err(PortfolioError::LzQuoteError),
        },
        None => Err(PortfolioError::LzQuoteError),
    }
}

} // verus!
