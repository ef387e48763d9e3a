//! Sending a transfer through the gateway.
//!
//! The core checks that the transfer may go out and prepares the call; the
//! host dispatches it. A call that the gateway refuses changes nothing.
use vstd::prelude::*;
use crate::access::{require_not_banned, require_running};
use crate::consts::{GAS_OPTIONS, PORTFOLIO_SEED};
use crate::cpi_utils::{
    account_metas, create_instruction_data, discriminator, metas_of, send_encoding, AccountRef,
    EndpointSendParams, EndpointSendParamsView, GatewayCall, GatewayParams, Instruction,
    MessagingFee,
};
use crate::options::gas_options;
use crate::errors::{BridgeError, PortfolioError, RemoteError};
use crate::instructions::quote::{outbound, quote_request};
use crate::instructions::set_remote::RemoteRegistry;
use crate::records::Records;
use crate::seeds::portfolio_signer_seeds;
use crate::state::{BannedAccount, Portfolio};
use crate::xfer::{frame_of, XferView, XFER};

verus! {

/// What a send is asked for.
#[derive(Clone, Copy, Debug)]
pub struct SendParams {
    /// The destination chain.
    pub dst_eid: u32,
    /// The transfer to send.
    pub message: XFER,
}

/// Where a send is asked from.
#[derive(Clone, Debug)]
pub struct Send {
    /// The identity that asks for the transfer.
    pub caller: [u8; 32],
    /// The address of the portfolio, which signs the call.
    pub portfolio: [u8; 32],
    /// The program that is the messaging gateway.
    pub endpoint_program: [u8; 32],
    /// The storage that the gateway asks for, the gateway program first.
    pub remaining_accounts: Vec<AccountRef>,
}

/// The parameters that a send hands to the gateway.
pub open spec fn send_request(
    dst_eid: u32,
    receiver: [u8; 32],
    message: XferView,
    fee: MessagingFee,
) -> EndpointSendParamsView {
    EndpointSendParamsView {
        dst_eid,
        receiver,
        message: frame_of(message),
        options: GAS_OPTIONS@,
        native_fee: fee.native_fee,
        lz_token_fee: fee.lz_token_fee,
    }
}

/// Why a send is refused before anything is prepared, if it is: the program
/// is paused, the caller is banned, or the destination chain has no remote,
/// in this order.
pub open spec fn send_refusal(
    portfolio: Portfolio,
    banned: Map<[u8; 32], BannedAccount>,
    remotes: Map<u32, crate::state::Remote>,
    caller: [u8; 32],
    dst_eid: u32,
) -> Option<BridgeError> {
    if portfolio.global_config.program_paused {
        Some(BridgeError::Portfolio(PortfolioError::ProgramPaused))
    } else if banned.contains_key(caller) {
        Some(BridgeError::Portfolio(PortfolioError::AccountBanned))
    } else if !remotes.contains_key(dst_eid) {
        Some(BridgeError::Remote(RemoteError::NotRegistered))
    } else {
        None
    }
}

/// The parameters of the send for `params`: the registered endpoint of the
/// destination chain as receiver, the packed transfer, the fixed execution
/// options, and the fee given, which is to come from a quote.
///
/// Fails as `send` does.
pub fn send_params(
    ctx: &Send,
    portfolio: &Portfolio,
    banned: &Records<BannedAccount>,
    remotes: &RemoteRegistry,
    params: &SendParams,
    fee: &MessagingFee,
) -> (request: Result<EndpointSendParams, BridgeError>)
    ensures
        match send_refusal(*portfolio, banned@, remotes@, ctx.caller, params.dst_eid) {
            Some(e) => request == Err::<EndpointSendParams, BridgeError>(e),
            None => {
                &&& request matches Ok(s)
                &&& s@ == send_request(
                    params.dst_eid,
                    remotes@[params.dst_eid].address,
                    params.message@,
                    *fee,
                )
                &&& s.encodable()
            },
        },
{
    match require_running(&portfolio.global_config) {
        Ok(()) => {},
        Err(e) => {
            return Err(BridgeError::Portfolio(e));
        },
    }
    match require_not_banned(banned, &ctx.caller) {
        Ok(()) => {},
        Err(e) => {
            return Err(BridgeError::Portfolio(e));
        },
    }
    let ready = match outbound(remotes, params.dst_eid, &params.message) {
        Ok(ready) => ready,
        Err(e) => {
            return Err(e);
        },
    };
    let options = gas_options();
    Ok(
        EndpointSendParams {
            dst_eid: params.dst_eid,
            receiver: ready.receiver,
            message: ready.message,
            options,
            native_fee: fee.native_fee,
            lz_token_fee: fee.lz_token_fee,
        },
    )
}

/// Prepares the call that sends a transfer through the gateway.
///
/// The send is refused with `ProgramPaused` while the program is paused,
/// with `AccountBanned` where the caller is banned, and with `NotRegistered`
/// where the destination chain has no remote. Otherwise the call goes to
/// the gateway program, lists the storage handed over with the portfolio as
/// a signer, carries the discriminator of `send` and the parameters of
/// `send_params`, and is signed with the portfolio's seeds.
pub fn send(
    ctx: &Send,
    portfolio: &Portfolio,
    banned: &Records<BannedAccount>,
    remotes: &RemoteRegistry,
    params: &SendParams,
    fee: &MessagingFee,
) -> (call: Result<GatewayCall, BridgeError>)
    ensures
        match send_refusal(*portfolio, banned@, remotes@, ctx.caller, params.dst_eid) {
            Some(e) => call == Err::<GatewayCall, BridgeError>(e),
            None => {
                &&& call matches Ok(c)
                &&& c.instruction.program_id == ctx.endpoint_program
                &&& c.instruction.accounts@ == metas_of(
                    ctx.remaining_accounts@,
                    Some(ctx.portfolio),
                )
                &&& c.instruction.data@ == discriminator("send"@) + send_encoding(
                    send_request(
                        params.dst_eid,
                        remotes@[params.dst_eid].address,
                        params.message@,
                        *fee,
                    ),
                )
                &&& c.signer_seeds.deep_view() == seq![PORTFOLIO_SEED@, seq![portfolio.bump]]
            },
        },
{
    let request = match send_params(ctx, portfolio, banned, remotes, params, fee) {
        Ok(request) => request,
        Err(e) => {
            return Err(e);
        },
    };
    let data = create_instruction_data(&request, "send");
    let accounts = account_metas(&ctx.remaining_accounts, Some(&ctx.portfolio));
    Ok(
        GatewayCall {
            instruction: Instruction { program_id: ctx.endpoint_program, accounts, data },
            signer_seeds: portfolio_signer_seeds(portfolio.bump),
        },
    )
}

/// A quote and a send of the same transfer to the same chain hand the
/// gateway the same message, byte for byte, the same receiver and the same
/// execution options.
pub proof fn lemma_quote_send_parity(
    sender: [u8; 32],
    dst_eid: u32,
    receiver: [u8; 32],
    message: XferView,
    fee: MessagingFee,
)
    ensures
        quote_request(sender, dst_eid, receiver, message).message == send_request(
            dst_eid,
            receiver,
            message,
            fee,
        ).message,
        quote_request(sender, dst_eid, receiver, message).message == frame_of(message),
        quote_request(sender, dst_eid, receiver, message).receiver == send_request(
            dst_eid,
            receiver,
            message,
            fee,
        ).receiver,
        quote_request(sender, dst_eid, receiver, message).options == send_request(
            dst_eid,
            receiver,
            message,
            fee,
        ).options,
        quote_request(sender, dst_eid, receiver, message).dst_eid == send_request(
            dst_eid,
            receiver,
            message,
            fee,
        ).dst_eid,
{
}

} // verus!
