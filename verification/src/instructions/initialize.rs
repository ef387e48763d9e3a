//! Setting the program up: the portfolio record with its configuration, the
//! first admin, the first page of the token allow-list, and the call that
//! registers the portfolio with the gateway.
use vstd::prelude::*;
use crate::consts::PORTFOLIO_SEED;
use crate::cpi_utils::{
    account_metas, create_instruction_data, discriminator, metas_of, AccountRef, GatewayCall,
    Instruction, RegisterOAppParams,
};
use crate::records::Records;
use crate::seeds::portfolio_signer_seeds;
use crate::state::{Admin, GlobalConfig, Portfolio, TokenList, TokenListView};

verus! {

/// What the program is set up with.
#[derive(Clone, Copy, Debug)]
pub struct InitializeParams {
    pub src_chain_id: u16,
    pub mainnet_rfq: [u8; 32],
    pub default_chain_id: u32,
    pub endpoint_program: [u8; 32],
}

/// Where the program is set up from.
#[derive(Clone, Debug)]
pub struct Initialize {
    /// The identity that sets the program up. It becomes the first admin and
    /// the delegate that manages the portfolio's entry with the gateway.
    pub authority: [u8; 32],
    /// The address of the portfolio, which signs the call.
    pub portfolio: [u8; 32],
    /// The marker that the host derived with the portfolio's address.
    pub portfolio_bump: u8,
    /// The program that is the messaging gateway.
    pub endpoint_program: [u8; 32],
    /// The storage that the gateway asks for, the gateway program first.
    pub remaining_accounts: Vec<AccountRef>,
}

/// What setting up yields: the records for the host to store, and the call
/// for it to dispatch.
pub struct Initialized {
    pub portfolio: Portfolio,
    pub admins: Records<Admin>,
    pub token_list: TokenList,
    pub register: GatewayCall,
}

/// The configuration that a program starts with: deposits allowed, not
/// paused, native deposits unrestricted.
pub open spec fn initial_config(params: InitializeParams) -> GlobalConfig {
    GlobalConfig {
        allow_deposit: true,
        program_paused: false,
        native_deposits_restricted: false,
        src_chain_id: params.src_chain_id,
        default_chain_id: params.default_chain_id,
    }
}

/// Sets the program up.
///
/// The portfolio record names the authority as its admin and holds the
/// starting configuration. The authority is the one admin. The allow-list
/// has one page, which is empty and has no next page. The call registers
/// the portfolio with the gateway, with the authority as delegate: it goes
/// to the gateway program, lists the storage handed over with the portfolio
/// as a signer, and is signed with the portfolio's seeds.
pub fn initialize(ctx: &Initialize, params: &InitializeParams) -> (made: Initialized)
    ensures
        made.portfolio == (Portfolio {
            admin: ctx.authority,
            global_config: initial_config(*params),
            endpoint_program: params.endpoint_program,
            bump: ctx.portfolio_bump,
        }),
        made.admins@ == Map::<[u8; 32], Admin>::empty().insert(ctx.authority, Admin {  }),
        made.token_list@ == (TokenListView { next_page: None, tokens: Seq::empty() }),
        made.register.instruction.program_id == ctx.endpoint_program,
        made.register.instruction.accounts@ == metas_of(
            ctx.remaining_accounts@,
            Some(ctx.portfolio),
        ),
        made.register.instruction.data@ == discriminator("register_oapp"@) + ctx.authority@,
        made.register.signer_seeds.deep_view() == seq![PORTFOLIO_SEED@, seq![ctx.portfolio_bump]],
{
    let portfolio = Portfolio {
        admin: ctx.authority,
        global_config: GlobalConfig {
            allow_deposit: true,
            program_paused: false,
            native_deposits_restricted: false,
            src_chain_id: params.src_chain_id,
            default_chain_id: params.default_chain_id,
        },
        endpoint_program: params.endpoint_program,
        bump: ctx.portfolio_bump,
    };
    let mut admins: Records<Admin> = Records::new();
    admins.insert(ctx.authority, Admin {  });
    let token_list = TokenList { next_page: None, tokens: Vec::new() };
    let register_params = RegisterOAppParams { delegate: ctx.authority };
    let data = create_instruction_data(&register_params, "register_oapp");
    let accounts = account_metas(&ctx.remaining_accounts, Some(&ctx.portfolio));
    Initialized {
        portfolio,
        admins,
        token_list,
        register: GatewayCall {
            instruction: Instruction { program_id: ctx.endpoint_program, accounts, data },
            signer_seeds: portfolio_signer_seeds(ctx.portfolio_bump),
        },
    }
}

} // verus!
