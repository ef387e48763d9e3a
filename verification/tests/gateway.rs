use portfolio_core::consts::GAS_OPTIONS_HEX;
use portfolio_core::options::{decode_options, gas_options};
use borsh::BorshSerialize;
use portfolio_core::consts::{
    ADMIN_SEED, BANNED_ACCOUNT_SEED, ENDPOINT_SEEDS, GAS_OPTIONS, NATIVE_SYMBOL, PORTFOLIO_SEED,
    REMOTE_SEED, SOL_VAULT_SEED, TOKEN_DETAILS_SEED, TOKEN_LIST_SEED,
};
use portfolio_core::cpi_utils::{
    account_metas, create_instruction_data, instruction_data, AccountMeta, AccountRef,
    EndpointQuoteParams, EndpointSendParams, GatewayParams, MessagingFee, RegisterOAppParams,
    GLOBAL_PREFIX,
};
use portfolio_core::errors::{BridgeError, PortfolioError, RemoteError};
use portfolio_core::instructions::initialize::{initialize, Initialize, InitializeParams};
use portfolio_core::instructions::quote::{
    outbound, quote, quote_fee, quote_params, Quote, QuoteParams,
};
use portfolio_core::instructions::send::{send, send_params, Send, SendParams};
use portfolio_core::instructions::set_remote::RemoteRegistry;
use portfolio_core::records::Records;
use portfolio_core::seeds::{
    admin_seeds, banned_account_seeds, portfolio_seeds, portfolio_signer_seeds, remote_seeds,
    sol_vault_seeds, token_details_seeds, token_list_seeds,
};
use portfolio_core::state::{BanReason, BannedAccount, GlobalConfig, Portfolio, Remote};
use portfolio_core::xfer::{Tx, XChainMsgType, XFER};

const CALLER: [u8; 32] = [1u8; 32];
const PORTFOLIO: [u8; 32] = [2u8; 32];
const ENDPOINT: [u8; 32] = [3u8; 32];
const RECEIVER: [u8; 32] = [4u8; 32];
const OTHER: [u8; 32] = [5u8; 32];

const SEND_DISCRIMINATOR: [u8; 8] = [102, 251, 20, 187, 65, 75, 12, 69];
const QUOTE_DISCRIMINATOR: [u8; 8] = [149, 42, 109, 247, 134, 146, 213, 123];
const REGISTER_DISCRIMINATOR: [u8; 8] = [129, 89, 71, 68, 11, 82, 210, 125];

fn xfer() -> XFER {
    XFER {
        nonce: 42,
        transaction: Tx::Deposit,
        trader: CALLER,
        symbol: NATIVE_SYMBOL,
        quantity: [0, 0, 0, 1_000_000],
        timestamp: 1_700_000_000,
        custom_data: [9u8; 18],
        message_type: XChainMsgType::XFER,
    }
}

fn remotes() -> RemoteRegistry {
    let mut remotes = RemoteRegistry::new();
    remotes.register(30106, Remote { address: RECEIVER, bump: 253 }).unwrap();
    remotes
}

fn portfolio(paused: bool) -> Portfolio {
    Portfolio {
        admin: CALLER,
        global_config: GlobalConfig {
            allow_deposit: true,
            program_paused: paused,
            native_deposits_restricted: false,
            src_chain_id: 7,
            default_chain_id: 9,
        },
        endpoint_program: ENDPOINT,
        bump: 254,
    }
}

fn accounts() -> Vec<AccountRef> {
    vec![
        AccountRef { key: ENDPOINT, is_signer: false, is_writable: false },
        AccountRef { key: PORTFOLIO, is_signer: false, is_writable: false },
        AccountRef { key: OTHER, is_signer: false, is_writable: true },
        AccountRef { key: CALLER, is_signer: true, is_writable: true },
    ]
}

fn quote_ctx() -> Quote {
    Quote { portfolio: PORTFOLIO, endpoint_program: ENDPOINT, remaining_accounts: accounts() }
}

fn send_ctx() -> Send {
    Send {
        caller: CALLER,
        portfolio: PORTFOLIO,
        endpoint_program: ENDPOINT,
        remaining_accounts: accounts(),
    }
}

#[test]
fn the_execution_options_are_the_agreed_blob() {
    assert_eq!(
        hex::decode("00030100110100000000000000000000000000061a80").unwrap(),
        GAS_OPTIONS.to_vec()
    );
}

#[test]
fn the_tags_are_the_agreed_names() {
    assert_eq!(&PORTFOLIO_SEED[..], b"Portfolio");
    assert_eq!(&SOL_VAULT_SEED[..], b"SolVault");
    assert_eq!(&REMOTE_SEED[..], b"Remote");
    assert_eq!(&ADMIN_SEED[..], b"Admin");
    assert_eq!(&BANNED_ACCOUNT_SEED[..], b"Banned");
    assert_eq!(&TOKEN_LIST_SEED[..], b"token_list");
    assert_eq!(&TOKEN_DETAILS_SEED[..], b"token_details");
    assert_eq!(&ENDPOINT_SEEDS[..], b"Endpoint");
    assert_eq!(&GLOBAL_PREFIX[..], b"global:");
    assert_eq!(&NATIVE_SYMBOL[..3], b"SOL");
    assert_eq!(&NATIVE_SYMBOL[3..], &[0u8; 29][..]);
}

#[test]
fn seeds_are_the_tag_and_what_tells_the_record_apart() {
    assert_eq!(portfolio_seeds(), vec![b"Portfolio".to_vec()]);
    assert_eq!(sol_vault_seeds(), vec![b"SolVault".to_vec()]);
    assert_eq!(portfolio_signer_seeds(254), vec![b"Portfolio".to_vec(), vec![254]]);
    assert_eq!(remote_seeds(30106), vec![b"Remote".to_vec(), 30106u32.to_be_bytes().to_vec()]);
    assert_eq!(remote_seeds(5), vec![b"Remote".to_vec(), vec![0, 0, 0, 5]]);
    assert_eq!(admin_seeds(&CALLER), vec![b"Admin".to_vec(), CALLER.to_vec()]);
    assert_eq!(banned_account_seeds(&OTHER), vec![b"Banned".to_vec(), OTHER.to_vec()]);
    assert_eq!(token_list_seeds(0), vec![b"token_list".to_vec(), b"0".to_vec()]);
    assert_eq!(token_list_seeds(7), vec![b"token_list".to_vec(), b"7".to_vec()]);
    assert_eq!(token_list_seeds(1203), vec![b"token_list".to_vec(), b"1203".to_vec()]);
    assert_eq!(
        token_list_seeds(u32::MAX),
        vec![b"token_list".to_vec(), b"4294967295".to_vec()]
    );
    assert_eq!(
        token_details_seeds(&NATIVE_SYMBOL),
        vec![b"token_details".to_vec(), NATIVE_SYMBOL.to_vec()]
    );
}

#[test]
fn send_params_are_laid_out_field_after_field() {
    let params = EndpointSendParams {
        dst_eid: 30106,
        receiver: RECEIVER,
        message: vec![1, 2, 3],
        options: GAS_OPTIONS.to_vec(),
        native_fee: 0x11b24f,
        lz_token_fee: 7,
    };
    let mut expected = Vec::new();
    expected.extend_from_slice(&30106u32.to_le_bytes());
    expected.extend_from_slice(&RECEIVER);
    expected.extend_from_slice(&[3, 0, 0, 0, 1, 2, 3]);
    expected.extend_from_slice(&[22, 0, 0, 0]);
    expected.extend_from_slice(&GAS_OPTIONS);
    expected.extend_from_slice(&0x11b24fu64.to_le_bytes());
    expected.extend_from_slice(&7u64.to_le_bytes());
    assert_eq!(params.encode(), expected);
    let reference = (
        params.dst_eid,
        params.receiver,
        params.message.clone(),
        params.options.clone(),
        params.native_fee,
        params.lz_token_fee,
    )
        .try_to_vec()
        .unwrap();
    assert_eq!(params.encode(), reference);
}

#[test]
fn quote_params_are_laid_out_field_after_field() {
    for pay_in_lz_token in [false, true] {
        let params = EndpointQuoteParams {
            sender: PORTFOLIO,
            dst_eid: u32::MAX,
            receiver: RECEIVER,
            message: vec![7u8; 300],
            options: Vec::new(),
            pay_in_lz_token,
        };
        let reference = (
            params.sender,
            params.dst_eid,
            params.receiver,
            params.message.clone(),
            params.options.clone(),
            params.pay_in_lz_token,
        )
            .try_to_vec()
            .unwrap();
        let encoded = params.encode();
        assert_eq!(encoded, reference);
        assert_eq!(encoded.len(), 32 + 4 + 32 + 4 + 300 + 4 + 1);
        assert_eq!(&encoded[68..72], &[44, 1, 0, 0][..]);
        assert_eq!(encoded[encoded.len() - 1], pay_in_lz_token as u8);
    }
}

#[test]
fn register_params_are_the_delegate() {
    let params = RegisterOAppParams { delegate: CALLER };
    assert_eq!(params.encode(), CALLER.to_vec());
    assert_eq!(params.encode(), CALLER.try_to_vec().unwrap());
}

#[test]
fn a_fee_is_read_from_sixteen_bytes() {
    let fee = MessagingFee { native_fee: 0x11b24f, lz_token_fee: u64::MAX };
    let bytes = (fee.native_fee, fee.lz_token_fee).try_to_vec().unwrap();
    assert_eq!(bytes.len(), 16);
    assert_eq!(MessagingFee::try_from_slice(&bytes), Some(fee));
    assert_eq!(
        MessagingFee::try_from_slice(&[1, 0, 0, 0, 0, 0, 0, 0, 0, 1, 0, 0, 0, 0, 0, 0]),
        Some(MessagingFee { native_fee: 1, lz_token_fee: 256 })
    );
    assert_eq!(MessagingFee::try_from_slice(&bytes[..15]), None);
    assert_eq!(MessagingFee::try_from_slice(&[0u8; 17]), None);
    assert_eq!(MessagingFee::try_from_slice(&[]), None);
    assert_eq!(MessagingFee::default(), MessagingFee { native_fee: 0, lz_token_fee: 0 });
}

#[test]
fn quote_fee_reads_the_reply_or_fails() {
    let bytes = (5u64, 6u64).try_to_vec().unwrap();
    assert_eq!(quote_fee(&Some(bytes)), Ok(MessagingFee { native_fee: 5, lz_token_fee: 6 }));
    assert_eq!(quote_fee(&None), Err(PortfolioError::LzQuoteError));
    assert_eq!(quote_fee(&Some(vec![1, 2, 3])), Err(PortfolioError::LzQuoteError));
    assert_eq!(quote_fee(&Some(vec![0u8; 24])), Err(PortfolioError::LzQuoteError));
}

#[test]
fn instruction_data_is_eight_bytes_of_digest_and_the_parameters() {
    let mut digest = [0u8; 32];
    for (i, byte) in digest.iter_mut().enumerate() {
        *byte = i as u8 + 1;
    }
    assert_eq!(instruction_data(&digest, &[200, 201]), vec![1, 2, 3, 4, 5, 6, 7, 8, 200, 201]);
    assert_eq!(instruction_data(&digest, &[]), vec![1, 2, 3, 4, 5, 6, 7, 8]);
}

#[test]
fn the_discriminator_is_the_hash_of_the_prefixed_name() {
    let params = RegisterOAppParams { delegate: CALLER };
    let data = create_instruction_data(&params, "register_oapp");
    assert_eq!(&data[..8], &REGISTER_DISCRIMINATOR[..]);
    assert_eq!(&data[8..], &CALLER[..]);
    let data = create_instruction_data(&params, "send");
    assert_eq!(&data[..8], &SEND_DISCRIMINATOR[..]);
    let data = create_instruction_data(&params, "quote");
    assert_eq!(&data[..8], &QUOTE_DISCRIMINATOR[..]);
    assert_ne!(&data[..8], &b"global:q"[..]);
}

#[test]
fn account_metas_skip_the_gateway_program_and_mark_the_signer() {
    let unsigned = account_metas(&accounts(), None);
    assert_eq!(
        unsigned,
        vec![
            AccountMeta { pubkey: PORTFOLIO, is_signer: false, is_writable: false },
            AccountMeta { pubkey: OTHER, is_signer: false, is_writable: true },
            AccountMeta { pubkey: CALLER, is_signer: true, is_writable: true },
        ]
    );
    let signed = account_metas(&accounts(), Some(&PORTFOLIO));
    assert_eq!(
        signed,
        vec![
            AccountMeta { pubkey: PORTFOLIO, is_signer: true, is_writable: false },
            AccountMeta { pubkey: OTHER, is_signer: false, is_writable: true },
            AccountMeta { pubkey: CALLER, is_signer: true, is_writable: true },
        ]
    );
    assert!(account_metas(&Vec::new(), Some(&PORTFOLIO)).is_empty());
    assert!(account_metas(&accounts()[..1].to_vec(), None).is_empty());
}

#[test]
fn outbound_resolves_and_packs() {
    let ready = outbound(&remotes(), 30106, &xfer()).unwrap();
    assert_eq!(ready.receiver, RECEIVER);
    assert_eq!(ready.message, xfer().pack_xfer_message().unwrap());
    assert_eq!(
        outbound(&remotes(), 1, &xfer()).err(),
        Some(BridgeError::Remote(RemoteError::NotRegistered))
    );
}

#[test]
fn quote_prepares_an_unsigned_call() {
    let params = QuoteParams { dst_eid: 30106, message: xfer() };
    let request = quote_params(&quote_ctx(), &remotes(), &params).unwrap();
    assert_eq!(request.sender, PORTFOLIO);
    assert_eq!(request.dst_eid, 30106);
    assert_eq!(request.receiver, RECEIVER);
    assert_eq!(request.message, xfer().pack_xfer_message().unwrap());
    assert_eq!(request.options, GAS_OPTIONS.to_vec());
    assert!(!request.pay_in_lz_token);
    let call = quote(&quote_ctx(), &remotes(), &params).unwrap();
    assert_eq!(call.instruction.program_id, ENDPOINT);
    assert_eq!(call.instruction.accounts, account_metas(&accounts(), None));
    assert_eq!(&call.instruction.data[..8], &QUOTE_DISCRIMINATOR[..]);
    assert_eq!(&call.instruction.data[8..], &request.encode()[..]);
    assert!(call.signer_seeds.is_empty());
}

#[test]
fn quote_needs_a_registered_remote() {
    let params = QuoteParams { dst_eid: 1, message: xfer() };
    assert_eq!(
        quote(&quote_ctx(), &remotes(), &params).err(),
        Some(BridgeError::Remote(RemoteError::NotRegistered))
    );
    assert_eq!(
        quote_params(&quote_ctx(), &remotes(), &params).err(),
        Some(BridgeError::Remote(RemoteError::NotRegistered))
    );
}

#[test]
fn send_prepares_a_call_signed_by_the_portfolio() {
    let params = SendParams { dst_eid: 30106, message: xfer() };
    let fee = MessagingFee { native_fee: 0x11b24f, lz_token_fee: 0 };
    let banned = Records::new();
    let request =
        send_params(&send_ctx(), &portfolio(false), &banned, &remotes(), &params, &fee).unwrap();
    assert_eq!(request.dst_eid, 30106);
    assert_eq!(request.receiver, RECEIVER);
    assert_eq!(request.message, xfer().pack_xfer_message().unwrap());
    assert_eq!(request.options, GAS_OPTIONS.to_vec());
    assert_eq!(request.native_fee, 0x11b24f);
    assert_eq!(request.lz_token_fee, 0);
    let call = send(&send_ctx(), &portfolio(false), &banned, &remotes(), &params, &fee).unwrap();
    assert_eq!(call.instruction.program_id, ENDPOINT);
    assert_eq!(call.instruction.accounts, account_metas(&accounts(), Some(&PORTFOLIO)));
    assert!(call.instruction.accounts[0].is_signer);
    assert_eq!(&call.instruction.data[..8], &SEND_DISCRIMINATOR[..]);
    assert_eq!(&call.instruction.data[8..], &request.encode()[..]);
    assert_eq!(call.signer_seeds, vec![b"Portfolio".to_vec(), vec![254]]);
}

#[test]
fn quote_and_send_carry_the_same_message() {
    let fee = MessagingFee { native_fee: 10, lz_token_fee: 0 };
    let banned = Records::new();
    let quoted = quote_params(
        &quote_ctx(),
        &remotes(),
        &QuoteParams { dst_eid: 30106, message: xfer() },
    )
    .unwrap();
    let sent = send_params(
        &send_ctx(),
        &portfolio(false),
        &banned,
        &remotes(),
        &SendParams { dst_eid: 30106, message: xfer() },
        &fee,
    )
    .unwrap();
    assert_eq!(quoted.message, sent.message);
    assert_eq!(quoted.message.len(), 128);
    assert_eq!(quoted.receiver, sent.receiver);
    assert_eq!(quoted.options, sent.options);
    assert_eq!(quoted.dst_eid, sent.dst_eid);
}

#[test]
fn send_is_refused_while_paused() {
    let params = SendParams { dst_eid: 30106, message: xfer() };
    let fee = MessagingFee::default();
    let banned = Records::new();
    assert_eq!(
        send(&send_ctx(), &portfolio(true), &banned, &remotes(), &params, &fee).err(),
        Some(BridgeError::Portfolio(PortfolioError::ProgramPaused))
    );
}

#[test]
fn send_is_refused_for_a_banned_caller() {
    let params = SendParams { dst_eid: 30106, message: xfer() };
    let fee = MessagingFee::default();
    let mut banned = Records::new();
    banned.insert(CALLER, BannedAccount { reason: BanReason::Ofac });
    assert_eq!(
        send(&send_ctx(), &portfolio(false), &banned, &remotes(), &params, &fee).err(),
        Some(BridgeError::Portfolio(PortfolioError::AccountBanned))
    );
    assert_eq!(
        send(&send_ctx(), &portfolio(true), &banned, &remotes(), &params, &fee).err(),
        Some(BridgeError::Portfolio(PortfolioError::ProgramPaused))
    );
    let mut other_banned = Records::new();
    other_banned.insert(OTHER, BannedAccount { reason: BanReason::Abuse });
    assert!(send(&send_ctx(), &portfolio(false), &other_banned, &remotes(), &params, &fee).is_ok());
}

#[test]
fn send_needs_a_registered_remote() {
    let params = SendParams { dst_eid: 1, message: xfer() };
    let fee = MessagingFee::default();
    let banned = Records::new();
    assert_eq!(
        send(&send_ctx(), &portfolio(false), &banned, &remotes(), &params, &fee).err(),
        Some(BridgeError::Remote(RemoteError::NotRegistered))
    );
}

#[test]
fn initialize_sets_the_program_up() {
    let ctx = Initialize {
        authority: CALLER,
        portfolio: PORTFOLIO,
        portfolio_bump: 254,
        endpoint_program: ENDPOINT,
        remaining_accounts: accounts(),
    };
    let params = InitializeParams {
        src_chain_id: 7,
        mainnet_rfq: OTHER,
        default_chain_id: 9,
        endpoint_program: RECEIVER,
    };
    let made = initialize(&ctx, &params);
    assert_eq!(made.portfolio.admin, CALLER);
    assert_eq!(made.portfolio.endpoint_program, RECEIVER);
    assert_eq!(made.portfolio.bump, 254);
    assert_eq!(
        made.portfolio.global_config,
        GlobalConfig {
            allow_deposit: true,
            program_paused: false,
            native_deposits_restricted: false,
            src_chain_id: 7,
            default_chain_id: 9,
        }
    );
    assert!(made.admins.contains(&CALLER));
    assert!(!made.admins.contains(&OTHER));
    assert!(!made.admins.contains(&PORTFOLIO));
    assert_eq!(made.token_list.next_page, None);
    assert!(made.token_list.tokens.is_empty());
    assert_eq!(made.register.instruction.program_id, ENDPOINT);
    assert_eq!(made.register.instruction.accounts, account_metas(&accounts(), Some(&PORTFOLIO)));
    assert_eq!(&made.register.instruction.data[..8], &REGISTER_DISCRIMINATOR[..]);
    assert_eq!(&made.register.instruction.data[8..], &CALLER[..]);
    assert_eq!(made.register.signer_seeds, vec![b"Portfolio".to_vec(), vec![254]]);
}

#[test]
fn the_options_are_decoded_from_their_text() {
    assert_eq!(gas_options(), GAS_OPTIONS.to_vec());
    assert_eq!(gas_options().len(), 22);
    assert_eq!(decode_options(GAS_OPTIONS_HEX), Some(GAS_OPTIONS.to_vec()));
    assert_ne!(decode_options(GAS_OPTIONS_HEX), Some(GAS_OPTIONS_HEX.as_bytes().to_vec()));
    assert_eq!(decode_options(""), Some(Vec::new()));
    assert_eq!(decode_options("0aF9"), Some(vec![0x0a, 0xf9]));
    assert_eq!(decode_options("abc"), None);
    assert_eq!(decode_options("0g"), None);
    assert_eq!(decode_options("é0"), None);
    assert_eq!(decode_options("éé"), None);
}
