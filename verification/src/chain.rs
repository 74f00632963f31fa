//! Plain values exchanged with the host chain: what a call is given (block, sender,
//! funds, what the chain's queries report) and what it hands back (messages to
//! dispatch and attributes to emit).
use vstd::prelude::*;

verus! {

/// An amount of one denomination.
#[derive(Clone, Debug, PartialEq, Eq)]
pub struct Coin {
    pub denom: String,
    pub amount: u128,
}

/// The mathematical model of [`Coin`]: texts are sequences of characters, lists are sequences.
pub struct CoinView {
    pub denom: Seq<char>,
    pub amount: u128,
}

impl DeepView for Coin {
    type V = CoinView;

    open spec fn deep_view(&self) -> CoinView {
        CoinView {
            denom: self.denom.deep_view(),
            amount: self.amount.deep_view(),
        }
    }
}

impl View for Coin {
    type V = CoinView;

    open spec fn view(&self) -> CoinView {
        self.deep_view()
    }
}

/// A key and value emitted with a response.
#[derive(Clone, Debug, PartialEq, Eq)]
pub struct Attribute {
    pub key: String,
    pub value: String,
}

/// The mathematical model of [`Attribute`]: texts are sequences of characters, lists are sequences.
pub struct AttributeView {
    pub key: Seq<char>,
    pub value: Seq<char>,
}

impl DeepView for Attribute {
    type V = AttributeView;

    open spec fn deep_view(&self) -> AttributeView {
        AttributeView {
            key: self.key.deep_view(),
            value: self.value.deep_view(),
        }
    }
}

impl View for Attribute {
    type V = AttributeView;

    open spec fn view(&self) -> AttributeView {
        self.deep_view()
    }
}

/// The fee that accompanies a remote instruction, per stage of its delivery.
#[derive(Clone, Debug, PartialEq, Eq)]
pub struct IbcFee {
    pub recv_fee: Vec<Coin>,
    pub ack_fee: Vec<Coin>,
    pub timeout_fee: Vec<Coin>,
}

/// The mathematical model of [`IbcFee`]: texts are sequences of characters, lists are sequences.
pub struct IbcFeeView {
    pub recv_fee: Seq<CoinView>,
    pub ack_fee: Seq<CoinView>,
    pub timeout_fee: Seq<CoinView>,
}

impl DeepView for IbcFee {
    type V = IbcFeeView;

    open spec fn deep_view(&self) -> IbcFeeView {
        IbcFeeView {
            recv_fee: self.recv_fee.deep_view(),
            ack_fee: self.ack_fee.deep_view(),
            timeout_fee: self.timeout_fee.deep_view(),
        }
    }
}

impl View for IbcFee {
    type V = IbcFeeView;

    open spec fn view(&self) -> IbcFeeView {
        self.deep_view()
    }
}

/// One encoded instruction for the remote chain: the name of its type and its bytes.
#[derive(Clone, Debug, PartialEq, Eq)]
pub struct ProtobufAny {
    pub type_url: String,
    pub value: Vec<u8>,
}

/// The mathematical model of [`ProtobufAny`]: texts are sequences of characters, lists are sequences.
pub struct ProtobufAnyView {
    pub type_url: Seq<char>,
    pub value: Seq<u8>,
}

impl DeepView for ProtobufAny {
    type V = ProtobufAnyView;

    open spec fn deep_view(&self) -> ProtobufAnyView {
        ProtobufAnyView {
            type_url: self.type_url.deep_view(),
            value: self.value.deep_view(),
        }
    }
}

impl View for ProtobufAny {
    type V = ProtobufAnyView;

    open spec fn view(&self) -> ProtobufAnyView {
        self.deep_view()
    }
}

/// One storage key of the remote chain that an observational query watches.
#[derive(Clone, Debug, PartialEq, Eq)]
pub struct KVKey {
    pub path: String,
    pub key: Vec<u8>,
}

/// The mathematical model of [`KVKey`]: texts are sequences of characters, lists are sequences.
pub struct KVKeyView {
    pub path: Seq<char>,
    pub key: Seq<u8>,
}

impl DeepView for KVKey {
    type V = KVKeyView;

    open spec fn deep_view(&self) -> KVKeyView {
        KVKeyView {
            path: self.path.deep_view(),
            key: self.key.deep_view(),
        }
    }
}

impl View for KVKey {
    type V = KVKeyView;

    open spec fn view(&self) -> KVKeyView {
        self.deep_view()
    }
}

/// The block in which a call runs, and the address of the contract.
#[derive(Clone, Debug, PartialEq, Eq)]
pub struct Env {
    pub block_height: u64,
    /// Time of the block, in nanoseconds since the epoch.
    pub block_time_nanos: u64,
    pub contract_address: String,
}

/// The mathematical model of [`Env`]: texts are sequences of characters, lists are sequences.
pub struct EnvView {
    pub block_height: u64,
    pub block_time_nanos: u64,
    pub contract_address: Seq<char>,
}

impl DeepView for Env {
    type V = EnvView;

    open spec fn deep_view(&self) -> EnvView {
        EnvView {
            block_height: self.block_height.deep_view(),
            block_time_nanos: self.block_time_nanos.deep_view(),
            contract_address: self.contract_address.deep_view(),
        }
    }
}

impl View for Env {
    type V = EnvView;

    open spec fn view(&self) -> EnvView {
        self.deep_view()
    }
}

/// Who sent a call, and the funds sent with it.
#[derive(Clone, Debug, PartialEq, Eq)]
pub struct MessageInfo {
    pub sender: String,
    pub funds: Vec<Coin>,
}

/// The mathematical model of [`MessageInfo`]: texts are sequences of characters, lists are sequences.
pub struct MessageInfoView {
    pub sender: Seq<char>,
    pub funds: Seq<CoinView>,
}

impl DeepView for MessageInfo {
    type V = MessageInfoView;

    open spec fn deep_view(&self) -> MessageInfoView {
        MessageInfoView {
            sender: self.sender.deep_view(),
            funds: self.funds.deep_view(),
        }
    }
}

impl View for MessageInfo {
    type V = MessageInfoView;

    open spec fn view(&self) -> MessageInfoView {
        self.deep_view()
    }
}

/// What one delegator has bonded with one validator of the remote chain.
#[derive(Clone, Debug, PartialEq, Eq)]
pub struct Delegation {
    pub delegator: String,
    pub validator: String,
    pub amount: Coin,
}

/// The mathematical model of [`Delegation`]: texts are sequences of characters, lists are sequences.
pub struct DelegationView {
    pub delegator: Seq<char>,
    pub validator: Seq<char>,
    pub amount: CoinView,
}

impl DeepView for Delegation {
    type V = DelegationView;

    open spec fn deep_view(&self) -> DelegationView {
        DelegationView {
            delegator: self.delegator.deep_view(),
            validator: self.validator.deep_view(),
            amount: self.amount.deep_view(),
        }
    }
}

impl View for Delegation {
    type V = DelegationView;

    open spec fn view(&self) -> DelegationView {
        self.deep_view()
    }
}

/// The delegations last observed for an account, with the local height at which they were submitted.
#[derive(Clone, Debug, PartialEq, Eq)]
pub struct DelegatorDelegationsResponse {
    pub delegations: Vec<Delegation>,
    pub last_submitted_local_height: u64,
}

/// The mathematical model of [`DelegatorDelegationsResponse`]: texts are sequences of characters, lists are sequences.
pub struct DelegatorDelegationsResponseView {
    pub delegations: Seq<DelegationView>,
    pub last_submitted_local_height: u64,
}

impl DeepView for DelegatorDelegationsResponse {
    type V = DelegatorDelegationsResponseView;

    open spec fn deep_view(&self) -> DelegatorDelegationsResponseView {
        DelegatorDelegationsResponseView {
            delegations: self.delegations.deep_view(),
            last_submitted_local_height: self.last_submitted_local_height.deep_view(),
        }
    }
}

impl View for DelegatorDelegationsResponse {
    type V = DelegatorDelegationsResponseView;

    open spec fn view(&self) -> DelegatorDelegationsResponseView {
        self.deep_view()
    }
}

/// The coins an account of the remote chain holds.
#[derive(Clone, Debug, PartialEq, Eq)]
pub struct Balances {
    pub coins: Vec<Coin>,
}

/// The mathematical model of [`Balances`]: texts are sequences of characters, lists are sequences.
pub struct BalancesView {
    pub coins: Seq<CoinView>,
}

impl DeepView for Balances {
    type V = BalancesView;

    open spec fn deep_view(&self) -> BalancesView {
        BalancesView {
            coins: self.coins.deep_view(),
        }
    }
}

impl View for Balances {
    type V = BalancesView;

    open spec fn view(&self) -> BalancesView {
        self.deep_view()
    }
}

/// The balance last observed for an account, with the local height at which it was submitted.
#[derive(Clone, Debug, PartialEq, Eq)]
pub struct BalanceResponse {
    pub balances: Balances,
    pub last_submitted_local_height: u64,
}

/// The mathematical model of [`BalanceResponse`]: texts are sequences of characters, lists are sequences.
pub struct BalanceResponseView {
    pub balances: BalancesView,
    pub last_submitted_local_height: u64,
}

impl DeepView for BalanceResponse {
    type V = BalanceResponseView;

    open spec fn deep_view(&self) -> BalanceResponseView {
        BalanceResponseView {
            balances: self.balances.deep_view(),
            last_submitted_local_height: self.last_submitted_local_height.deep_view(),
        }
    }
}

impl View for BalanceResponse {
    type V = BalanceResponseView;

    open spec fn view(&self) -> BalanceResponseView {
        self.deep_view()
    }
}

/// What is read of a validator of the remote chain: its address, its tokens and its
/// delegator shares, the last two as decimal numerals.
#[derive(Clone, Debug, PartialEq, Eq)]
pub struct Validator {
    pub operator_address: String,
    pub tokens: String,
    pub delegator_shares: String,
}

/// The mathematical model of [`Validator`]: texts are sequences of characters, lists are sequences.
pub struct ValidatorView {
    pub operator_address: Seq<char>,
    pub tokens: Seq<char>,
    pub delegator_shares: Seq<char>,
}

impl DeepView for Validator {
    type V = ValidatorView;

    open spec fn deep_view(&self) -> ValidatorView {
        ValidatorView {
            operator_address: self.operator_address.deep_view(),
            tokens: self.tokens.deep_view(),
            delegator_shares: self.delegator_shares.deep_view(),
        }
    }
}

impl View for Validator {
    type V = ValidatorView;

    open spec fn view(&self) -> ValidatorView {
        self.deep_view()
    }
}

/// The validators last observed for a pool, with the local height at which they were submitted.
#[derive(Clone, Debug, PartialEq, Eq)]
pub struct ValidatorResponse {
    pub validators: Vec<Validator>,
    pub last_submitted_local_height: u64,
}

/// The mathematical model of [`ValidatorResponse`]: texts are sequences of characters, lists are sequences.
pub struct ValidatorResponseView {
    pub validators: Seq<ValidatorView>,
    pub last_submitted_local_height: u64,
}

impl DeepView for ValidatorResponse {
    type V = ValidatorResponseView;

    open spec fn deep_view(&self) -> ValidatorResponseView {
        ValidatorResponseView {
            validators: self.validators.deep_view(),
            last_submitted_local_height: self.last_submitted_local_height.deep_view(),
        }
    }
}

impl View for ValidatorResponse {
    type V = ValidatorResponseView;

    open spec fn view(&self) -> ValidatorResponseView {
        self.deep_view()
    }
}

/// How a notification names the remote instruction it is about.
#[derive(Clone, Debug, PartialEq, Eq)]
pub struct RequestPacket {
    pub sequence: Option<u64>,
    pub source_channel: Option<String>,
}

/// The mathematical model of [`RequestPacket`]: texts are sequences of characters, lists are sequences.
pub struct RequestPacketView {
    pub sequence: Option<u64>,
    pub source_channel: Option<Seq<char>>,
}

impl DeepView for RequestPacket {
    type V = RequestPacketView;

    open spec fn deep_view(&self) -> RequestPacketView {
        RequestPacketView {
            sequence: self.sequence.deep_view(),
            source_channel: self.source_channel.deep_view(),
        }
    }
}

impl View for RequestPacket {
    type V = RequestPacketView;

    open spec fn view(&self) -> RequestPacketView {
        self.deep_view()
    }
}

/// The parameters with which the receipt-token contract of a pool is created.
#[derive(Clone, Debug, PartialEq, Eq)]
pub struct LsdTokenInit {
    pub admin: String,
    pub code_id: u64,
    pub name: String,
    pub symbol: String,
    pub decimals: u8,
    pub minter: String,
    pub label: String,
    pub salt: String,
}

/// The mathematical model of [`LsdTokenInit`]: texts are sequences of characters, lists are sequences.
pub struct LsdTokenInitView {
    pub admin: Seq<char>,
    pub code_id: u64,
    pub name: Seq<char>,
    pub symbol: Seq<char>,
    pub decimals: u8,
    pub minter: Seq<char>,
    pub label: Seq<char>,
    pub salt: Seq<char>,
}

impl DeepView for LsdTokenInit {
    type V = LsdTokenInitView;

    open spec fn deep_view(&self) -> LsdTokenInitView {
        LsdTokenInitView {
            admin: self.admin.deep_view(),
            code_id: self.code_id.deep_view(),
            name: self.name.deep_view(),
            symbol: self.symbol.deep_view(),
            decimals: self.decimals.deep_view(),
            minter: self.minter.deep_view(),
            label: self.label.deep_view(),
            salt: self.salt.deep_view(),
        }
    }
}

impl View for LsdTokenInit {
    type V = LsdTokenInitView;

    open spec fn view(&self) -> LsdTokenInitView {
        self.deep_view()
    }
}
/// A message that a response asks the chain to dispatch.
#[derive(Clone, Debug, PartialEq, Eq)]
#[allow(inconsistent_fields)]
pub enum CosmosMsg {
    /// Mint receipt tokens of the contract `contract_addr` to `recipient`.
    Mint { contract_addr: String, recipient: String, amount: u128 },
    /// Burn receipt tokens that `owner` holds.
    BurnFrom { contract_addr: String, owner: String, amount: u128 },
    /// Move receipt tokens from `owner` to `recipient`.
    TransferFrom { contract_addr: String, owner: String, recipient: String, amount: u128 },
    /// Create the receipt-token contract of a pool.
    InstantiateLsdToken(LsdTokenInit),
    /// Send coins held by the contract.
    BankSend { to_address: String, amount: Vec<Coin> },
    /// Submit encoded instructions to an interchain account.
    SubmitTx {
        connection_id: String,
        interchain_account_id: String,
        msgs: Vec<ProtobufAny>,
        memo: String,
        timeout: u64,
        fee: IbcFee,
    },
    /// Transfer coins to the remote chain.
    IbcTransfer {
        source_port: String,
        source_channel: String,
        sender: String,
        receiver: String,
        token: Coin,
        timeout_timestamp: u64,
        memo: String,
        fee: IbcFee,
    },
    /// Register an interchain account.
    RegisterInterchainAccount {
        connection_id: String,
        interchain_account_id: String,
        register_fee: Option<Vec<Coin>>,
    },
    /// Register an observational query over storage keys of the remote chain.
    RegisterInterchainQuery { keys: Vec<KVKey>, connection_id: String, update_period: u64 },
    /// Change the keys or the refresh interval of a registered observational query.
    UpdateInterchainQuery {
        query_id: u64,
        new_keys: Option<Vec<KVKey>>,
        new_update_period: Option<u64>,
    },
}

/// The mathematical model of [`CosmosMsg`].
#[allow(inconsistent_fields)]
pub enum CosmosMsgView {
    Mint { contract_addr: Seq<char>, recipient: Seq<char>, amount: u128 },
    BurnFrom { contract_addr: Seq<char>, owner: Seq<char>, amount: u128 },
    TransferFrom { contract_addr: Seq<char>, owner: Seq<char>, recipient: Seq<char>, amount: u128 },
    InstantiateLsdToken(LsdTokenInitView),
    BankSend { to_address: Seq<char>, amount: Seq<CoinView> },
    SubmitTx {
        connection_id: Seq<char>,
        interchain_account_id: Seq<char>,
        msgs: Seq<ProtobufAnyView>,
        memo: Seq<char>,
        timeout: u64,
        fee: IbcFeeView,
    },
    IbcTransfer {
        source_port: Seq<char>,
        source_channel: Seq<char>,
        sender: Seq<char>,
        receiver: Seq<char>,
        token: CoinView,
        timeout_timestamp: u64,
        memo: Seq<char>,
        fee: IbcFeeView,
    },
    RegisterInterchainAccount {
        connection_id: Seq<char>,
        interchain_account_id: Seq<char>,
        register_fee: Option<Seq<CoinView>>,
    },
    RegisterInterchainQuery { keys: Seq<KVKeyView>, connection_id: Seq<char>, update_period: u64 },
    UpdateInterchainQuery {
        query_id: u64,
        new_keys: Option<Seq<KVKeyView>>,
        new_update_period: Option<u64>,
    },
}

impl DeepView for CosmosMsg {
    type V = CosmosMsgView;

    open spec fn deep_view(&self) -> CosmosMsgView {
        match self {
            CosmosMsg::Mint { contract_addr, recipient, amount } => CosmosMsgView::Mint {
                contract_addr: contract_addr@,
                recipient: recipient@,
                amount: *amount,
            },
            CosmosMsg::BurnFrom { contract_addr, owner, amount } => CosmosMsgView::BurnFrom {
                contract_addr: contract_addr@,
                owner: owner@,
                amount: *amount,
            },
            CosmosMsg::TransferFrom {
                contract_addr,
                owner,
                recipient,
                amount,
            } => CosmosMsgView::TransferFrom {
                contract_addr: contract_addr@,
                owner: owner@,
                recipient: recipient@,
                amount: *amount,
            },
            CosmosMsg::InstantiateLsdToken(init) => CosmosMsgView::InstantiateLsdToken(init@),
            CosmosMsg::BankSend { to_address, amount } => CosmosMsgView::BankSend {
                to_address: to_address@,
                amount: amount.deep_view(),
            },
            CosmosMsg::SubmitTx {
                connection_id,
                interchain_account_id,
                msgs,
                memo,
                timeout,
                fee,
            } => CosmosMsgView::SubmitTx {
                connection_id: connection_id@,
                interchain_account_id: interchain_account_id@,
                msgs: msgs.deep_view(),
                memo: memo@,
                timeout: *timeout,
                fee: fee@,
            },
            CosmosMsg::IbcTransfer {
                source_port,
                source_channel,
                sender,
                receiver,
                token,
                timeout_timestamp,
                memo,
                fee,
            } => CosmosMsgView::IbcTransfer {
                source_port: source_port@,
                source_channel: source_channel@,
                sender: sender@,
                receiver: receiver@,
                token: token@,
                timeout_timestamp: *timeout_timestamp,
                memo: memo@,
                fee: fee@,
            },
            CosmosMsg::RegisterInterchainAccount {
                connection_id,
                interchain_account_id,
                register_fee,
            } => CosmosMsgView::RegisterInterchainAccount {
                connection_id: connection_id@,
                interchain_account_id: interchain_account_id@,
                register_fee: register_fee.deep_view(),
            },
            CosmosMsg::RegisterInterchainQuery {
                keys,
                connection_id,
                update_period,
            } => CosmosMsgView::RegisterInterchainQuery {
                keys: keys.deep_view(),
                connection_id: connection_id@,
                update_period: *update_period,
            },
            CosmosMsg::UpdateInterchainQuery {
                query_id,
                new_keys,
                new_update_period,
            } => CosmosMsgView::UpdateInterchainQuery {
                query_id: *query_id,
                new_keys: new_keys.deep_view(),
                new_update_period: *new_update_period,
            },
        }
    }
}

impl View for CosmosMsg {
    type V = CosmosMsgView;

    open spec fn view(&self) -> CosmosMsgView {
        self.deep_view()
    }
}

/// A message of a response. With `reply_on_success` the chain reports the dispatch back
/// under the identifier `id`.
#[derive(Clone, Debug, PartialEq, Eq)]
pub struct SubMsg {
    pub id: u64,
    pub msg: CosmosMsg,
    pub reply_on_success: bool,
}

/// The mathematical model of [`SubMsg`]: texts are sequences of characters, lists are sequences.
pub struct SubMsgView {
    pub id: u64,
    pub msg: CosmosMsgView,
    pub reply_on_success: bool,
}

impl DeepView for SubMsg {
    type V = SubMsgView;

    open spec fn deep_view(&self) -> SubMsgView {
        SubMsgView {
            id: self.id.deep_view(),
            msg: self.msg.deep_view(),
            reply_on_success: self.reply_on_success.deep_view(),
        }
    }
}

impl View for SubMsg {
    type V = SubMsgView;

    open spec fn view(&self) -> SubMsgView {
        self.deep_view()
    }
}

/// What a call hands back: messages to dispatch, in order, and attributes to emit.
#[derive(Clone, Debug, PartialEq, Eq)]
pub struct Response {
    pub messages: Vec<SubMsg>,
    pub attributes: Vec<Attribute>,
}

/// The mathematical model of [`Response`]: texts are sequences of characters, lists are sequences.
pub struct ResponseView {
    pub messages: Seq<SubMsgView>,
    pub attributes: Seq<AttributeView>,
}

impl DeepView for Response {
    type V = ResponseView;

    open spec fn deep_view(&self) -> ResponseView {
        ResponseView {
            messages: self.messages.deep_view(),
            attributes: self.attributes.deep_view(),
        }
    }
}

impl View for Response {
    type V = ResponseView;

    open spec fn view(&self) -> ResponseView {
        self.deep_view()
    }
}
/// Where a remote instruction was dispatched: the channel and the sequence number that its resolution will be addressed by.
#[derive(Clone, Debug, PartialEq, Eq)]
pub struct MsgIbcTransferResponse {
    pub sequence_id: u64,
    pub channel: String,
}

/// The mathematical model of [`MsgIbcTransferResponse`]: texts are sequences of characters, lists are sequences.
pub struct MsgIbcTransferResponseView {
    pub sequence_id: u64,
    pub channel: Seq<char>,
}

impl DeepView for MsgIbcTransferResponse {
    type V = MsgIbcTransferResponseView;

    open spec fn deep_view(&self) -> MsgIbcTransferResponseView {
        MsgIbcTransferResponseView {
            sequence_id: self.sequence_id.deep_view(),
            channel: self.channel.deep_view(),
        }
    }
}

impl View for MsgIbcTransferResponse {
    type V = MsgIbcTransferResponseView;

    open spec fn view(&self) -> MsgIbcTransferResponseView {
        self.deep_view()
    }
}

/// What the remote chain states when it acknowledges the opening of a channel for an interchain account.
#[derive(Clone, Debug, PartialEq, Eq)]
pub struct OpenAckVersion {
    pub version: String,
    pub controller_connection_id: String,
    pub host_connection_id: String,
    pub address: String,
    pub encoding: String,
    pub tx_type: String,
}

/// The mathematical model of [`OpenAckVersion`]: texts are sequences of characters, lists are sequences.
pub struct OpenAckVersionView {
    pub version: Seq<char>,
    pub controller_connection_id: Seq<char>,
    pub host_connection_id: Seq<char>,
    pub address: Seq<char>,
    pub encoding: Seq<char>,
    pub tx_type: Seq<char>,
}

impl DeepView for OpenAckVersion {
    type V = OpenAckVersionView;

    open spec fn deep_view(&self) -> OpenAckVersionView {
        OpenAckVersionView {
            version: self.version.deep_view(),
            controller_connection_id: self.controller_connection_id.deep_view(),
            host_connection_id: self.host_connection_id.deep_view(),
            address: self.address.deep_view(),
            encoding: self.encoding.deep_view(),
            tx_type: self.tx_type.deep_view(),
        }
    }
}

impl View for OpenAckVersion {
    type V = OpenAckVersionView;

    open spec fn view(&self) -> OpenAckVersionView {
        self.deep_view()
    }
}

/// The data of a reply, read in the two forms the contract knows. Each reading is the
/// value read or the reason why the data does not read that way.
#[derive(Debug, PartialEq, Eq)]
pub struct ReplyData {
    /// The data as the result of a dispatched remote instruction.
    pub transfer: Result<MsgIbcTransferResponse, String>,
    /// The data as the result of a query registration: the identifier of the query.
    pub registered_query: Result<u64, String>,
}

/// What the chain reports of a message that was dispatched with a request for a reply.
#[derive(Debug, PartialEq, Eq)]
pub struct Reply {
    /// The identifier that the reply was asked under.
    pub id: u64,
    /// The error of the dispatch, or the data of its result where it has any.
    pub result: Result<Option<ReplyData>, String>,
}

/// A notification of the chain.
#[derive(Clone, Debug, PartialEq, Eq)]
pub enum SudoMsg {
    /// A dispatched remote instruction was acknowledged.
    Response { request: RequestPacket },
    /// A dispatched remote instruction was answered with an error.
    Error { request: RequestPacket },
    /// A dispatched remote instruction timed out.
    Timeout { request: RequestPacket },
    /// An observational query has a new result.
    KVQueryResult { query_id: u64 },
    /// The channel of an interchain account was opened. `counterparty_version` is what
    /// the remote chain stated, where it could be read.
    OpenAck {
        port_id: String,
        channel_id: String,
        counterparty_channel_id: String,
        counterparty_version: Option<OpenAckVersion>,
    },
    /// Any other notification.
    Other,
}

impl Env {
    /// Time of the block in whole seconds.
    pub open spec fn seconds_spec(&self) -> u64 {
        (self.block_time_nanos / 1_000_000_000) as u64
    }

    /// Time of the block in whole seconds.
    pub fn seconds(&self) -> (s: u64)
        ensures
            s == self.seconds_spec(),
    {
        self.block_time_nanos / 1_000_000_000
    }
}

impl Coin {
    /// A copy of this coin.
    pub fn dup(&self) -> (c: Coin)
        ensures
            c@ == self@,
    {
        Coin { denom: self.denom.clone(), amount: self.amount }
    }
}

/// A copy of a list of coins.
pub fn copy_coins(list: &Vec<Coin>) -> (r: Vec<Coin>)
    ensures
        r.deep_view() == list.deep_view(),
{
    let mut r: Vec<Coin> = Vec::new();
    let mut i: usize = 0;
    while i < list.len()
        invariant
            0 <= i <= list.len(),
            r.deep_view() == list.deep_view().subrange(0, i as int),
        decreases list.len() - i,
    {
        let ghost before = r.deep_view();
        r.push(list[i].dup());
        proof {
            assert(r.deep_view() =~= before.push(list[i as int]@));
            assert(list.deep_view().subrange(0, i + 1) =~= before.push(list[i as int]@));
        }
        i += 1;
    }
    proof {
        assert(list.deep_view().subrange(0, list.len() as int) =~= list.deep_view());
    }
    r
}

/// The amount of the first coin of `coins` in the denomination `denom`; zero where there
/// is none.
pub open spec fn amount_of_spec(coins: Seq<CoinView>, denom: Seq<char>) -> u128
    decreases coins.len(),
{
    if coins.len() == 0 {
        0
    } else if coins[0].denom == denom {
        coins[0].amount
    } else {
        amount_of_spec(coins.drop_first(), denom)
    }
}

/// The amount that `coins` holds of the denomination `denom`.
pub fn amount_of(coins: &Vec<Coin>, denom: &String) -> (a: u128)
    ensures
        a == amount_of_spec(coins.deep_view(), denom@),
{
    let mut i: usize = 0;
    let ghost all = coins.deep_view();
    proof {
        assert(all.subrange(0, all.len() as int) =~= all);
    }
    while i < coins.len()
        invariant
            0 <= i <= coins.len(),
            all == coins.deep_view(),
            amount_of_spec(all, denom@) == amount_of_spec(all.subrange(i as int, all.len() as int), denom@),
        decreases coins.len() - i,
    {
        let ghost rest = all.subrange(i as int, all.len() as int);
        proof {
            assert(rest[0] == coins[i as int]@);
            assert(rest.drop_first() =~= all.subrange(i + 1, all.len() as int));
        }
        if coins[i].denom == *denom {
            return coins[i].amount;
        }
        i += 1;
    }
    0
}

impl IbcFee {
    /// A copy of this fee.
    pub fn dup(&self) -> (f: IbcFee)
        ensures
            f@ == self@,
    {
        IbcFee {
            recv_fee: copy_coins(&self.recv_fee),
            ack_fee: copy_coins(&self.ack_fee),
            timeout_fee: copy_coins(&self.timeout_fee),
        }
    }
}

/// The model of a message that no reply is asked for.
pub open spec fn plain_msg(msg: CosmosMsgView) -> SubMsgView {
    SubMsgView { id: 0, msg, reply_on_success: false }
}

/// The model of a message whose successful dispatch is reported back under `id`.
pub open spec fn reply_msg(msg: CosmosMsgView, id: u64) -> SubMsgView {
    SubMsgView { id, msg, reply_on_success: true }
}

/// The model of an attribute.
pub open spec fn attr(key: Seq<char>, value: Seq<char>) -> AttributeView {
    AttributeView { key, value }
}

impl Response {
    /// The response without messages and attributes.
    pub fn new() -> (r: Response)
        ensures
            r@ == (ResponseView { messages: Seq::empty(), attributes: Seq::empty() }),
    {
        let r = Response { messages: Vec::new(), attributes: Vec::new() };
        assert(r@.messages =~= Seq::empty());
        assert(r@.attributes =~= Seq::empty());
        r
    }

    /// Appends a message for which no reply is asked.
    pub fn add_message(&mut self, msg: CosmosMsg)
        ensures
            final(self)@ == (ResponseView {
                messages: old(self)@.messages.push(plain_msg(msg@)),
                ..old(self)@
            }),
    {
        let ghost before = self@;
        self.messages.push(SubMsg { id: 0, msg, reply_on_success: false });
        assert(self@.messages =~= before.messages.push(plain_msg(msg@)));
        assert(self@.attributes =~= before.attributes);
    }

    /// Appends a message whose successful dispatch is reported back under `id`.
    pub fn add_submessage(&mut self, msg: CosmosMsg, id: u64)
        ensures
            final(self)@ == (ResponseView {
                messages: old(self)@.messages.push(reply_msg(msg@, id)),
                ..old(self)@
            }),
    {
        let ghost before = self@;
        self.messages.push(SubMsg { id, msg, reply_on_success: true });
        assert(self@.messages =~= before.messages.push(reply_msg(msg@, id)));
        assert(self@.attributes =~= before.attributes);
    }

    /// Appends a message that was wrapped already.
    pub fn push_message(&mut self, sub: SubMsg)
        ensures
            final(self)@ == (ResponseView {
                messages: old(self)@.messages.push(sub@),
                ..old(self)@
            }),
    {
        let ghost before = self@;
        self.messages.push(sub);
        assert(self@.messages =~= before.messages.push(sub@));
        assert(self@.attributes =~= before.attributes);
    }

    /// Appends an attribute.
    pub fn add_attribute(&mut self, key: &str, value: String)
        ensures
            final(self)@ == (ResponseView {
                attributes: old(self)@.attributes.push(attr(key@, value@)),
                ..old(self)@
            }),
    {
        let ghost before = self@;
        self.attributes.push(Attribute { key: String::from_str(key), value });
        assert(self@.attributes =~= before.attributes.push(attr(key@, value@)));
        assert(self@.messages =~= before.messages);
    }
}

} // verus!
