//! The registration of a pool: a pair of interchain accounts is asked for, one to hold
//! the stake and one to receive the rewards, and the pool comes into being when the
//! remote chain has opened both.
use vstd::prelude::*;
use crate::chain::{
    plain_msg,
    Coin,
    CoinView,
    CosmosMsg,
    CosmosMsgView,
    Env,
    EnvView,
    MessageInfo,
    MessageInfoView,
    OpenAckVersion,
    OpenAckVersionView,
    Response,
    ResponseView,
};
use crate::error_conversion::{ContractError, ContractErrorView};
use crate::helper::{
    agrees,
    empty_response,
    get_withdraw_ica_id,
    FEE_DENOM,
    ICA_WITHDRAW_SUFIX,
    INTERCHAIN_ACCOUNT_ID_LEN_LIMIT,
};
use crate::state::{
    IcaInfo,
    IcaInfoView,
    IcaInfos,
    IcaInfosView,
    PoolInfo,
    PoolInfoView,
    Store,
    StoreView,
};
use crate::text::{
    contains,
    contains_char,
    contains_text,
    ends_with,
    is_blank,
    is_blank_spec,
    is_text,
    split,
    split_spec,
    strip_suffix,
};

verus! {

/// The port through which the contract `contract_address` controls the interchain
/// account `interchain_account_id`.
pub open spec fn port_id_spec(contract_address: Seq<char>, interchain_account_id: Seq<char>) -> Seq<char> {
    "icacontroller-"@ + contract_address + "."@ + interchain_account_id
}

/// Calls `get_port_id` of `neutron_sdk`, which writes the prefix `icacontroller-`, the
/// address of the contract, a dot and the identifier of the account one after the other.
#[verifier::external_body]
fn get_port_id(contract_address: &String, interchain_account_id: &String) -> (port: String)
    ensures
        port@ == port_id_spec(contract_address@, interchain_account_id@),
{
    neutron_sdk::interchain_txs::helpers::get_port_id(
        contract_address.as_str(),
        interchain_account_id.as_str(),
    )
}

/// Whether `id` can name a pair of interchain accounts: it is not blank, holds neither a
/// dot nor a hyphen nor the suffix of withdrawal accounts, and is no longer than sixteen
/// bytes.
pub open spec fn valid_account_id(id: Seq<char>) -> bool {
    !(is_blank_spec(id) || id.contains('.') || id.contains('-') || contains_text(
        id,
        ICA_WITHDRAW_SUFIX@,
    ) || crate::text::byte_len(id) > INTERCHAIN_ACCOUNT_ID_LEN_LIMIT)
}

/// The message that registers the interchain account `id` over `connection_id`, for
/// half of `amount` of the fee denomination.
pub open spec fn register_account_msg(connection_id: Seq<char>, id: Seq<char>, amount: u128) -> CosmosMsgView {
    CosmosMsgView::RegisterInterchainAccount {
        connection_id,
        interchain_account_id: id,
        register_fee: Some(seq![CoinView { denom: FEE_DENOM@, amount: amount / 2 }]),
    }
}

/// The record of an account of which only the connection and the port are known.
pub open spec fn new_ica_info(connection_id: Seq<char>, port_id: Seq<char>) -> IcaInfoView {
    IcaInfoView { ctrl_connection_id: connection_id, ctrl_port_id: port_id, ..IcaInfoView::initial() }
}

/// What the registration of a pool under `interchain_account_id` does.
///
/// It is refused for an identifier that cannot name a pair of accounts or names one
/// already, and for funds that are not one coin of the fee denomination. The two accounts
/// are registered over `connection_id`, each for half of the funds, and the pair is
/// recorded with the sender as the one who registered it.
pub open spec fn execute_register_pool_spec(
    pre: StoreView,
    env: EnvView,
    info: MessageInfoView,
    connection_id: Seq<char>,
    interchain_account_id: Seq<char>,
) -> Result<(StoreView, ResponseView), ContractErrorView> {
    if !valid_account_id(interchain_account_id) {
        Err(ContractErrorView::InvalidInterchainAccountId)
    } else if pre.info_of_ica_id.contains_key(interchain_account_id) {
        Err(ContractErrorView::InterchainAccountIdAlreadyExist)
    } else if info.funds.len() != 1 || info.funds[0].denom != FEE_DENOM@ {
        Err(ContractErrorView::ParamsErrorFundsNotMatch)
    } else {
        let withdraw_id = interchain_account_id + ICA_WITHDRAW_SUFIX@;
        Ok(
            (
                StoreView {
                    info_of_ica_id: pre.info_of_ica_id.insert(
                        interchain_account_id,
                        IcaInfosView {
                            pool_address_ica_info: new_ica_info(
                                connection_id,
                                port_id_spec(env.contract_address, interchain_account_id),
                            ),
                            withdraw_address_ica_info: new_ica_info(
                                connection_id,
                                port_id_spec(env.contract_address, withdraw_id),
                            ),
                            admin: info.sender,
                        },
                    ),
                    ..pre
                },
                ResponseView {
                    messages: seq![
                        plain_msg(
                            register_account_msg(
                                connection_id,
                                interchain_account_id,
                                info.funds[0].amount,
                            ),
                        ),
                        plain_msg(
                            register_account_msg(connection_id, withdraw_id, info.funds[0].amount),
                        ),
                    ],
                    attributes: Seq::empty(),
                },
            ),
        )
    }
}

fn new_ica_info_of(connection_id: &String, port_id: String) -> (r: IcaInfo)
    ensures
        r@ == new_ica_info(connection_id@, port_id@),
{
    IcaInfo {
        ctrl_connection_id: connection_id.clone(),
        host_connection_id: String::new(),
        ctrl_channel_id: String::new(),
        host_channel_id: String::new(),
        ctrl_port_id: port_id,
        ica_addr: String::new(),
    }
}

fn register_account_msg_of(connection_id: &String, id: String, amount: u128) -> (m: CosmosMsg)
    ensures
        m@ == register_account_msg(connection_id@, id@, amount),
{
    let mut fee: Vec<Coin> = Vec::new();
    fee.push(Coin { denom: String::from_str(FEE_DENOM), amount: amount / 2 });
    proof {
        assert(fee.deep_view() =~= seq![CoinView { denom: FEE_DENOM@, amount: amount / 2 }]);
    }
    CosmosMsg::RegisterInterchainAccount {
        connection_id: connection_id.clone(),
        interchain_account_id: id,
        register_fee: Some(fee),
    }
}

/// Registers a pool: asks for the pair of interchain accounts `interchain_account_id`
/// over the connection `connection_id`.
pub fn execute_register_pool(
    store: &mut Store,
    env: &Env,
    info: &MessageInfo,
    connection_id: String,
    interchain_account_id: String,
) -> (r: Result<Response, ContractError>)
    ensures
        agrees(
            r,
            old(store)@,
            final(store)@,
            execute_register_pool_spec(
                old(store)@,
                env@,
                info@,
                connection_id@,
                interchain_account_id@,
            ),
        ),
{
    if is_blank(interchain_account_id.as_str()) || contains_char(interchain_account_id.as_str(), '.')
        || contains_char(interchain_account_id.as_str(), '-') || contains(
        interchain_account_id.as_str(),
        ICA_WITHDRAW_SUFIX,
    ) || interchain_account_id.as_str().len() > INTERCHAIN_ACCOUNT_ID_LEN_LIMIT {
        return Err(ContractError::InvalidInterchainAccountId);
    }
    if store.info_of_ica_id.has(&interchain_account_id) {
        return Err(ContractError::InterchainAccountIdAlreadyExist);
    }
    if info.funds.len() != 1 || !is_text(&info.funds[0].denom, FEE_DENOM) {
        return Err(ContractError::ParamsErrorFundsNotMatch);
    }
    let amount = info.funds[0].amount;
    let register_pool_msg = register_account_msg_of(
        &connection_id,
        interchain_account_id.clone(),
        amount,
    );
    let withdraw_ica_id = get_withdraw_ica_id(interchain_account_id.clone());
    let register_withdraw_msg = register_account_msg_of(
        &connection_id,
        withdraw_ica_id.clone(),
        amount,
    );
    let ctrl_port_id_of_pool = get_port_id(&env.contract_address, &interchain_account_id);
    let ctrl_port_id_of_withdraw = get_port_id(&env.contract_address, &withdraw_ica_id);
    store.info_of_ica_id.save(
        interchain_account_id,
        IcaInfos {
            pool_address_ica_info: new_ica_info_of(&connection_id, ctrl_port_id_of_pool),
            withdraw_address_ica_info: new_ica_info_of(&connection_id, ctrl_port_id_of_withdraw),
            admin: info.sender.clone(),
        },
    );
    let mut resp = Response::new();
    resp.add_message(register_pool_msg);
    resp.add_message(register_withdraw_msg);
    proof {
        assert(resp@.messages =~= seq![plain_msg(register_pool_msg@), plain_msg(register_withdraw_msg@)]);
    }
    Ok(resp)
}

/// The identifier of the pair that the port `ctrl_port_id` belongs to, and whether the
/// port is that of the account of the pool rather than of its withdrawal account.
///
/// The port must have two parts separated by a dot; the second is the identifier of the
/// account, which for a withdrawal account ends with the suffix of withdrawal accounts.
pub open spec fn account_of_port(ctrl_port_id: Seq<char>) -> Result<(Seq<char>, bool), ContractErrorView> {
    let parts = split_spec(ctrl_port_id, '.');
    if parts.len() != 2 {
        Err(ContractErrorView::CounterpartyVersionNotMatch)
    } else if !contains_text(parts[1], ICA_WITHDRAW_SUFIX@) {
        Ok((parts[1], true))
    } else if !ends_with(parts[1], ICA_WITHDRAW_SUFIX@) {
        Err(ContractErrorView::CounterpartyVersionNotMatch)
    } else {
        Ok((parts[1].subrange(0, parts[1].len() - ICA_WITHDRAW_SUFIX@.len()), false))
    }
}

/// The record of an account whose channel was opened.
pub open spec fn opened_ica_info(
    info: IcaInfoView,
    ctrl_port_id: Seq<char>,
    ctrl_channel_id: Seq<char>,
    counterparty_channel_id: Seq<char>,
    version: OpenAckVersionView,
) -> IcaInfoView {
    IcaInfoView {
        ctrl_channel_id,
        ctrl_port_id,
        host_connection_id: version.host_connection_id,
        host_channel_id: counterparty_channel_id,
        ica_addr: version.address,
        ..info
    }
}

/// What the opening of the channel of an interchain account does.
///
/// The address that the remote chain states is recorded for the account. Once both
/// accounts of a pair have an address, the pool comes into being under the address of
/// its account, with who registered the pair as its administrator, unless there is a
/// pool under that address already.
pub open spec fn sudo_open_ack_spec(
    pre: StoreView,
    ctrl_port_id: Seq<char>,
    ctrl_channel_id: Seq<char>,
    counterparty_channel_id: Seq<char>,
    counterparty_version: Option<OpenAckVersionView>,
) -> Result<(StoreView, ResponseView), ContractErrorView> {
    match counterparty_version {
        None => Err(ContractErrorView::CantParseCounterpartyVersion),
        Some(version) => match account_of_port(ctrl_port_id) {
            Err(e) => Err(e),
            Ok((ica_id, is_pool)) => if !pre.info_of_ica_id.contains_key(ica_id) {
                Err(ContractErrorView::NotFound)
            } else {
                let had = pre.info_of_ica_id[ica_id];
                let infos = if is_pool {
                    IcaInfosView {
                        pool_address_ica_info: opened_ica_info(
                            had.pool_address_ica_info,
                            ctrl_port_id,
                            ctrl_channel_id,
                            counterparty_channel_id,
                            version,
                        ),
                        ..had
                    }
                } else {
                    IcaInfosView {
                        withdraw_address_ica_info: opened_ica_info(
                            had.withdraw_address_ica_info,
                            ctrl_port_id,
                            ctrl_channel_id,
                            counterparty_channel_id,
                            version,
                        ),
                        ..had
                    }
                };
                let pool_addr = infos.pool_address_ica_info.ica_addr;
                Ok(
                    (
                        StoreView {
                            pools: if pool_addr.len() > 0 && infos.withdraw_address_ica_info.ica_addr.len()
                                > 0 && !pre.pools.contains_key(pool_addr) {
                                pre.pools.insert(
                                    pool_addr,
                                    PoolInfoView { ica_id, admin: had.admin, ..PoolInfoView::initial() },
                                )
                            } else {
                                pre.pools
                            },
                            info_of_ica_id: pre.info_of_ica_id.insert(ica_id, infos),
                            ..pre
                        },
                        empty_response(),
                    ),
                )
            },
        },
    }
}

fn account_of_port_of(ctrl_port_id: &String) -> (r: Result<(String, bool), ContractError>)
    ensures
        match account_of_port(ctrl_port_id@) {
            Ok((id, is_pool)) => r is Ok && r->Ok_0.0@ == id && r->Ok_0.1 == is_pool,
            Err(e) => r is Err && r->Err_0@ == e,
        },
{
    let port_id_parts = split(ctrl_port_id.as_str(), '.');
    if port_id_parts.len() != 2 {
        return Err(ContractError::CounterpartyVersionNotMatch);
    }
    proof {
        assert(port_id_parts.deep_view()[1] == port_id_parts[1]@);
    }
    let ica_id_raw = &port_id_parts[1];
    if !contains(ica_id_raw.as_str(), ICA_WITHDRAW_SUFIX) {
        return Ok((ica_id_raw.clone(), true));
    }
    match strip_suffix(ica_id_raw.as_str(), ICA_WITHDRAW_SUFIX) {
        Some(id) => Ok((id, false)),
        None => Err(ContractError::CounterpartyVersionNotMatch),
    }
}

/// Takes note that the remote chain has opened the channel of an interchain account.
/// `counterparty_version` is what the remote chain stated, where it could be read.
pub fn sudo_open_ack(
    store: &mut Store,
    ctrl_port_id: String,
    ctrl_channel_id: String,
    counterparty_channel_id: String,
    counterparty_version: Option<OpenAckVersion>,
) -> (r: Result<Response, ContractError>)
    ensures
        agrees(
            r,
            old(store)@,
            final(store)@,
            sudo_open_ack_spec(
                old(store)@,
                ctrl_port_id@,
                ctrl_channel_id@,
                counterparty_channel_id@,
                counterparty_version.deep_view(),
            ),
        ),
{
    let ghost pre = store@;
    let version = match counterparty_version {
        Some(v) => v,
        None => {
            return Err(ContractError::CantParseCounterpartyVersion);
        },
    };
    let (ica_id, is_pool) = account_of_port_of(&ctrl_port_id)?;
    if !store.info_of_ica_id.has(&ica_id) {
        return Err(ContractError::NotFound);
    }
    let mut infos = store.info_of_ica_id.take(&ica_id);
    let ghost had = infos@;
    if is_pool {
        infos.pool_address_ica_info.ctrl_channel_id = ctrl_channel_id;
        infos.pool_address_ica_info.ctrl_port_id = ctrl_port_id;
        infos.pool_address_ica_info.host_connection_id = version.host_connection_id;
        infos.pool_address_ica_info.host_channel_id = counterparty_channel_id;
        infos.pool_address_ica_info.ica_addr = version.address;
    } else {
        infos.withdraw_address_ica_info.ctrl_channel_id = ctrl_channel_id;
        infos.withdraw_address_ica_info.ctrl_port_id = ctrl_port_id;
        infos.withdraw_address_ica_info.host_connection_id = version.host_connection_id;
        infos.withdraw_address_ica_info.host_channel_id = counterparty_channel_id;
        infos.withdraw_address_ica_info.ica_addr = version.address;
    }
    if infos.pool_address_ica_info.ica_addr.as_str().unicode_len() > 0
        && infos.withdraw_address_ica_info.ica_addr.as_str().unicode_len() > 0 && !store.pools.has(
        &infos.pool_address_ica_info.ica_addr,
    ) {
        let mut pool_info = PoolInfo::default();
        pool_info.ica_id = ica_id.clone();
        pool_info.admin = infos.admin.clone();
        store.pools.save(infos.pool_address_ica_info.ica_addr.clone(), pool_info);
    }
    let ghost new_infos = infos@;
    store.info_of_ica_id.save(ica_id, infos);
    proof {
        assert(store@.info_of_ica_id =~= pre.info_of_ica_id.insert(ica_id@, new_infos));
    }
    Ok(Response::new())
}

} // verus!
