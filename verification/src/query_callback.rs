//! The registration of observational queries: the contract numbers its registrations, and
//! learns from the reply under which identifier the chain knows each query.
use vstd::prelude::*;
use crate::chain::{plain_msg, reply_msg, CosmosMsg, Reply, Response, ResponseView, SubMsg};
use crate::error_conversion::{ContractError, ContractErrorView};
use crate::helper::{agrees, empty_response, update_period_msg, DEFAULT_UPDATE_PERIOD};
use crate::state::{
    get_next_query_reply_id,
    id_after,
    next_id,
    QueryKind,
    Store,
    StoreView,
    QUERY_REPLY_ID_RANGE_END,
    QUERY_REPLY_ID_RANGE_START,
};

verus! {

/// The state after a query of kind `kind` on the account `addr` was numbered for
/// registration: the account and kind lead to the number, and a validators query is
/// marked to be slowed down after its first result.
pub open spec fn query_numbered(pre: StoreView, addr: Seq<char>, kind: QueryKind) -> StoreView {
    let id = next_id(pre.latest_query_reply_id, QUERY_REPLY_ID_RANGE_START);
    StoreView {
        latest_query_reply_id: Some(id_after(id, QUERY_REPLY_ID_RANGE_START, QUERY_REPLY_ID_RANGE_END)),
        address_to_reply_id: pre.address_to_reply_id.insert((addr, kind.name()), id),
        reply_id_to_need_update: if kind == QueryKind::Validators {
            pre.reply_id_to_need_update.insert(id, true)
        } else {
            pre.reply_id_to_need_update
        },
        ..pre
    }
}

/// Numbers the registration `msg` of a query of kind `query_kind` on the account `addr`,
/// and wraps it so that its success is reported back under that number.
pub fn register_query_submsg(store: &mut Store, msg: CosmosMsg, addr: String, query_kind: QueryKind) -> (sub:
    SubMsg)
    ensures
        sub@ == reply_msg(msg@, next_id(old(store)@.latest_query_reply_id, QUERY_REPLY_ID_RANGE_START)),
        final(store)@ == query_numbered(old(store)@, addr@, query_kind),
{
    let next_reply_id = get_next_query_reply_id(store);
    store.address_to_reply_id.save((addr, query_kind.to_string()), next_reply_id);
    if query_kind == QueryKind::Validators {
        store.reply_id_to_need_update.save(next_reply_id, true);
    }
    SubMsg { id: next_reply_id, msg, reply_on_success: true }
}

/// What the reply to a query registration does: the number of the registration and the
/// identifier of the query lead to each other. Refused where the registration failed, or
/// its result has no data, or the data does not hold an identifier.
pub open spec fn write_reply_id_to_query_id_spec(
    pre: StoreView,
    id: u64,
    result: Result<Option<Result<u64, Seq<char>>>, Seq<char>>,
) -> Result<(StoreView, ResponseView), ContractErrorView> {
    match result {
        Err(t) => Err(ContractErrorView::QueryFailed(t)),
        Ok(None) => Err(ContractErrorView::ICQErrReplyNoResult),
        Ok(Some(Err(t))) => Err(ContractErrorView::ICQErrFailedParse(t)),
        Ok(Some(Ok(query_id))) => Ok(
            (
                StoreView {
                    reply_id_to_query_id: pre.reply_id_to_query_id.insert(id, query_id),
                    query_id_to_reply_id: pre.query_id_to_reply_id.insert(query_id, id),
                    ..pre
                },
                empty_response(),
            ),
        ),
    }
}

/// What the reply `msg` holds, read as the reply to a query registration.
pub open spec fn registration_result(msg: Reply) -> Result<Option<Result<u64, Seq<char>>>, Seq<char>> {
    match msg.result {
        Err(t) => Err(t@),
        Ok(None) => Ok(None),
        Ok(Some(data)) => Ok(
            Some(
                match data.registered_query {
                    Ok(id) => Ok(id),
                    Err(t) => Err(t@),
                },
            ),
        ),
    }
}

/// Records under which identifier the chain knows the query whose registration the reply
/// `msg` reports.
pub fn write_reply_id_to_query_id(store: &mut Store, msg: Reply) -> (r: Result<Response, ContractError>)
    ensures
        agrees(
            r,
            old(store)@,
            final(store)@,
            write_reply_id_to_query_id_spec(old(store)@, msg.id, registration_result(msg)),
        ),
{
    let data = match msg.result {
        Err(t) => {
            return Err(ContractError::QueryFailed(t));
        },
        Ok(None) => {
            return Err(ContractError::ICQErrReplyNoResult);
        },
        Ok(Some(data)) => data,
    };
    let query_id = match data.registered_query {
        Ok(id) => id,
        Err(t) => {
            return Err(ContractError::ICQErrFailedParse(t));
        },
    };
    store.reply_id_to_query_id.save(msg.id, query_id);
    store.query_id_to_reply_id.save(query_id, msg.id);
    Ok(Response::new())
}

/// What the first result of the query `query_id` does: the query is no longer awaited,
/// and a query that was marked to be slowed down is set to the usual refresh interval.
pub open spec fn sudo_kv_query_result_spec(pre: StoreView, query_id: u64) -> (StoreView, ResponseView) {
    if !pre.query_id_to_reply_id.contains_key(query_id) {
        (pre, empty_response())
    } else {
        let reply_id = pre.query_id_to_reply_id[query_id];
        let awaited = pre.query_id_to_reply_id.remove(query_id);
        if pre.reply_id_to_need_update.contains_key(reply_id) && pre.reply_id_to_need_update[reply_id] {
            (
                StoreView {
                    query_id_to_reply_id: awaited,
                    reply_id_to_need_update: pre.reply_id_to_need_update.remove(reply_id),
                    ..pre
                },
                ResponseView {
                    messages: seq![plain_msg(update_period_msg(query_id, DEFAULT_UPDATE_PERIOD))],
                    attributes: Seq::empty(),
                },
            )
        } else {
            (StoreView { query_id_to_reply_id: awaited, ..pre }, empty_response())
        }
    }
}

/// Takes note that the query `query_id` has a new result.
pub fn sudo_kv_query_result(store: &mut Store, query_id: u64) -> (r: Result<Response, ContractError>)
    ensures
        agrees(
            r,
            old(store)@,
            final(store)@,
            Ok::<(StoreView, ResponseView), ContractErrorView>(
                sudo_kv_query_result_spec(old(store)@, query_id),
            ),
        ),
{
    let ghost pre = store@;
    match store.query_id_to_reply_id.remove(&query_id) {
        Some(reply_id) => {
            let need_update_status = match store.reply_id_to_need_update.get(&reply_id) {
                Some(b) => *b,
                None => false,
            };
            if need_update_status {
                let _ = store.reply_id_to_need_update.remove(&reply_id);
                let mut resp = Response::new();
                let msg = CosmosMsg::UpdateInterchainQuery {
                    query_id,
                    new_keys: None,
                    new_update_period: Some(DEFAULT_UPDATE_PERIOD),
                };
                resp.add_message(msg);
                proof {
                    assert(resp@.messages =~= seq![
                        plain_msg(update_period_msg(query_id, DEFAULT_UPDATE_PERIOD)),
                    ]);
                }
                return Ok(resp);
            }
            Ok(Response::new())
        },
        None => {
            proof {
                assert(store@.query_id_to_reply_id =~= pre.query_id_to_reply_id);
            }
            Ok(Response::new())
        },
    }
}

} // verus!
