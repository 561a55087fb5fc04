//! The contract's events and functions: how each is recognised, and the
//! layout that each one's payload is read with.
//!
//! Topics and selectors are unique within each table, so a log or a call is an
//! instance of at most one kind; the extractors nonetheless test every kind.

use vstd::prelude::*;
use crate::abi::Param;

verus! {

/// The address of the exchange contract whose logs and calls are decoded.
pub const TRACKED_CONTRACT: [u8; 20] = [0x4b, 0xfb, 0x41, 0xd5, 0xb3, 0x57, 0x0d, 0xef, 0xd0, 0x3c, 0x39, 0xa9, 0xa4, 0xd8, 0xde, 0x6b, 0xd8, 0xb8, 0x98, 0x2e];

/// The number of event kinds.
pub const EVENT_KIND_COUNT: usize = 13;

/// The number of function kinds.
pub const CALL_KIND_COUNT: usize = 19;

pub const FEE_CHARGED_TOPIC: [u8; 32] = [0xac, 0xff, 0xcc, 0x86, 0x83, 0x4d, 0x0f, 0x1a, 0x64, 0xb0, 0xd5, 0xa6, 0x75, 0x79, 0x8d, 0xee, 0xd6, 0xff, 0x0b, 0xcf, 0xc2, 0x23, 0x1e, 0xdd, 0x34, 0x80, 0xe7, 0x28, 0x8d, 0xba, 0x7f, 0xf4];
pub const NEW_ADMIN_TOPIC: [u8; 32] = [0xf9, 0xff, 0xab, 0xca, 0x9c, 0x82, 0x76, 0xe9, 0x93, 0x21, 0x72, 0x5b, 0xcb, 0x43, 0xfb, 0x07, 0x6a, 0x6c, 0x66, 0xa5, 0x4b, 0x7f, 0x21, 0xc4, 0xe8, 0x14, 0x6d, 0x85, 0x19, 0xb4, 0x17, 0xdc];
pub const NEW_OPERATOR_TOPIC: [u8; 32] = [0xf1, 0xe0, 0x4d, 0x73, 0xc4, 0x30, 0x4b, 0x5f, 0xf1, 0x64, 0xf9, 0xd1, 0x0c, 0x74, 0x73, 0xe2, 0xa1, 0x59, 0x3b, 0x74, 0x06, 0x74, 0xa6, 0x10, 0x79, 0x75, 0xe2, 0xa7, 0x00, 0x1c, 0x1e, 0x5c];
pub const ORDER_CANCELLED_TOPIC: [u8; 32] = [0x51, 0x52, 0xab, 0xf9, 0x59, 0xf6, 0x56, 0x46, 0x62, 0x35, 0x8c, 0x2e, 0x52, 0xb7, 0x02, 0x25, 0x9b, 0x78, 0xba, 0xc5, 0xee, 0x78, 0x42, 0xa0, 0xf0, 0x19, 0x37, 0xe6, 0x70, 0xef, 0xcc, 0x7d];
pub const ORDER_FILLED_TOPIC: [u8; 32] = [0xd0, 0xa0, 0x8e, 0x8c, 0x49, 0x3f, 0x9c, 0x94, 0xf2, 0x93, 0x11, 0x60, 0x4c, 0x9d, 0xe1, 0xb4, 0xe8, 0xc8, 0xd4, 0xc0, 0x6b, 0xd0, 0xc7, 0x89, 0xaf, 0x57, 0xf2, 0xd6, 0x5b, 0xfe, 0xc0, 0xf6];
pub const ORDERS_MATCHED_TOPIC: [u8; 32] = [0x63, 0xbf, 0x4d, 0x16, 0xb7, 0xfa, 0x89, 0x8e, 0xf4, 0xc4, 0xb2, 0xb6, 0xd9, 0x0f, 0xd2, 0x01, 0xe9, 0xc5, 0x63, 0x13, 0xb6, 0x56, 0x38, 0xaf, 0x60, 0x88, 0xd1, 0x49, 0xd2, 0xce, 0x95, 0x6c];
pub const PROXY_FACTORY_UPDATED_TOPIC: [u8; 32] = [0x30, 0x53, 0xc6, 0x25, 0x2a, 0x93, 0x25, 0x54, 0x23, 0x5c, 0x17, 0x3c, 0xaf, 0xfc, 0x19, 0x13, 0x60, 0x4d, 0xba, 0x3a, 0x41, 0xce, 0xe8, 0x95, 0x16, 0xf6, 0x31, 0xc4, 0xa1, 0xa5, 0x0a, 0x37];
pub const REMOVED_ADMIN_TOPIC: [u8; 32] = [0x78, 0x7a, 0x2e, 0x12, 0xf4, 0xa5, 0x5b, 0x65, 0x8b, 0x8f, 0x57, 0x3c, 0x32, 0x43, 0x2e, 0xe1, 0x1a, 0x5e, 0x8b, 0x51, 0x67, 0x7d, 0x1e, 0x1e, 0x93, 0x7a, 0xaf, 0x6a, 0x0b, 0xb5, 0x77, 0x6e];
pub const REMOVED_OPERATOR_TOPIC: [u8; 32] = [0xf7, 0x26, 0x2e, 0xd0, 0x44, 0x3c, 0xc2, 0x11, 0x12, 0x1c, 0xeb, 0x1a, 0x80, 0xd6, 0x90, 0x04, 0xf3, 0x19, 0x24, 0x56, 0x15, 0xa7, 0x48, 0x8f, 0x95, 0x1f, 0x14, 0x37, 0xfd, 0x91, 0x64, 0x2c];
pub const SAFE_FACTORY_UPDATED_TOPIC: [u8; 32] = [0x97, 0x26, 0xd7, 0xfa, 0xf7, 0x42, 0x9d, 0x6b, 0x05, 0x95, 0x60, 0xdc, 0x85, 0x8e, 0xd7, 0x69, 0x37, 0x7c, 0xcd, 0xf8, 0xb7, 0x54, 0x1e, 0xab, 0xe1, 0x2b, 0x22, 0x54, 0x87, 0x19, 0x83, 0x1f];
pub const TOKEN_REGISTERED_TOPIC: [u8; 32] = [0xbc, 0x9a, 0x24, 0x32, 0xe8, 0xae, 0xb4, 0x83, 0x27, 0x24, 0x6c, 0xdd, 0xd6, 0xe8, 0x72, 0xef, 0x45, 0x28, 0x12, 0xb4, 0x24, 0x3c, 0x04, 0xe6, 0xbf, 0xb7, 0x86, 0xa2, 0xcd, 0x8f, 0xaf, 0x0d];
pub const TRADING_PAUSED_TOPIC: [u8; 32] = [0x20, 0x3c, 0x4b, 0xd3, 0xe5, 0x26, 0x63, 0x4f, 0x66, 0x15, 0x75, 0x35, 0x9f, 0xf3, 0x0d, 0xe3, 0xb0, 0xed, 0xab, 0xa6, 0xc2, 0xcb, 0x1e, 0xac, 0x60, 0xf7, 0x30, 0xb6, 0xd2, 0xd9, 0xd5, 0x36];
pub const TRADING_UNPAUSED_TOPIC: [u8; 32] = [0xa1, 0xe8, 0xa5, 0x48, 0x50, 0xdb, 0xd7, 0xf5, 0x20, 0xbc, 0xc0, 0x9f, 0x47, 0xbf, 0xf1, 0x52, 0x29, 0x4b, 0x77, 0xb2, 0x08, 0x1d, 0xa5, 0x45, 0xa7, 0xad, 0xf5, 0x31, 0xb7, 0xea, 0x28, 0x3b];

pub const ADD_ADMIN_SELECTOR: [u8; 4] = [0x70, 0x48, 0x02, 0x75];
pub const ADD_OPERATOR_SELECTOR: [u8; 4] = [0x98, 0x70, 0xd7, 0xfe];
pub const CANCEL_ORDER_SELECTOR: [u8; 4] = [0xa6, 0xdf, 0xcf, 0x86];
pub const CANCEL_ORDERS_SELECTOR: [u8; 4] = [0xfa, 0x95, 0x0b, 0x48];
pub const FILL_ORDER_SELECTOR: [u8; 4] = [0xfe, 0x72, 0x9a, 0xaf];
pub const FILL_ORDERS_SELECTOR: [u8; 4] = [0xd7, 0x98, 0xef, 0xf6];
pub const INCREMENT_NONCE_SELECTOR: [u8; 4] = [0x62, 0x7c, 0xdc, 0xb9];
pub const MATCH_ORDERS_SELECTOR: [u8; 4] = [0xe6, 0x0f, 0x0c, 0x05];
pub const ON_ERC1155_BATCH_RECEIVED_SELECTOR: [u8; 4] = [0xbc, 0x19, 0x7c, 0x81];
pub const ON_ERC1155_RECEIVED_SELECTOR: [u8; 4] = [0xf2, 0x3a, 0x6e, 0x61];
pub const PAUSE_TRADING_SELECTOR: [u8; 4] = [0x10, 0x31, 0xe3, 0x6e];
pub const REGISTER_TOKEN_SELECTOR: [u8; 4] = [0x68, 0xc7, 0x45, 0x0f];
pub const REMOVE_ADMIN_SELECTOR: [u8; 4] = [0x17, 0x85, 0xf5, 0x3c];
pub const REMOVE_OPERATOR_SELECTOR: [u8; 4] = [0xac, 0x8a, 0x58, 0x4a];
pub const RENOUNCE_ADMIN_ROLE_SELECTOR: [u8; 4] = [0x83, 0xb8, 0xa5, 0xae];
pub const RENOUNCE_OPERATOR_ROLE_SELECTOR: [u8; 4] = [0x3d, 0x6d, 0x35, 0x98];
pub const SET_PROXY_FACTORY_SELECTOR: [u8; 4] = [0xfb, 0xdd, 0xd7, 0x51];
pub const SET_SAFE_FACTORY_SELECTOR: [u8; 4] = [0x45, 0x44, 0xf0, 0x55];
pub const UNPAUSE_TRADING_SELECTOR: [u8; 4] = [0x45, 0x60, 0x68, 0xd2];

/// A known event of the contract.
#[derive(Clone, Copy, Debug, PartialEq, Eq, Structural)]
pub enum EventKind {
    /// Fields: receiver; token_id, amount.
    FeeCharged,
    /// Fields: new_admin_address, admin.
    NewAdmin,
    /// Fields: new_operator_address, admin.
    NewOperator,
    /// Fields: order_hash.
    OrderCancelled,
    /// Fields: order_hash, maker, taker; maker_asset_id, taker_asset_id, maker_amount_filled, taker_amount_filled, fee.
    OrderFilled,
    /// Fields: taker_order_hash, taker_order_maker; maker_asset_id, taker_asset_id, maker_amount_filled, taker_amount_filled.
    OrdersMatched,
    /// Fields: old_proxy_factory, new_proxy_factory.
    ProxyFactoryUpdated,
    /// Fields: removed_admin, admin.
    RemovedAdmin,
    /// Fields: removed_operator, admin.
    RemovedOperator,
    /// Fields: old_safe_factory, new_safe_factory.
    SafeFactoryUpdated,
    /// Fields: token0, token1, condition_id.
    TokenRegistered,
    /// Fields: pauser.
    TradingPaused,
    /// Fields: pauser.
    TradingUnpaused,
}

/// A known function of the contract.
#[derive(Clone, Copy, Debug, PartialEq, Eq, Structural)]
pub enum CallKind {
    /// Fields: admin.
    AddAdmin,
    /// Fields: operator.
    AddOperator,
    /// Fields: (order, not kept).
    CancelOrder,
    /// Fields: (orders, not kept).
    CancelOrders,
    /// Fields: fill_amount.
    FillOrder,
    /// Fields: fill_amounts.
    FillOrders,
    /// Fields: none.
    IncrementNonce,
    /// Fields: taker_fill_amount, maker_fill_amounts.
    MatchOrders,
    /// Fields: operator, from, ids, values, data. Output: the returned `bytes4`.
    OnErc1155BatchReceived,
    /// Fields: operator, from, id, value, data. Output: the returned `bytes4`.
    OnErc1155Received,
    /// Fields: none.
    PauseTrading,
    /// Fields: token, complement, condition_id.
    RegisterToken,
    /// Fields: admin.
    RemoveAdmin,
    /// Fields: operator.
    RemoveOperator,
    /// Fields: none.
    RenounceAdminRole,
    /// Fields: none.
    RenounceOperatorRole,
    /// Fields: new_proxy_factory.
    SetProxyFactory,
    /// Fields: new_safe_factory.
    SetSafeFactory,
    /// Fields: none.
    UnpauseTrading,
}

/// The position of the kind's collection among the event collections.
pub open spec fn event_index(k: EventKind) -> int {
    match k {
        EventKind::FeeCharged => 0,
        EventKind::NewAdmin => 1,
        EventKind::NewOperator => 2,
        EventKind::OrderCancelled => 3,
        EventKind::OrderFilled => 4,
        EventKind::OrdersMatched => 5,
        EventKind::ProxyFactoryUpdated => 6,
        EventKind::RemovedAdmin => 7,
        EventKind::RemovedOperator => 8,
        EventKind::SafeFactoryUpdated => 9,
        EventKind::TokenRegistered => 10,
        EventKind::TradingPaused => 11,
        EventKind::TradingUnpaused => 12,
    }
}

/// The first topic of the kind's logs: the hash of its signature.
pub open spec fn event_topic(k: EventKind) -> Seq<u8> {
    match k {
        EventKind::FeeCharged => FEE_CHARGED_TOPIC@,
        EventKind::NewAdmin => NEW_ADMIN_TOPIC@,
        EventKind::NewOperator => NEW_OPERATOR_TOPIC@,
        EventKind::OrderCancelled => ORDER_CANCELLED_TOPIC@,
        EventKind::OrderFilled => ORDER_FILLED_TOPIC@,
        EventKind::OrdersMatched => ORDERS_MATCHED_TOPIC@,
        EventKind::ProxyFactoryUpdated => PROXY_FACTORY_UPDATED_TOPIC@,
        EventKind::RemovedAdmin => REMOVED_ADMIN_TOPIC@,
        EventKind::RemovedOperator => REMOVED_OPERATOR_TOPIC@,
        EventKind::SafeFactoryUpdated => SAFE_FACTORY_UPDATED_TOPIC@,
        EventKind::TokenRegistered => TOKEN_REGISTERED_TOPIC@,
        EventKind::TradingPaused => TRADING_PAUSED_TOPIC@,
        EventKind::TradingUnpaused => TRADING_UNPAUSED_TOPIC@,
    }
}

/// The indexed parameters, one topic each after the first.
pub open spec fn event_topic_params(k: EventKind) -> Seq<Param> {
    match k {
        EventKind::FeeCharged => seq![Param::Address],
        EventKind::NewAdmin => seq![Param::Address, Param::Address],
        EventKind::NewOperator => seq![Param::Address, Param::Address],
        EventKind::OrderCancelled => seq![Param::Bytes32],
        EventKind::OrderFilled => seq![Param::Bytes32, Param::Address, Param::Address],
        EventKind::OrdersMatched => seq![Param::Bytes32, Param::Address],
        EventKind::ProxyFactoryUpdated => seq![Param::Address, Param::Address],
        EventKind::RemovedAdmin => seq![Param::Address, Param::Address],
        EventKind::RemovedOperator => seq![Param::Address, Param::Address],
        EventKind::SafeFactoryUpdated => seq![Param::Address, Param::Address],
        EventKind::TokenRegistered => seq![Param::Uint, Param::Uint, Param::Bytes32],
        EventKind::TradingPaused => seq![Param::Address],
        EventKind::TradingUnpaused => seq![Param::Address],
    }
}

/// The parameters that the log's data holds.
pub open spec fn event_data_params(k: EventKind) -> Seq<Param> {
    match k {
        EventKind::FeeCharged => seq![Param::Uint, Param::Uint],
        EventKind::NewAdmin => seq![],
        EventKind::NewOperator => seq![],
        EventKind::OrderCancelled => seq![],
        EventKind::OrderFilled => seq![Param::Uint, Param::Uint, Param::Uint, Param::Uint, Param::Uint],
        EventKind::OrdersMatched => seq![Param::Uint, Param::Uint, Param::Uint, Param::Uint],
        EventKind::ProxyFactoryUpdated => seq![],
        EventKind::RemovedAdmin => seq![],
        EventKind::RemovedOperator => seq![],
        EventKind::SafeFactoryUpdated => seq![],
        EventKind::TokenRegistered => seq![],
        EventKind::TradingPaused => seq![],
        EventKind::TradingUnpaused => seq![],
    }
}

/// The position of the kind's collection among the call collections.
pub open spec fn call_index(k: CallKind) -> int {
    match k {
        CallKind::AddAdmin => 0,
        CallKind::AddOperator => 1,
        CallKind::CancelOrder => 2,
        CallKind::CancelOrders => 3,
        CallKind::FillOrder => 4,
        CallKind::FillOrders => 5,
        CallKind::IncrementNonce => 6,
        CallKind::MatchOrders => 7,
        CallKind::OnErc1155BatchReceived => 8,
        CallKind::OnErc1155Received => 9,
        CallKind::PauseTrading => 10,
        CallKind::RegisterToken => 11,
        CallKind::RemoveAdmin => 12,
        CallKind::RemoveOperator => 13,
        CallKind::RenounceAdminRole => 14,
        CallKind::RenounceOperatorRole => 15,
        CallKind::SetProxyFactory => 16,
        CallKind::SetSafeFactory => 17,
        CallKind::UnpauseTrading => 18,
    }
}

/// The first four bytes of the kind's call input.
pub open spec fn call_selector(k: CallKind) -> Seq<u8> {
    match k {
        CallKind::AddAdmin => ADD_ADMIN_SELECTOR@,
        CallKind::AddOperator => ADD_OPERATOR_SELECTOR@,
        CallKind::CancelOrder => CANCEL_ORDER_SELECTOR@,
        CallKind::CancelOrders => CANCEL_ORDERS_SELECTOR@,
        CallKind::FillOrder => FILL_ORDER_SELECTOR@,
        CallKind::FillOrders => FILL_ORDERS_SELECTOR@,
        CallKind::IncrementNonce => INCREMENT_NONCE_SELECTOR@,
        CallKind::MatchOrders => MATCH_ORDERS_SELECTOR@,
        CallKind::OnErc1155BatchReceived => ON_ERC1155_BATCH_RECEIVED_SELECTOR@,
        CallKind::OnErc1155Received => ON_ERC1155_RECEIVED_SELECTOR@,
        CallKind::PauseTrading => PAUSE_TRADING_SELECTOR@,
        CallKind::RegisterToken => REGISTER_TOKEN_SELECTOR@,
        CallKind::RemoveAdmin => REMOVE_ADMIN_SELECTOR@,
        CallKind::RemoveOperator => REMOVE_OPERATOR_SELECTOR@,
        CallKind::RenounceAdminRole => RENOUNCE_ADMIN_ROLE_SELECTOR@,
        CallKind::RenounceOperatorRole => RENOUNCE_OPERATOR_ROLE_SELECTOR@,
        CallKind::SetProxyFactory => SET_PROXY_FACTORY_SELECTOR@,
        CallKind::SetSafeFactory => SET_SAFE_FACTORY_SELECTOR@,
        CallKind::UnpauseTrading => UNPAUSE_TRADING_SELECTOR@,
    }
}

/// The parameters that the input holds after the selector.
pub open spec fn call_params(k: CallKind) -> Seq<Param> {
    match k {
        CallKind::AddAdmin => seq![Param::Address],
        CallKind::AddOperator => seq![Param::Address],
        CallKind::CancelOrder => seq![Param::Order],
        CallKind::CancelOrders => seq![Param::OrderArray],
        CallKind::FillOrder => seq![Param::Order, Param::Uint],
        CallKind::FillOrders => seq![Param::OrderArray, Param::UintArray],
        CallKind::IncrementNonce => seq![],
        CallKind::MatchOrders => seq![Param::Order, Param::OrderArray, Param::Uint, Param::UintArray],
        CallKind::OnErc1155BatchReceived => seq![Param::Address, Param::Address, Param::UintArray, Param::UintArray, Param::Bytes],
        CallKind::OnErc1155Received => seq![Param::Address, Param::Address, Param::Uint, Param::Uint, Param::Bytes],
        CallKind::PauseTrading => seq![],
        CallKind::RegisterToken => seq![Param::Uint, Param::Uint, Param::Bytes32],
        CallKind::RemoveAdmin => seq![Param::Address],
        CallKind::RemoveOperator => seq![Param::Address],
        CallKind::RenounceAdminRole => seq![],
        CallKind::RenounceOperatorRole => seq![],
        CallKind::SetProxyFactory => seq![Param::Address],
        CallKind::SetSafeFactory => seq![Param::Address],
        CallKind::UnpauseTrading => seq![],
    }
}

/// Whether the function returns a `bytes4` that is decoded too.
pub open spec fn call_has_output(k: CallKind) -> bool {
    match k {
        CallKind::AddAdmin => false,
        CallKind::AddOperator => false,
        CallKind::CancelOrder => false,
        CallKind::CancelOrders => false,
        CallKind::FillOrder => false,
        CallKind::FillOrders => false,
        CallKind::IncrementNonce => false,
        CallKind::MatchOrders => false,
        CallKind::OnErc1155BatchReceived => true,
        CallKind::OnErc1155Received => true,
        CallKind::PauseTrading => false,
        CallKind::RegisterToken => false,
        CallKind::RemoveAdmin => false,
        CallKind::RemoveOperator => false,
        CallKind::RenounceAdminRole => false,
        CallKind::RenounceOperatorRole => false,
        CallKind::SetProxyFactory => false,
        CallKind::SetSafeFactory => false,
        CallKind::UnpauseTrading => false,
    }
}

/// The event kind whose collection stands at position `i`.
pub open spec fn event_kind_at(i: int) -> EventKind {
    if i == 0 {
        EventKind::FeeCharged
    } else if i == 1 {
        EventKind::NewAdmin
    } else if i == 2 {
        EventKind::NewOperator
    } else if i == 3 {
        EventKind::OrderCancelled
    } else if i == 4 {
        EventKind::OrderFilled
    } else if i == 5 {
        EventKind::OrdersMatched
    } else if i == 6 {
        EventKind::ProxyFactoryUpdated
    } else if i == 7 {
        EventKind::RemovedAdmin
    } else if i == 8 {
        EventKind::RemovedOperator
    } else if i == 9 {
        EventKind::SafeFactoryUpdated
    } else if i == 10 {
        EventKind::TokenRegistered
    } else if i == 11 {
        EventKind::TradingPaused
    } else {
        EventKind::TradingUnpaused
    }
}

/// The function kind whose collection stands at position `i`.
pub open spec fn call_kind_at(i: int) -> CallKind {
    if i == 0 {
        CallKind::AddAdmin
    } else if i == 1 {
        CallKind::AddOperator
    } else if i == 2 {
        CallKind::CancelOrder
    } else if i == 3 {
        CallKind::CancelOrders
    } else if i == 4 {
        CallKind::FillOrder
    } else if i == 5 {
        CallKind::FillOrders
    } else if i == 6 {
        CallKind::IncrementNonce
    } else if i == 7 {
        CallKind::MatchOrders
    } else if i == 8 {
        CallKind::OnErc1155BatchReceived
    } else if i == 9 {
        CallKind::OnErc1155Received
    } else if i == 10 {
        CallKind::PauseTrading
    } else if i == 11 {
        CallKind::RegisterToken
    } else if i == 12 {
        CallKind::RemoveAdmin
    } else if i == 13 {
        CallKind::RemoveOperator
    } else if i == 14 {
        CallKind::RenounceAdminRole
    } else if i == 15 {
        CallKind::RenounceOperatorRole
    } else if i == 16 {
        CallKind::SetProxyFactory
    } else if i == 17 {
        CallKind::SetSafeFactory
    } else {
        CallKind::UnpauseTrading
    }
}

/// Positions and kinds correspond one to one.
pub proof fn lemma_event_kind_at_index(k: EventKind)
    ensures
        0 <= event_index(k) < EVENT_KIND_COUNT,
        event_kind_at(event_index(k)) == k,
{
}

/// Positions and kinds correspond one to one.
pub proof fn lemma_call_kind_at_index(k: CallKind)
    ensures
        0 <= call_index(k) < CALL_KIND_COUNT,
        call_kind_at(call_index(k)) == k,
{
}

impl EventKind {
    /// The position of this kind's collection.
    pub fn index(self) -> (r: usize)
        ensures
            r == event_index(self),
    {
        match self {
            EventKind::FeeCharged => 0,
            EventKind::NewAdmin => 1,
            EventKind::NewOperator => 2,
            EventKind::OrderCancelled => 3,
            EventKind::OrderFilled => 4,
            EventKind::OrdersMatched => 5,
            EventKind::ProxyFactoryUpdated => 6,
            EventKind::RemovedAdmin => 7,
            EventKind::RemovedOperator => 8,
            EventKind::SafeFactoryUpdated => 9,
            EventKind::TokenRegistered => 10,
            EventKind::TradingPaused => 11,
            EventKind::TradingUnpaused => 12,
        }
    }

    /// The first topic of this kind's logs.
    pub fn topic(self) -> (r: [u8; 32])
        ensures
            r@ == event_topic(self),
    {
        match self {
            EventKind::FeeCharged => FEE_CHARGED_TOPIC,
            EventKind::NewAdmin => NEW_ADMIN_TOPIC,
            EventKind::NewOperator => NEW_OPERATOR_TOPIC,
            EventKind::OrderCancelled => ORDER_CANCELLED_TOPIC,
            EventKind::OrderFilled => ORDER_FILLED_TOPIC,
            EventKind::OrdersMatched => ORDERS_MATCHED_TOPIC,
            EventKind::ProxyFactoryUpdated => PROXY_FACTORY_UPDATED_TOPIC,
            EventKind::RemovedAdmin => REMOVED_ADMIN_TOPIC,
            EventKind::RemovedOperator => REMOVED_OPERATOR_TOPIC,
            EventKind::SafeFactoryUpdated => SAFE_FACTORY_UPDATED_TOPIC,
            EventKind::TokenRegistered => TOKEN_REGISTERED_TOPIC,
            EventKind::TradingPaused => TRADING_PAUSED_TOPIC,
            EventKind::TradingUnpaused => TRADING_UNPAUSED_TOPIC,
        }
    }

    /// The indexed parameters.
    pub fn topic_params(self) -> (r: Vec<Param>)
        ensures
            r@ == event_topic_params(self),
    {
        match self {
            EventKind::FeeCharged => vec![Param::Address],
            EventKind::NewAdmin => vec![Param::Address, Param::Address],
            EventKind::NewOperator => vec![Param::Address, Param::Address],
            EventKind::OrderCancelled => vec![Param::Bytes32],
            EventKind::OrderFilled => vec![Param::Bytes32, Param::Address, Param::Address],
            EventKind::OrdersMatched => vec![Param::Bytes32, Param::Address],
            EventKind::ProxyFactoryUpdated => vec![Param::Address, Param::Address],
            EventKind::RemovedAdmin => vec![Param::Address, Param::Address],
            EventKind::RemovedOperator => vec![Param::Address, Param::Address],
            EventKind::SafeFactoryUpdated => vec![Param::Address, Param::Address],
            EventKind::TokenRegistered => vec![Param::Uint, Param::Uint, Param::Bytes32],
            EventKind::TradingPaused => vec![Param::Address],
            EventKind::TradingUnpaused => vec![Param::Address],
        }
    }

    /// The parameters in the data.
    pub fn data_params(self) -> (r: Vec<Param>)
        ensures
            r@ == event_data_params(self),
    {
        match self {
            EventKind::FeeCharged => vec![Param::Uint, Param::Uint],
            EventKind::NewAdmin => vec![],
            EventKind::NewOperator => vec![],
            EventKind::OrderCancelled => vec![],
            EventKind::OrderFilled => vec![Param::Uint, Param::Uint, Param::Uint, Param::Uint, Param::Uint],
            EventKind::OrdersMatched => vec![Param::Uint, Param::Uint, Param::Uint, Param::Uint],
            EventKind::ProxyFactoryUpdated => vec![],
            EventKind::RemovedAdmin => vec![],
            EventKind::RemovedOperator => vec![],
            EventKind::SafeFactoryUpdated => vec![],
            EventKind::TokenRegistered => vec![],
            EventKind::TradingPaused => vec![],
            EventKind::TradingUnpaused => vec![],
        }
    }

    /// The kind whose collection stands at position `i`.
    pub fn at(i: usize) -> (r: EventKind)
        requires
            i < EVENT_KIND_COUNT,
        ensures
            r == event_kind_at(i as int),
            event_index(r) == i,
    {












        if i == 0 {
            EventKind::FeeCharged
        } else if i == 1 {
            EventKind::NewAdmin
        } else if i == 2 {
            EventKind::NewOperator
        } else if i == 3 {
            EventKind::OrderCancelled
        } else if i == 4 {
            EventKind::OrderFilled
        } else if i == 5 {
            EventKind::OrdersMatched
        } else if i == 6 {
            EventKind::ProxyFactoryUpdated
        } else if i == 7 {
            EventKind::RemovedAdmin
        } else if i == 8 {
            EventKind::RemovedOperator
        } else if i == 9 {
            EventKind::SafeFactoryUpdated
        } else if i == 10 {
            EventKind::TokenRegistered
        } else if i == 11 {
            EventKind::TradingPaused
        } else {
            EventKind::TradingUnpaused
        }
    }
}

impl CallKind {
    /// The position of this kind's collection.
    pub fn index(self) -> (r: usize)
        ensures
            r == call_index(self),
    {
        match self {
            CallKind::AddAdmin => 0,
            CallKind::AddOperator => 1,
            CallKind::CancelOrder => 2,
            CallKind::CancelOrders => 3,
            CallKind::FillOrder => 4,
            CallKind::FillOrders => 5,
            CallKind::IncrementNonce => 6,
            CallKind::MatchOrders => 7,
            CallKind::OnErc1155BatchReceived => 8,
            CallKind::OnErc1155Received => 9,
            CallKind::PauseTrading => 10,
            CallKind::RegisterToken => 11,
            CallKind::RemoveAdmin => 12,
            CallKind::RemoveOperator => 13,
            CallKind::RenounceAdminRole => 14,
            CallKind::RenounceOperatorRole => 15,
            CallKind::SetProxyFactory => 16,
            CallKind::SetSafeFactory => 17,
            CallKind::UnpauseTrading => 18,
        }
    }

    /// The first four bytes of this kind's input.
    pub fn selector(self) -> (r: [u8; 4])
        ensures
            r@ == call_selector(self),
    {
        match self {
            CallKind::AddAdmin => ADD_ADMIN_SELECTOR,
            CallKind::AddOperator => ADD_OPERATOR_SELECTOR,
            CallKind::CancelOrder => CANCEL_ORDER_SELECTOR,
            CallKind::CancelOrders => CANCEL_ORDERS_SELECTOR,
            CallKind::FillOrder => FILL_ORDER_SELECTOR,
            CallKind::FillOrders => FILL_ORDERS_SELECTOR,
            CallKind::IncrementNonce => INCREMENT_NONCE_SELECTOR,
            CallKind::MatchOrders => MATCH_ORDERS_SELECTOR,
            CallKind::OnErc1155BatchReceived => ON_ERC1155_BATCH_RECEIVED_SELECTOR,
            CallKind::OnErc1155Received => ON_ERC1155_RECEIVED_SELECTOR,
            CallKind::PauseTrading => PAUSE_TRADING_SELECTOR,
            CallKind::RegisterToken => REGISTER_TOKEN_SELECTOR,
            CallKind::RemoveAdmin => REMOVE_ADMIN_SELECTOR,
            CallKind::RemoveOperator => REMOVE_OPERATOR_SELECTOR,
            CallKind::RenounceAdminRole => RENOUNCE_ADMIN_ROLE_SELECTOR,
            CallKind::RenounceOperatorRole => RENOUNCE_OPERATOR_ROLE_SELECTOR,
            CallKind::SetProxyFactory => SET_PROXY_FACTORY_SELECTOR,
            CallKind::SetSafeFactory => SET_SAFE_FACTORY_SELECTOR,
            CallKind::UnpauseTrading => UNPAUSE_TRADING_SELECTOR,
        }
    }

    /// The parameters after the selector.
    pub fn params(self) -> (r: Vec<Param>)
        ensures
            r@ == call_params(self),
    {
        match self {
            CallKind::AddAdmin => vec![Param::Address],
            CallKind::AddOperator => vec![Param::Address],
            CallKind::CancelOrder => vec![Param::Order],
            CallKind::CancelOrders => vec![Param::OrderArray],
            CallKind::FillOrder => vec![Param::Order, Param::Uint],
            CallKind::FillOrders => vec![Param::OrderArray, Param::UintArray],
            CallKind::IncrementNonce => vec![],
            CallKind::MatchOrders => vec![Param::Order, Param::OrderArray, Param::Uint, Param::UintArray],
            CallKind::OnErc1155BatchReceived => vec![Param::Address, Param::Address, Param::UintArray, Param::UintArray, Param::Bytes],
            CallKind::OnErc1155Received => vec![Param::Address, Param::Address, Param::Uint, Param::Uint, Param::Bytes],
            CallKind::PauseTrading => vec![],
            CallKind::RegisterToken => vec![Param::Uint, Param::Uint, Param::Bytes32],
            CallKind::RemoveAdmin => vec![Param::Address],
            CallKind::RemoveOperator => vec![Param::Address],
            CallKind::RenounceAdminRole => vec![],
            CallKind::RenounceOperatorRole => vec![],
            CallKind::SetProxyFactory => vec![Param::Address],
            CallKind::SetSafeFactory => vec![Param::Address],
            CallKind::UnpauseTrading => vec![],
        }
    }

    /// Whether this function's `bytes4` result is decoded.
    pub fn has_output(self) -> (r: bool)
        ensures
            r == call_has_output(self),
    {
        match self {
            CallKind::AddAdmin => false,
            CallKind::AddOperator => false,
            CallKind::CancelOrder => false,
            CallKind::CancelOrders => false,
            CallKind::FillOrder => false,
            CallKind::FillOrders => false,
            CallKind::IncrementNonce => false,
            CallKind::MatchOrders => false,
            CallKind::OnErc1155BatchReceived => true,
            CallKind::OnErc1155Received => true,
            CallKind::PauseTrading => false,
            CallKind::RegisterToken => false,
            CallKind::RemoveAdmin => false,
            CallKind::RemoveOperator => false,
            CallKind::RenounceAdminRole => false,
            CallKind::RenounceOperatorRole => false,
            CallKind::SetProxyFactory => false,
            CallKind::SetSafeFactory => false,
            CallKind::UnpauseTrading => false,
        }
    }

    /// The kind whose collection stands at position `i`.
    pub fn at(i: usize) -> (r: CallKind)
        requires
            i < CALL_KIND_COUNT,
        ensures
            r == call_kind_at(i as int),
            call_index(r) == i,
    {
        if i == 0 {
            CallKind::AddAdmin
        } else if i == 1 {
            CallKind::AddOperator
        } else if i == 2 {
            CallKind::CancelOrder
        } else if i == 3 {
            CallKind::CancelOrders
        } else if i == 4 {
            CallKind::FillOrder
        } else if i == 5 {
            CallKind::FillOrders
        } else if i == 6 {
            CallKind::IncrementNonce
        } else if i == 7 {
            CallKind::MatchOrders
        } else if i == 8 {
            CallKind::OnErc1155BatchReceived
        } else if i == 9 {
            CallKind::OnErc1155Received
        } else if i == 10 {
            CallKind::PauseTrading
        } else if i == 11 {
            CallKind::RegisterToken
        } else if i == 12 {
            CallKind::RemoveAdmin
        } else if i == 13 {
            CallKind::RemoveOperator
        } else if i == 14 {
            CallKind::RenounceAdminRole
        } else if i == 15 {
            CallKind::RenounceOperatorRole
        } else if i == 16 {
            CallKind::SetProxyFactory
        } else if i == 17 {
            CallKind::SetSafeFactory
        } else {
            CallKind::UnpauseTrading
        }
    }
}

} // verus!
