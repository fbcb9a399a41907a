use binancex::types::futures_common::general::OrderType as FuturesOrderType;
use binancex::types::futures_dapi::general::ContractStatus;
use binancex::types::spot::general::{OrderStatus, OrderType, SymbolStatus};
use binancex::types::spot::limits::{DepthLimit, RequestWeight};
use binancex::types::spot::permissions::Permission;

#[test]
fn test_convert_order_type() {
    let order_types = vec![
        FuturesOrderType::Limit,
        FuturesOrderType::Market,
        FuturesOrderType::Stop,
        FuturesOrderType::StopMarket,
        FuturesOrderType::TakeProfit,
        FuturesOrderType::TakeProfitMarket,
        FuturesOrderType::TrailingStopMarket,
    ];

    for order_type in order_types.into_iter() {
        let order_type_static_str = order_type.as_str();
        assert_eq!(
            order_type,
            FuturesOrderType::from_str(order_type_static_str).unwrap()
        );
        assert_eq!(order_type, order_type_static_str.try_into().unwrap());

        let order_type_owned_str = order_type_static_str.to_string();
        assert_eq!(
            order_type,
            FuturesOrderType::from_str(&order_type_owned_str).unwrap()
        );
    }
}

#[test]
fn test_convert_contract_status() {
    let contract_statuses = vec![
        ContractStatus::PendingTrading,
        ContractStatus::Trading,
        ContractStatus::PreDelivering,
        ContractStatus::Delivering,
        ContractStatus::Delivered,
    ];

    for contract_status in contract_statuses.into_iter() {
        let status_static_str = contract_status.as_str();
        assert_eq!(
            contract_status,
            ContractStatus::from_str(status_static_str).unwrap()
        );
        assert_eq!(contract_status, status_static_str.try_into().unwrap());

        let status_owned_str = status_static_str.to_owned();
        assert_eq!(
            contract_status,
            ContractStatus::from_str(&status_owned_str).unwrap()
        );
    }
}

#[test]
fn test_convert_order_status() {
    let order_statuses = vec![
        OrderStatus::New,
        OrderStatus::PartiallyFilled,
        OrderStatus::Filled,
        OrderStatus::Canceled,
        OrderStatus::PendingCancel,
        OrderStatus::Rejected,
        OrderStatus::Expired,
    ];

    for status in order_statuses.into_iter() {
        let status_static_str = status.as_str();
        assert_eq!(status, OrderStatus::from_str(status_static_str).unwrap());
        assert_eq!(status, status_static_str.try_into().unwrap());

        let status_owned_str = status_static_str.to_string();
        assert_eq!(status, OrderStatus::from_str(&status_owned_str).unwrap());
    }
}

#[test]
fn test_convert_order_types() {
    let order_types = vec![
        OrderType::Limit,
        OrderType::Market,
        OrderType::StopLoss,
        OrderType::StopLossLimit,
        OrderType::TakeProfit,
        OrderType::TakeProfitLimit,
        OrderType::LimitMaker,
    ];

    for order_type in order_types.into_iter() {
        let type_static_str = order_type.as_str();
        assert_eq!(order_type, OrderType::from_str(type_static_str).unwrap());
        assert_eq!(order_type, type_static_str.try_into().unwrap());

        let type_owned_str = type_static_str.to_string();
        assert_eq!(order_type, OrderType::from_str(&type_owned_str).unwrap());
    }
}

#[test]
fn test_convert_symbol_status() {
    let symbol_statuses = vec![
        SymbolStatus::PreTrading,
        SymbolStatus::Trading,
        SymbolStatus::PostTrading,
        SymbolStatus::EndOfDay,
        SymbolStatus::Halt,
        SymbolStatus::AuctionMatch,
        SymbolStatus::Break,
    ];

    for status in symbol_statuses.into_iter() {
        let status_static_str = status.as_str();
        assert_eq!(status, SymbolStatus::from_str(status_static_str).unwrap());
        assert_eq!(status, status_static_str.try_into().unwrap());

        let status_owned_str = status_static_str.to_string();
        assert_eq!(status, SymbolStatus::from_str(&status_owned_str).unwrap());
    }
}

#[test]
fn test_depth_limit_over_5000_to_weight() {
    let limit = DepthLimit::Limit(6000);
    assert_eq!(limit.request_weight(), RequestWeight::Weight50);
}

#[test]
fn test_convert_permissions() {
    let permissions = vec![
        Permission::Spot,
        Permission::Margin,
        Permission::Leveraged,
        Permission::TrdGrp002,
        Permission::TrdGrp003,
        Permission::TrdGrp004,
        Permission::TrdGrp005,
    ];

    for permission in permissions.into_iter() {
        let permission_static_str = permission.as_str();
        assert_eq!(
            permission,
            Permission::from_str(permission_static_str).unwrap()
        );
        assert_eq!(permission, permission_static_str.try_into().unwrap());

        let permission_owned_str = permission_static_str.to_string();
        assert_eq!(
            permission,
            Permission::from_str(&permission_owned_str).unwrap()
        );
    }
}
