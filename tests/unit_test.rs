use cosmwasm_std::testing::{mock_env, MockApi};
use cosmwasm_std::{Api, StdError};

use cw_atomic_swap::contract::{
    accept_swap_order, confirm_swap_order, create_swap_order, get_config, get_orders_by_maker,
    instantiate, reply, requested_owner, CONFIRM_ORDER_REPLY_ID,
};
use cw_atomic_swap::error::ContractError;
use cw_atomic_swap::msg::{Env, InstantiateMsg, MessageInfo};
use cw_atomic_swap::state::{Coin, Config, OrderPointer, OrderStatus, SwapOrder};
use cw_atomic_swap::store::Market;
use cw_atomic_swap::utils;

fn test_env() -> Env {
    let env = mock_env();
    Env {
        block_time: env.block.time.seconds(),
        contract_address: env.contract.address.to_string(),
    }
}

fn message_info(sender: &str, funds: &[Coin]) -> MessageInfo {
    MessageInfo {
        sender: sender.to_string(),
        funds: funds.to_vec(),
    }
}

fn checked(addr: &str) -> Result<String, StdError> {
    MockApi::default().addr_validate(addr).map(|a| a.into_string())
}

fn start(info: &MessageInfo, msg: InstantiateMsg) -> Result<Market, ContractError> {
    instantiate(checked(&requested_owner(info, &msg)))
}

fn order(
    coin_in: Coin,
    coin_out: Coin,
    taker: Option<&str>,
    timeout: u64,
    status: OrderStatus,
) -> SwapOrder {
    SwapOrder {
        coin_in,
        coin_out,
        taker: taker.map(|t| t.to_string()),
        timeout,
        status,
    }
}

#[test]
fn test_instatiate() {
    let info = message_info("ste", &[]);

    let market = start(
        &info,
        InstantiateMsg {
            owner: Some("pit".to_string()),
        },
    )
    .unwrap();
    let expected_config = Config {
        owner: "pit".to_string(),
    };
    assert_eq!(
        expected_config,
        get_config(&market),
        "expected specified owner in config"
    );

    let market = start(&info, InstantiateMsg { owner: None }).unwrap();
    let expected_config = Config {
        owner: "ste".to_string(),
    };
    assert_eq!(expected_config, get_config(&market), "expected info sender as owner");
}

#[test]
fn test_instatiate_handling_errors() {
    let info = message_info("stepit", &[]);

    let err = start(
        &info,
        InstantiateMsg {
            owner: Some("".to_string()),
        },
    );

    assert!(
        err.is_err(),
        "expected failing instantiation when non valid owner"
    )
}

#[test]
fn test_creare_swap_order() {
    let env = test_env();
    let info = message_info("maker", &[]);
    let mut market = start(
        &info,
        InstantiateMsg {
            owner: Some("stepit".to_string()),
        },
    )
    .unwrap();

    create_swap_order(
        &mut market,
        &env,
        &info,
        Coin::new(1_000, "uatom"),
        Coin::new(1_000, "usdc"),
        Ok(None),
        10,
    )
    .unwrap();

    let orders = get_orders_by_maker(&market, &env, "maker".to_string()).orders;

    assert_eq!(orders.len(), 1, "expected one swap order in the store");
    assert_eq!(
        orders[0].1,
        order(
            Coin::new(1_000, "uatom"),
            Coin::new(1_000, "usdc"),
            None,
            10 + env.block_time,
            OrderStatus::Open,
        ),
        "expected a swap order with different values"
    );
}

#[test]
fn test_creare_swap_order_handling_errors() {
    let env = test_env();
    let info = message_info("maker", &[]);
    let mut market = start(
        &info,
        InstantiateMsg {
            owner: Some("stepit".to_string()),
        },
    )
    .unwrap();

    let err = create_swap_order(
        &mut market,
        &env,
        &info,
        Coin::new(1_000, "uatom"),
        Coin::new(1_000, "uatom"),
        Ok(None),
        10,
    );

    assert_eq!(
        err.unwrap_err(),
        ContractError::SameDenomError {
            denom: "uatom".to_string()
        }
    );

    let info = message_info("maker", &[Coin::new(1_000, "uosmo")]);
    let err = create_swap_order(
        &mut market,
        &env,
        &info,
        Coin::new(1_000, "uatom"),
        Coin::new(1_000, "uosmo"),
        Ok(None),
        10,
    );

    assert_eq!(
        err.unwrap_err(),
        ContractError::FundsError {
            accepted: 0,
            received: 1
        }
    );
}

#[test]
fn unit_test_test_accept_swap_order() {
    let env = test_env();
    let info = message_info("taker", &[Coin::new(1_000, "usdc")]);
    let mut market = start(
        &info,
        InstantiateMsg {
            owner: Some("stepit".to_string()),
        },
    )
    .unwrap();

    market.save_order(
        "maker".to_string(),
        0,
        order(
            Coin::new(1_000, "uatom"),
            Coin::new(1_000, "usdc"),
            None,
            10 + env.block_time,
            OrderStatus::Open,
        ),
    );

    accept_swap_order(&mut market, &info, &env, 0, "maker".to_string()).unwrap();

    let orders = get_orders_by_maker(&market, &env, "maker".to_string()).orders;
    assert_eq!(
        orders[0].1,
        order(
            Coin::new(1_000, "uatom"),
            Coin::new(1_000, "usdc"),
            Some("taker"),
            10 + env.block_time,
            OrderStatus::Accepted,
        ),
        "expect no errors when taker is None"
    );

    market.save_order(
        "maker".to_string(),
        0,
        order(
            Coin::new(1_000, "uatom"),
            Coin::new(1_000, "usdc"),
            Some("taker"),
            10 + env.block_time,
            OrderStatus::Open,
        ),
    );

    accept_swap_order(&mut market, &info, &env, 0, "maker".to_string()).unwrap();

    let orders = get_orders_by_maker(&market, &env, "maker".to_string()).orders;
    assert_eq!(
        orders[0].1,
        order(
            Coin::new(1_000, "uatom"),
            Coin::new(1_000, "usdc"),
            Some("taker"),
            10 + env.block_time,
            OrderStatus::Accepted,
        ),
        "expect no errors when sender is equal to specified taker"
    );

    let order_pointer = market.load_pointer().unwrap();
    assert_eq!(
        order_pointer,
        OrderPointer {
            maker: "maker".to_string(),
            taker: "taker".to_string(),
            order_id: 0,
        }
    );
}

#[test]
fn test_accept_swap_order_handling_errors() {
    let env = test_env();
    let info = message_info("taker", &[]);
    let mut market = start(
        &info,
        InstantiateMsg {
            owner: Some("stepit".to_string()),
        },
    )
    .unwrap();

    market.save_order(
        "maker".to_string(),
        0,
        order(
            Coin::new(1_000, "uatom"),
            Coin::new(1_000, "usdc"),
            None,
            10 + env.block_time,
            OrderStatus::Open,
        ),
    );

    let err = accept_swap_order(&mut market, &info, &env, 0, "maker".to_string());
    assert_eq!(
        err.unwrap_err(),
        ContractError::FundsError {
            accepted: 1,
            received: 0
        },
        "expected error when accepting order without sending funds"
    );

    let info = message_info("maker", &[Coin::new(1_000, "usdc")]);
    let err = accept_swap_order(&mut market, &info, &env, 0, "maker".to_string());
    assert_eq!(
        err.unwrap_err(),
        ContractError::SenderIsMaker {},
        "expected error when maker wants to accept own order"
    );

    let info = message_info("taker", &[Coin::new(1_000, "uosmo")]);
    let err = accept_swap_order(&mut market, &info, &env, 0, "maker".to_string());
    assert_eq!(
        err.unwrap_err(),
        ContractError::WrongCoin {
            sent_denom: "uosmo".to_string(),
            sent_amount: 1_000,
            expected_denom: "usdc".to_string(),
            expected_amount: 1_000,
        },
        "expected error when sending coin different than requested"
    );

    let mut expiration_time = env.block_time - 1;
    market.save_order(
        "maker".to_string(),
        0,
        order(
            Coin::new(1_000, "uatom"),
            Coin::new(1_000, "usdc"),
            None,
            expiration_time,
            OrderStatus::Open,
        ),
    );

    let info = message_info("taker", &[Coin::new(1_000, "usdc")]);
    let err = accept_swap_order(&mut market, &info, &env, 0, "maker".to_string());
    assert_eq!(
        err.unwrap_err(),
        ContractError::SwapOrderNotAvailable {
            status: OrderStatus::Open.to_string(),
            expiration: expiration_time
        },
        "expected error when order is expired"
    );

    expiration_time = env.block_time + 1;
    market.save_order(
        "maker".to_string(),
        0,
        order(
            Coin::new(1_000, "uatom"),
            Coin::new(1_000, "usdc"),
            Some("taker"),
            expiration_time,
            OrderStatus::Accepted,
        ),
    );

    let info = message_info("taker", &[Coin::new(1_000, "usdc")]);
    let err = accept_swap_order(&mut market, &info, &env, 0, "maker".to_string());
    assert_eq!(
        err.unwrap_err(),
        ContractError::SwapOrderNotAvailable {
            status: OrderStatus::Accepted.to_string(),
            expiration: expiration_time
        },
        "expected error when order is not open"
    );

    market.save_order(
        "maker".to_string(),
        0,
        order(
            Coin::new(1_000, "uatom"),
            Coin::new(1_000, "usdc"),
            Some("maker"),
            expiration_time,
            OrderStatus::Open,
        ),
    );

    let info = message_info("taker", &[Coin::new(1_000, "usdc")]);
    let err = accept_swap_order(&mut market, &info, &env, 0, "maker".to_string());
    assert_eq!(
        err.unwrap_err(),
        ContractError::Unauthorized {},
        "expected error when sender is not the specified taker"
    );
}

#[test]
fn test_confirm_swap_order() {
    let env = test_env();
    let info = message_info("maker", &[Coin::new(1_000, "uatom")]);
    let mut market = start(&info, InstantiateMsg { owner: None }).unwrap();

    market.save_order(
        "maker".to_string(),
        0,
        order(
            Coin::new(1_000, "uatom"),
            Coin::new(1_000, "usdc"),
            Some("taker"),
            env.block_time + 10,
            OrderStatus::Accepted,
        ),
    );

    confirm_swap_order(&mut market, &info, &env, 0, "maker".to_string()).unwrap();

    let order_pointer = market.load_pointer();
    assert_eq!(order_pointer, None,);
}

#[test]
fn test_confirm_swap_order_handling_errors() {
    let env = test_env();
    let info = message_info("maker", &[]);
    let mut market = start(&info, InstantiateMsg { owner: None }).unwrap();

    market.save_order(
        "maker".to_string(),
        0,
        order(
            Coin::new(1_000, "uatom"),
            Coin::new(1_000, "usdc"),
            Some("taker"),
            env.block_time + 10,
            OrderStatus::Accepted,
        ),
    );

    let err = confirm_swap_order(&mut market, &info, &env, 0, "maker".to_string());
    assert_eq!(
        err.unwrap_err(),
        ContractError::FundsError {
            accepted: 1,
            received: 0
        }
    );

    let info = message_info("taker", &[Coin::new(1_000, "usdc")]);
    let err = confirm_swap_order(&mut market, &info, &env, 0, "maker".to_string());
    assert_eq!(err.unwrap_err(), ContractError::Unauthorized,);

    let info = message_info("maker", &[Coin::new(1_000, "uosmo")]);
    let err = confirm_swap_order(&mut market, &info, &env, 0, "maker".to_string());
    assert_eq!(
        err.unwrap_err(),
        ContractError::WrongCoin {
            sent_denom: "uosmo".to_string(),
            sent_amount: 1_000,
            expected_denom: "uatom".to_string(),
            expected_amount: 1_000,
        },
        "expected error when sending coin different than requested"
    );

    let mut expiration_time = env.block_time - 1;
    market.save_order(
        "maker".to_string(),
        0,
        order(
            Coin::new(1_000, "uatom"),
            Coin::new(1_000, "usdc"),
            None,
            expiration_time,
            OrderStatus::Open,
        ),
    );

    let info = message_info("maker", &[Coin::new(1_000, "usdc")]);
    let err = confirm_swap_order(&mut market, &info, &env, 0, "maker".to_string());
    assert_eq!(
        err.unwrap_err(),
        ContractError::SwapOrderNotAvailable {
            status: OrderStatus::Open.to_string(),
            expiration: expiration_time
        },
        "expected error when order is expired"
    );

    expiration_time = env.block_time + 1;
    market.save_order(
        "maker".to_string(),
        0,
        order(
            Coin::new(1_000, "uatom"),
            Coin::new(1_000, "usdc"),
            None,
            expiration_time,
            OrderStatus::Confirmed,
        ),
    );

    let err = confirm_swap_order(&mut market, &info, &env, 0, "maker".to_string());
    assert_eq!(
        err.unwrap_err(),
        ContractError::SwapOrderNotAvailable {
            status: OrderStatus::Confirmed.to_string(),
            expiration: expiration_time
        },
        "expected error has been already confirmed"
    );
}

#[test]
fn test_replies() {
    let mut market = Market::new(
        Config {
            owner: "0xowner".to_string(),
        },
        0,
    );

    market.save_pointer(OrderPointer {
        order_id: 0,
        maker: "0xmaker".to_string(),
        taker: "0xtaker".to_string(),
    });

    market.save_order(
        "0xmaker".to_string(),
        0,
        order(
            Coin::new(1_000, "uosmo"),
            Coin::new(1_000, "usdc"),
            Some("0xtaker"),
            10,
            OrderStatus::Accepted,
        ),
    );

    reply(&mut market, CONFIRM_ORDER_REPLY_ID).unwrap();

    let order_pointer = market.load_pointer();
    assert_eq!(order_pointer, None)
}

#[test]
fn test_replies_handling_errors() {
    let mut market = Market::new(
        Config {
            owner: "0xowner".to_string(),
        },
        0,
    );

    market.save_pointer(OrderPointer {
        order_id: 1,
        maker: "0xmaker".to_string(),
        taker: "0xtaker".to_string(),
    });

    market.save_order(
        "0xmaker".to_string(),
        0,
        order(
            Coin::new(1_000, "uosmo"),
            Coin::new(1_000, "usdc"),
            Some("0xtaker"),
            10,
            OrderStatus::Accepted,
        ),
    );

    let err = reply(&mut market, CONFIRM_ORDER_REPLY_ID);

    assert_eq!(err.unwrap_err(), ContractError::Unauthorized)
}

#[test]
fn test_validate_coins_number() {
    let funds = vec![Coin {
        denom: "foo".to_string(),
        amount: 100,
    }];
    let result = utils::validate_coins_number(&funds, 1);
    assert!(result.is_ok());

    let funds = vec![
        Coin {
            denom: "foo".to_string(),
            amount: 100,
        },
        Coin {
            denom: "bar".to_string(),
            amount: 200,
        },
    ];
    let result = utils::validate_coins_number(&funds, 1);
    assert!(result.is_err());
}

#[test]
fn test_validate_different_denoms() {
    let result = utils::validate_different_denoms(&"uosmo".to_string(), &"uosmo".to_string());
    assert!(result.is_err());
    assert_eq!(
        result.unwrap_err(),
        ContractError::SameDenomError {
            denom: "uosmo".to_string(),
        }
    );
    let result = utils::validate_different_denoms(&"uosmo".to_string(), &"uatom".to_string());
    assert!(result.is_ok());
}

#[test]
fn test_check_correct_coins() {
    let sent_coin = Coin {
        denom: "uosmo".to_string(),
        amount: 1_000,
    };
    let expected_coin = Coin {
        denom: "uosmo".to_string(),
        amount: 1_000,
    };

    let result = utils::check_correct_coins(&sent_coin, &expected_coin);
    assert!(result.is_ok());

    let sent_coin = Coin {
        denom: "uosmo".to_string(),
        amount: 1_000,
    };
    let expected_coin = Coin {
        denom: "uatom".to_string(),
        amount: 1_000,
    };

    let result = utils::check_correct_coins(&sent_coin, &expected_coin);
    assert!(result.is_err());
    assert_eq!(
        result.unwrap_err(),
        ContractError::WrongCoin {
            sent_denom: "uosmo".to_string(),
            sent_amount: 1_000_u128,
            expected_denom: "uatom".to_string(),
            expected_amount: 1_000_u128,
        }
    );

    let sent_coin = Coin {
        denom: "uosmo".to_string(),
        amount: 1_000,
    };
    let expected_coin = Coin {
        denom: "uosmo".to_string(),
        amount: 2_000,
    };

    let result = utils::check_correct_coins(&sent_coin, &expected_coin);
    assert!(result.is_err());
    assert_eq!(
        result.unwrap_err(),
        ContractError::WrongCoin {
            sent_denom: "uosmo".to_string(),
            sent_amount: 1_000_u128,
            expected_denom: "uosmo".to_string(),
            expected_amount: 2_000_u128,
        }
    );
}

#[test]
fn test_validate_status_and_expiration() {
    let swap_order = order(
        Coin::new(1_000, "uatom"),
        Coin::new(1_000, "usdc"),
        Some("taker"),
        10,
        OrderStatus::Accepted,
    );

    let mut block_time = 9;
    let mut valid_status = OrderStatus::Accepted;

    let result = utils::validate_status_and_expiration(&swap_order, valid_status, block_time);

    assert!(result.is_ok());

    block_time = 11;
    let result = utils::validate_status_and_expiration(&swap_order, valid_status, block_time);
    assert_eq!(
        result.unwrap_err(),
        ContractError::SwapOrderNotAvailable {
            status: OrderStatus::Accepted.to_string(),
            expiration: 10,
        }
    );

    block_time = 10;
    valid_status = OrderStatus::Open;

    let result = utils::validate_status_and_expiration(&swap_order, valid_status, block_time);
    assert_eq!(
        result.unwrap_err(),
        ContractError::SwapOrderNotAvailable {
            status: OrderStatus::Accepted.to_string(),
            expiration: 10,
        }
    );
}
