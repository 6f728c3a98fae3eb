use cosmwasm_std::testing::{mock_dependencies, mock_env};
use cosmwasm_std::{Api, Deps};
use nft_pixel_wall::contract::{execute, instantiate};
use nft_pixel_wall::error::ContractError;
use nft_pixel_wall::execute::get_owner;
use nft_pixel_wall::msg::{ExecuteMsg, InstantiateMsg, MessageInfo};
use nft_pixel_wall::query::{query_config, query_pixel_nft_info, query_tokens};
use nft_pixel_wall::response::Response;
use nft_pixel_wall::state::{Coin, Color, Config, PixelExtension, PixelTokenInfo};

const TEST_CREATOR: &str = "creator";
const TEST_USER: &str = "user";
const TEST_TOKEN_ID1: u16 = 0;
const TEST_TOKEN_ID2: u16 = 1;
const TEST_URL: &str = "url";
const TEST_COLORS: [[Color; 5]; 5] = [[Color {
    r: 2,
    g: 2,
    b: 2,
    a: 2,
}; 5]; 5];
const EMPTY_COLORS: [[Color; 5]; 5] = [[Color {
    r: 0,
    g: 0,
    b: 0,
    a: 0,
}; 5]; 5];

fn mock_info(sender: &str, funds: &[Coin]) -> MessageInfo {
    MessageInfo {
        sender: sender.to_string(),
        funds: funds.to_vec(),
    }
}

fn no_fee() -> Coin {
    Coin {
        denom: "uluna".to_string(),
        amount: 0,
    }
}

fn get_token_info(owner: &str, colors: [[Color; 5]; 5], url: String) -> PixelTokenInfo {
    PixelTokenInfo {
        owner: owner.to_string(),
        approvals: vec![],
        token_uri: None,
        extension: PixelExtension {
            pixel_colors: colors,
            url,
        },
    }
}

fn owner_of_query(deps: Deps, position: u16) -> Option<String> {
    get_owner(deps, mock_env(), position)
}

fn pixel_info_query(deps: Deps, token_id: String) -> PixelTokenInfo {
    query_pixel_nft_info(deps, token_id).unwrap()
}

#[test]
fn proper_initialization() {
    let mut deps = mock_dependencies(&[]);

    let msg = InstantiateMsg { mint_fee: no_fee() };
    let info = mock_info(TEST_CREATOR, &[]);

    // we can just call .unwrap() to assert this was a success
    let res = instantiate(&mut deps.as_mut(), mock_env(), info.clone(), msg).unwrap();
    assert_eq!(
        Response::new()
            .add_attribute("method", "instantiate")
            .add_attribute("owner", TEST_CREATOR),
        res
    );

    let config: Config = query_config(deps.as_ref()).unwrap();
    assert_eq!(
        Config {
            owner: deps.api.addr_canonicalize(TEST_CREATOR).unwrap().into(),
            mint_fee: no_fee(),
        },
        config
    );
}

#[test]
fn can_mint_pixel() {
    let mut deps = mock_dependencies(&[]);

    let msg = InstantiateMsg { mint_fee: no_fee() };
    let info = mock_info(TEST_CREATOR, &[]);

    // we can just call .unwrap() to assert this was a success
    let _res = instantiate(&mut deps.as_mut(), mock_env(), info.clone(), msg).unwrap();

    let user = mock_info(TEST_USER, &[]);

    let mint_msg = ExecuteMsg::Mint {
        token_id: TEST_TOKEN_ID1,
        color_map: None,
        url: None,
    };
    // Mint first NFT.
    let res = execute(&mut deps.as_mut(), mock_env(), user.clone(), mint_msg).unwrap();

    assert_eq!(
        Response::new()
            .add_attribute("action", "mint_pixel")
            .add_attribute("minter", &user.sender)
            .add_attribute("token_id", &TEST_TOKEN_ID1.to_string())
            .add_attribute("url", "")
            .add_attribute("color_map", &format!("{:?}", EMPTY_COLORS)),
        res
    );

    let mint_msg = ExecuteMsg::Mint {
        token_id: TEST_TOKEN_ID2,
        color_map: None,
        url: None,
    };

    // Mint second NFT.
    let res = execute(&mut deps.as_mut(), mock_env(), user.clone(), mint_msg).unwrap();

    assert_eq!(
        Response::new()
            .add_attribute("action", "mint_pixel")
            .add_attribute("minter", &user.sender)
            .add_attribute("token_id", &TEST_TOKEN_ID2.to_string())
            .add_attribute("url", "")
            .add_attribute("color_map", &format!("{:?}", EMPTY_COLORS)),
        res
    );

    // Verify that first NFT was correctly created.
    let actual_token_info: PixelTokenInfo =
        pixel_info_query(deps.as_ref(), TEST_TOKEN_ID1.to_string());
    let expected_token_info = get_token_info(&user.sender, EMPTY_COLORS, "".to_string());
    assert_eq!(expected_token_info, actual_token_info);

    // Check that we can get the owner of the first NFT.
    let owner_response = owner_of_query(deps.as_ref(), TEST_TOKEN_ID1);
    assert_eq!(Some(user.sender.to_string()), owner_response);
    assert_eq!(Vec::<cw721_base::state::Approval>::new(), actual_token_info.approvals);

    // Verify that second NFT was correctly created.
    let actual_token_info: PixelTokenInfo =
        pixel_info_query(deps.as_ref(), TEST_TOKEN_ID2.to_string());
    assert_eq!(expected_token_info, actual_token_info);

    // Check that we can get the owner of the second NFT.
    let owner_response = owner_of_query(deps.as_ref(), TEST_TOKEN_ID2);
    assert_eq!(Some(user.sender.to_string()), owner_response);
    assert_eq!(Vec::<cw721_base::state::Approval>::new(), actual_token_info.approvals);

    // Check that we can get all tokens for the user.
    let tokens_response =
        query_tokens(deps.as_ref(), user.sender.to_string(), None, None).unwrap();
    assert_eq!(
        vec![TEST_TOKEN_ID1.to_string(), TEST_TOKEN_ID2.to_string()],
        tokens_response
    );
}

#[test]
fn can_not_mint_existing_pixel() {
    let mut deps = mock_dependencies(&[]);

    let msg = InstantiateMsg { mint_fee: no_fee() };
    let info = mock_info(TEST_CREATOR, &[]);

    // we can just call .unwrap() to assert this was a success
    let _res = instantiate(&mut deps.as_mut(), mock_env(), info.clone(), msg).unwrap();

    let mint_msg = ExecuteMsg::Mint {
        token_id: TEST_TOKEN_ID1,
        color_map: None,
        url: None,
    };
    let user = mock_info(TEST_USER, &[]);
    // First call is successful.
    let _res = execute(&mut deps.as_mut(), mock_env(), user.clone(), mint_msg.clone()).unwrap();

    // Second call fails.
    let error = execute(&mut deps.as_mut(), mock_env(), info, mint_msg).unwrap_err();
    assert_eq!(ContractError::Claimed {}, error);
}

#[test]
fn can_not_mint_out_of_range_pixel() {
    let mut deps = mock_dependencies(&[]);

    let msg = InstantiateMsg { mint_fee: no_fee() };
    let info = mock_info(TEST_CREATOR, &[]);

    // we can just call .unwrap() to assert this was a success
    let _res = instantiate(&mut deps.as_mut(), mock_env(), info.clone(), msg).unwrap();

    let mint_msg = ExecuteMsg::Mint {
        token_id: 40_000,
        color_map: None,
        url: None,
    };
    let user = mock_info(TEST_USER, &[]);
    let error = execute(&mut deps.as_mut(), mock_env(), user.clone(), mint_msg).unwrap_err();
    assert_eq!(ContractError::InvalidTokenRange {}, error);
}

#[test]
fn can_mint_pixel_with_url_and_colors() {
    let mut deps = mock_dependencies(&[]);

    let msg = InstantiateMsg { mint_fee: no_fee() };
    let info = mock_info(TEST_CREATOR, &[]);

    // we can just call .unwrap() to assert this was a success
    let _res = instantiate(&mut deps.as_mut(), mock_env(), info.clone(), msg).unwrap();

    let user = mock_info(TEST_USER, &[]);

    let mint_msg = ExecuteMsg::Mint {
        token_id: TEST_TOKEN_ID1,
        color_map: Some(TEST_COLORS),
        url: Some(TEST_URL.to_string()),
    };

    let res = execute(&mut deps.as_mut(), mock_env(), user.clone(), mint_msg).unwrap();

    assert_eq!(
        Response::new()
            .add_attribute("action", "mint_pixel")
            .add_attribute("minter", &user.sender)
            .add_attribute("token_id", &TEST_TOKEN_ID1.to_string())
            .add_attribute("url", TEST_URL)
            .add_attribute("color_map", &format!("{:?}", TEST_COLORS)),
        res
    );

    let actual_token_info: PixelTokenInfo =
        pixel_info_query(deps.as_ref(), TEST_TOKEN_ID1.to_string());
    let expected_token_info = get_token_info(&user.sender, TEST_COLORS, TEST_URL.to_string());
    assert_eq!(expected_token_info, actual_token_info);
}
