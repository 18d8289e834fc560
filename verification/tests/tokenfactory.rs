use soulp::execute::Env;
use soulp::response::CosmosMsg;
use soulp::tokenfactory::osmosis::{denom, MsgCreateDenom, MsgMint, TFToken as OsmosisToken};
use soulp::tokenfactory::{Coin, TFToken};

/// The fields of a protocol-buffers message whose fields all carry their length.
fn fields(mut bytes: &[u8]) -> Vec<(u32, Vec<u8>)> {
    let mut out = Vec::new();
    while !bytes.is_empty() {
        let (tag, wire_type) = prost::encoding::decode_key(&mut bytes).unwrap();
        assert_eq!(wire_type, prost::encoding::WireType::LengthDelimited);
        let len = prost::encoding::decode_varint(&mut bytes).unwrap() as usize;
        let (body, rest) = bytes.split_at(len);
        out.push((tag, body.to_vec()));
        bytes = rest;
    }
    out
}

fn token() -> OsmosisToken {
    OsmosisToken::new("owner".to_string(), "SouLP".to_string())
}

#[test]
fn denom_is_factory_owner_subdenom() {
    assert_eq!(denom("cosmos2contract", "SouLP"), "factory/cosmos2contract/SouLP");
    assert_eq!(denom("", ""), "factory//");
    assert_eq!(token().denom(), "factory/owner/SouLP");
}

#[test]
fn denom_is_the_same_for_the_same_inputs() {
    assert_eq!(denom("owner", "sub"), denom("owner", "sub"));
    assert_eq!(token().denom(), token().denom());
}

#[test]
fn denom_changes_with_either_input() {
    assert_ne!(denom("owner", "sub"), denom("owner", "sub2"));
    assert_ne!(denom("owner", "sub"), denom("owner2", "sub"));
    assert_ne!(denom("owner", "sub"), denom("Owner", "sub"));
}

#[test]
fn denom_of_an_owner_with_a_slash_can_collide() {
    // Addresses hold no slash; with one, two pairs can share a denom.
    assert_eq!(denom("a/b", "c"), denom("a", "b/c"));
}

#[test]
fn token_hands_out_its_owner_and_subdenom() {
    let token = token();
    assert_eq!(token.owner(), "owner");
    assert_eq!(token.subdenom(), "SouLP");
    assert_eq!(token.owner, "owner");
    assert_eq!(token.subdenom, "SouLP");
}

#[test]
fn create_builds_one_create_denom_command() {
    let messages = token().create();
    assert_eq!(messages.len(), 1);
    match &messages[0] {
        CosmosMsg::Stargate { type_url, value } => {
            assert_eq!(type_url, "/osmosis.tokenfactory.v1beta1.MsgCreateDenom");
            assert_eq!(type_url, MsgCreateDenom::TYPE_URL);
            assert_eq!(
                fields(value),
                vec![(1, b"owner".to_vec()), (2, b"SouLP".to_vec())]
            );
        }
        _ => panic!("Expected Stargate message"),
    }
}

#[test]
fn mint_builds_one_mint_command() {
    let messages = token().mint(123456789012345678901234567890123456789u128, "someone".to_string());
    assert_eq!(messages.len(), 1);
    match &messages[0] {
        CosmosMsg::Stargate { type_url, value } => {
            assert_eq!(type_url, "/osmosis.tokenfactory.v1beta1.MsgMint");
            assert_eq!(type_url, MsgMint::TYPE_URL);
            let outer = fields(value);
            assert_eq!(outer.len(), 3);
            assert_eq!(outer[0], (1, b"owner".to_vec()));
            assert_eq!(outer[2], (3, b"someone".to_vec()));
            assert_eq!(outer[1].0, 2);
            assert_eq!(
                fields(&outer[1].1),
                vec![
                    (1, b"factory/owner/SouLP".to_vec()),
                    (2, b"123456789012345678901234567890123456789".to_vec())
                ]
            );
        }
        _ => panic!("Expected Stargate message"),
    }
}

#[test]
fn mint_command_of_the_contract_itself() {
    let env = Env { contract_address: "cosmos2contract".to_string() };
    let command = MsgMint::subdenom(&env, "SouLP", 0, "recipient");
    assert_eq!(command.sender, "cosmos2contract");
    assert_eq!(command.mint_to_address, "recipient");
    assert_eq!(
        command.amount,
        Some(Coin { denom: "factory/cosmos2contract/SouLP".to_string(), amount: "0".to_string() })
    );
}

#[test]
fn amounts_are_written_in_decimal() {
    let env = Env { contract_address: "c".to_string() };
    let amount = |n: u128| MsgMint::subdenom(&env, "s", n, "r").amount.unwrap().amount;
    assert_eq!(amount(0), "0");
    assert_eq!(amount(9), "9");
    assert_eq!(amount(10), "10");
    assert_eq!(amount(1000), "1000");
    assert_eq!(amount(u128::MAX), "340282366920938463463374607431768211455");
}

#[test]
fn create_denom_in_the_wire_format() {
    let command = MsgCreateDenom { sender: "addr".to_string(), subdenom: "SouLP".to_string() };
    assert_eq!(
        command.encode_to_vec(),
        vec![0x0a, 4, b'a', b'd', b'd', b'r', 0x12, 5, b'S', b'o', b'u', b'L', b'P']
    );
}

#[test]
fn coin_in_the_wire_format() {
    let coin = Coin { denom: "u".to_string(), amount: "12".to_string() };
    assert_eq!(coin.encode_to_vec(), vec![0x0a, 1, b'u', 0x12, 2, b'1', b'2']);
    assert_eq!(Coin::TYPE_URL, "/cosmos.bank.v1beta1.Coin");
}

#[test]
fn mint_in_the_wire_format() {
    let command = MsgMint {
        sender: "me".to_string(),
        amount: Some(Coin { denom: "u".to_string(), amount: "12".to_string() }),
        mint_to_address: "you".to_string(),
    };
    assert_eq!(
        command.encode_to_vec(),
        vec![
            0x0a, 2, b'm', b'e', 0x12, 7, 0x0a, 1, b'u', 0x12, 2, b'1', b'2', 0x1a, 3, b'y', b'o',
            b'u'
        ]
    );
}

#[test]
fn empty_texts_take_no_bytes() {
    let command = MsgCreateDenom { sender: String::new(), subdenom: "s".to_string() };
    assert_eq!(command.encode_to_vec(), vec![0x12, 1, b's']);
    let nothing = MsgCreateDenom { sender: String::new(), subdenom: String::new() };
    assert_eq!(nothing.encode_to_vec(), Vec::<u8>::new());
}

#[test]
fn a_mint_without_amount_has_no_second_field() {
    let command =
        MsgMint { sender: "me".to_string(), amount: None, mint_to_address: "you".to_string() };
    assert_eq!(command.encode_to_vec(), vec![0x0a, 2, b'm', b'e', 0x1a, 3, b'y', b'o', b'u']);
}

#[test]
fn an_empty_coin_is_still_a_field() {
    let command = MsgMint {
        sender: "me".to_string(),
        amount: Some(Coin { denom: String::new(), amount: String::new() }),
        mint_to_address: String::new(),
    };
    assert_eq!(command.encode_to_vec(), vec![0x0a, 2, b'm', b'e', 0x12, 0]);
}

#[test]
fn long_texts_have_their_length_in_two_bytes() {
    let sender = "x".repeat(200);
    let command = MsgCreateDenom { sender: sender.clone(), subdenom: String::new() };
    let mut expected = vec![0x0a, 0xc8, 0x01];
    expected.extend_from_slice(sender.as_bytes());
    assert_eq!(command.encode_to_vec(), expected);
}

#[test]
fn texts_are_measured_in_bytes() {
    let command = MsgCreateDenom { sender: "é".to_string(), subdenom: String::new() };
    assert_eq!(command.encode_to_vec(), vec![0x0a, 2, 0xc3, 0xa9]);
}

#[test]
fn a_long_coin_has_its_length_in_two_bytes() {
    let denom = "d".repeat(130);
    let command = MsgMint {
        sender: String::new(),
        amount: Some(Coin { denom: denom.clone(), amount: "1".to_string() }),
        mint_to_address: String::new(),
    };
    // The coin: key, two bytes of length, 130 bytes of denom, then the amount.
    let mut expected = vec![0x12, 0x88, 0x01, 0x0a, 0x82, 0x01];
    expected.extend_from_slice(denom.as_bytes());
    expected.extend_from_slice(&[0x12, 1, b'1']);
    assert_eq!(command.encode_to_vec(), expected);
}

#[test]
fn commands_become_stargate_instructions() {
    let create = MsgCreateDenom { sender: "a".to_string(), subdenom: "b".to_string() };
    assert_eq!(
        create.clone().into_msg(),
        CosmosMsg::Stargate {
            type_url: "/osmosis.tokenfactory.v1beta1.MsgCreateDenom".to_string(),
            value: create.encode_to_vec(),
        }
    );
    let mint = MsgMint { sender: "a".to_string(), amount: None, mint_to_address: "b".to_string() };
    assert_eq!(
        mint.clone().into_msg(),
        CosmosMsg::Stargate {
            type_url: "/osmosis.tokenfactory.v1beta1.MsgMint".to_string(),
            value: mint.encode_to_vec(),
        }
    );
}
