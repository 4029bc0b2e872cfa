use battleballs::instruction::GameInstruction;
use battleballs::error::GameError;
use battleballs::state::{Player, RentOffer, SellOffer, TeamClass, UpgradePlayer, UserAccount, UserName};
use battleballs::wire::{read_address, read_u64, write_bytes, write_u64};

fn key(seed: u8) -> [u8; 32] {
    let mut k = [0u8; 32];
    for (i, b) in k.iter_mut().enumerate() {
        *b = seed.wrapping_mul(31).wrapping_add(i as u8);
    }
    k
}

fn sample_player() -> Player {
    Player {
        nft_adress: key(1),
        owner: key(2),
        for_sale: true,
        sale_required_price: 1_500_000_000,
        for_rent: false,
        rent_required_price: 0,
        who_rents: key(3),
        rented: false,
        rented_for_time: 0,
        rent_end_on: 0,
        offence: 0x0102_0304_0506_0708,
        defence: 77,
    }
}

fn sample_account() -> UserAccount {
    UserAccount {
        user_address: key(4),
        user_name: *b"aliceXXXXX",
        user_name_length: 5,
        team_is_ready: true,
        team_power: 135,
        team_class: TeamClass::Standard,
        defence_1: key(5),
        defence_2: key(6),
        middle: key(7),
        offence_1: key(8),
        offence_2: key(9),
        experienced: 42,
    }
}

/// The same player, field after field, as borsh lays out the text-flagged
/// record.
fn player_by_borsh(p: &Player) -> Vec<u8> {
    let flag = |on: bool| if on { "XX".to_string() } else { "aa".to_string() };
    let mut out = Vec::new();
    out.extend(borsh::to_vec(&p.nft_adress).unwrap());
    out.extend(borsh::to_vec(&p.owner).unwrap());
    out.extend(borsh::to_vec(&flag(p.for_sale)).unwrap());
    out.extend(borsh::to_vec(&p.sale_required_price).unwrap());
    out.extend(borsh::to_vec(&flag(p.for_rent)).unwrap());
    out.extend(borsh::to_vec(&p.rent_required_price).unwrap());
    out.extend(borsh::to_vec(&p.who_rents).unwrap());
    out.extend(borsh::to_vec(&(p.rented as u8)).unwrap());
    out.extend(borsh::to_vec(&p.rented_for_time).unwrap());
    out.extend(borsh::to_vec(&p.rent_end_on).unwrap());
    out.extend(borsh::to_vec(&p.offence).unwrap());
    out.extend(borsh::to_vec(&p.defence).unwrap());
    out
}

fn account_by_borsh(a: &UserAccount) -> Vec<u8> {
    let class = match a.team_class {
        TeamClass::Standard => "XX".to_string(),
        TeamClass::Unset => "aa".to_string(),
    };
    let mut out = Vec::new();
    out.extend(borsh::to_vec(&a.user_address).unwrap());
    out.extend(borsh::to_vec(&String::from_utf8(a.user_name.to_vec()).unwrap()).unwrap());
    out.extend(borsh::to_vec(&a.user_name_length).unwrap());
    out.extend(borsh::to_vec(&(a.team_is_ready as u8)).unwrap());
    out.extend(borsh::to_vec(&a.team_power).unwrap());
    out.extend(borsh::to_vec(&class).unwrap());
    out.extend(borsh::to_vec(&a.defence_1).unwrap());
    out.extend(borsh::to_vec(&a.defence_2).unwrap());
    out.extend(borsh::to_vec(&a.middle).unwrap());
    out.extend(borsh::to_vec(&a.offence_1).unwrap());
    out.extend(borsh::to_vec(&a.offence_2).unwrap());
    out.extend(borsh::to_vec(&a.experienced).unwrap());
    out
}

#[test]
fn player_round_trip() {
    let p = sample_player();
    let bytes = p.to_bytes();
    assert_eq!(bytes.len(), 157);
    assert_eq!(Player::from_bytes(&bytes), Some(p));
}

#[test]
fn player_round_trip_rented() {
    let mut p = sample_player();
    p.for_sale = false;
    p.sale_required_price = 0;
    p.rented = true;
    p.rented_for_time = 3600;
    p.rent_end_on = u64::MAX;
    assert_eq!(Player::from_bytes(&p.to_bytes()), Some(p));
}

#[test]
fn account_round_trip() {
    let a = sample_account();
    let bytes = a.to_bytes();
    assert_eq!(bytes.len(), 230);
    assert_eq!(UserAccount::from_bytes(&bytes), Some(a));
}

#[test]
fn account_round_trip_unset_class() {
    let mut a = sample_account();
    a.team_class = TeamClass::Unset;
    a.team_is_ready = false;
    a.experienced = u64::MAX;
    assert_eq!(UserAccount::from_bytes(&a.to_bytes()), Some(a));
}

#[test]
fn player_layout_is_that_of_borsh() {
    let p = sample_player();
    assert_eq!(p.to_bytes(), player_by_borsh(&p));
    let mut q = sample_player();
    q.for_rent = true;
    q.for_sale = false;
    q.rented = true;
    assert_eq!(q.to_bytes(), player_by_borsh(&q));
}

#[test]
fn account_layout_is_that_of_borsh() {
    let a = sample_account();
    assert_eq!(a.to_bytes(), account_by_borsh(&a));
    let mut b = sample_account();
    b.team_class = TeamClass::Unset;
    b.team_is_ready = false;
    assert_eq!(b.to_bytes(), account_by_borsh(&b));
}

#[test]
fn player_layout_exact_bytes() {
    let p = sample_player();
    let bytes = p.to_bytes();
    assert_eq!(&bytes[0..32], &key(1));
    assert_eq!(&bytes[32..64], &key(2));
    assert_eq!(&bytes[64..70], &[2, 0, 0, 0, b'X', b'X']);
    assert_eq!(&bytes[70..78], &1_500_000_000u64.to_le_bytes());
    assert_eq!(&bytes[78..84], &[2, 0, 0, 0, b'a', b'a']);
    assert_eq!(bytes[124], 0);
    assert_eq!(&bytes[141..149], &[8, 7, 6, 5, 4, 3, 2, 1]);
}

#[test]
fn player_of_wrong_length_is_not_read() {
    let mut bytes = sample_player().to_bytes();
    bytes.push(0);
    assert_eq!(Player::from_bytes(&bytes), None);
    bytes.truncate(156);
    assert_eq!(Player::from_bytes(&bytes), None);
    assert_eq!(Player::from_bytes(&[]), None);
}

#[test]
fn player_with_unknown_flag_is_not_read() {
    let good = sample_player().to_bytes();
    let mut bytes = good.clone();
    bytes[68] = b'b';
    assert_eq!(Player::from_bytes(&bytes), None);
    let mut bytes = good.clone();
    bytes[69] = b'a';
    assert_eq!(Player::from_bytes(&bytes), None);
    let mut bytes = good.clone();
    bytes[78] = 3;
    assert_eq!(Player::from_bytes(&bytes), None);
    let mut bytes = good;
    bytes[124] = 2;
    assert_eq!(Player::from_bytes(&bytes), None);
}

#[test]
fn account_with_bad_framing_is_not_read() {
    let good = sample_account().to_bytes();
    let mut bytes = good.clone();
    bytes[32] = 9;
    assert_eq!(UserAccount::from_bytes(&bytes), None);
    let mut bytes = good.clone();
    bytes[47] = 7;
    assert_eq!(UserAccount::from_bytes(&bytes), None);
    let mut bytes = good.clone();
    bytes[60] = b'a';
    assert_eq!(UserAccount::from_bytes(&bytes), None);
    let mut bytes = good;
    bytes.pop();
    assert_eq!(UserAccount::from_bytes(&bytes), None);
}

#[test]
fn little_endian_numbers() {
    let mut out = vec![9u8];
    write_u64(&mut out, 0x0102_0304_0506_0708);
    assert_eq!(out, vec![9, 8, 7, 6, 5, 4, 3, 2, 1]);
    assert_eq!(read_u64(&out, 1), 0x0102_0304_0506_0708);
    let mut top = Vec::new();
    write_u64(&mut top, u64::MAX);
    assert_eq!(top, vec![255u8; 8]);
    assert_eq!(read_u64(&top, 0), u64::MAX);
    assert_eq!(read_u64(&[0u8; 8], 0), 0);
    assert_eq!(borsh::to_vec(&77u64).unwrap(), {
        let mut v = Vec::new();
        write_u64(&mut v, 77);
        v
    });
}

#[test]
fn fixed_width_fields() {
    let mut bytes = vec![1u8, 2, 3];
    write_bytes(&mut bytes, &key(9));
    assert_eq!(bytes.len(), 35);
    assert_eq!(read_address(&bytes, 3), key(9));
    assert_eq!(&bytes[..3], &[1, 2, 3]);
}

#[test]
fn unpack_register_user() {
    let mut input = vec![0u8];
    input.extend(borsh::to_vec(&"alice".to_string()).unwrap());
    assert_eq!(
        GameInstruction::unpack(&input),
        Ok(GameInstruction::RegisterUser { username: UserName { user_name: "alice".to_string() } })
    );
    assert_eq!(
        GameInstruction::unpack(&[0, 0, 0, 0, 0]),
        Ok(GameInstruction::RegisterUser { username: UserName { user_name: String::new() } })
    );
    let mut wide = vec![0u8];
    wide.extend(borsh::to_vec(&"h\u{e9}llo w\u{f6}rld, long".to_string()).unwrap());
    assert_eq!(
        GameInstruction::unpack(&wide),
        Ok(GameInstruction::RegisterUser {
            username: UserName { user_name: "h\u{e9}llo w\u{f6}rld, long".to_string() }
        })
    );
}

#[test]
fn unpack_register_user_malformed() {
    // no length
    assert_eq!(GameInstruction::unpack(&[0, 5, 0]), Err(GameError::InvalidInstruction));
    // length says five, three follow
    assert_eq!(
        GameInstruction::unpack(&[0, 5, 0, 0, 0, b'a', b'b', b'c']),
        Err(GameError::InvalidInstruction)
    );
    // one byte left over
    assert_eq!(
        GameInstruction::unpack(&[0, 1, 0, 0, 0, b'a', b'b']),
        Err(GameError::InvalidInstruction)
    );
    // not UTF-8
    assert_eq!(
        GameInstruction::unpack(&[0, 2, 0, 0, 0, 0xff, 0xfe]),
        Err(GameError::InvalidInstruction)
    );
}

#[test]
fn unpack_operations_without_payload() {
    assert_eq!(GameInstruction::unpack(&[1]), Ok(GameInstruction::GeneratePlayer));
    assert_eq!(GameInstruction::unpack(&[3]), Ok(GameInstruction::BuyPlayer));
    assert_eq!(GameInstruction::unpack(&[4]), Ok(GameInstruction::RentAnotherPlayer));
    assert_eq!(GameInstruction::unpack(&[7]), Ok(GameInstruction::SetTeam));
    assert_eq!(GameInstruction::unpack(&[8]), Ok(GameInstruction::Challenge));
    assert_eq!(GameInstruction::unpack(&[9]), Ok(GameInstruction::AbortRent));
    assert_eq!(GameInstruction::unpack(&[10]), Ok(GameInstruction::AbortSell));
    assert_eq!(GameInstruction::unpack(&[11]), Ok(GameInstruction::ClaimRentOverPlayer));
    assert_eq!(GameInstruction::unpack(&[12]), Ok(GameInstruction::ClaimNFTPlayer));
    assert_eq!(GameInstruction::unpack(&[13]), Ok(GameInstruction::CreatePDA));
    // the rest of an operation without a payload is not looked at
    assert_eq!(GameInstruction::unpack(&[7, 1, 2, 3]), Ok(GameInstruction::SetTeam));
}

#[test]
fn unpack_unknown_tag() {
    assert_eq!(GameInstruction::unpack(&[]), Err(GameError::InvalidInstruction));
    assert_eq!(GameInstruction::unpack(&[2]), Err(GameError::InvalidInstruction));
    assert_eq!(GameInstruction::unpack(&[15]), Err(GameError::InvalidInstruction));
    assert_eq!(GameInstruction::unpack(&[255, 0, 0]), Err(GameError::InvalidInstruction));
}

#[test]
fn unpack_sell_player() {
    let mut input = vec![5u8];
    input.extend(borsh::to_vec(&250_000u64).unwrap());
    assert_eq!(
        GameInstruction::unpack(&input),
        Ok(GameInstruction::SellPlayer { selloffer: SellOffer { sell_required_price: 250_000 } })
    );
    input.push(0);
    assert_eq!(GameInstruction::unpack(&input), Err(GameError::InvalidInstruction));
    assert_eq!(GameInstruction::unpack(&[5, 1, 2, 3]), Err(GameError::InvalidInstruction));
}

#[test]
fn unpack_rent_your_player() {
    let mut input = vec![6u8];
    input.extend(borsh::to_vec(&(9_000u64, 86_400u64)).unwrap());
    assert_eq!(
        GameInstruction::unpack(&input),
        Ok(GameInstruction::RentYourPlayer {
            rentoffer: RentOffer { rent_required_price: 9_000, rented_for_time: 86_400 }
        })
    );
    input.pop();
    assert_eq!(GameInstruction::unpack(&input), Err(GameError::InvalidInstruction));
}

#[test]
fn unpack_upgrade() {
    let mut input = vec![14u8];
    input.extend(borsh::to_vec(&(3u8, 4u64)).unwrap());
    assert_eq!(
        GameInstruction::unpack(&input),
        Ok(GameInstruction::Upgrade { upgrade: UpgradePlayer { player_no: 3, exp: 4 } })
    );
    assert_eq!(GameInstruction::unpack(&[14]), Err(GameError::InvalidInstruction));
    input.push(9);
    assert_eq!(GameInstruction::unpack(&input), Err(GameError::InvalidInstruction));
}

#[test]
fn error_codes() {
    assert_eq!(GameError::InvalidInstruction.code(), 0);
    assert_eq!(GameError::Unauthorized.code(), 1);
    assert_eq!(GameError::InvalidState.code(), 2);
    assert_eq!(GameError::InsufficientFunds.code(), 3);
    assert_eq!(GameError::InsufficientExperience.code(), 4);
    assert_eq!(GameError::AssetMismatch.code(), 5);
    assert_eq!(GameError::RentNotExpired.code(), 6);
    assert_eq!(GameError::NameTooLong.code(), 7);
    assert_eq!(GameError::ArithmeticOverflow.code(), 8);
    assert_eq!(GameError::DigestTooShort.code(), 9);
}

/// A small generator of bytes, so that many records can be walked through.
fn scramble(state: &mut u64) -> u64 {
    *state = state.wrapping_mul(6_364_136_223_846_793_005).wrapping_add(1_442_695_040_888_963_407);
    *state ^ (*state >> 29)
}

fn scrambled_key(state: &mut u64) -> [u8; 32] {
    let mut k = [0u8; 32];
    for chunk in k.chunks_mut(8) {
        chunk.copy_from_slice(&scramble(state).to_le_bytes());
    }
    k
}

#[test]
fn many_players_round_trip() {
    let mut state = 7u64;
    for _ in 0..200 {
        let p = Player {
            nft_adress: scrambled_key(&mut state),
            owner: scrambled_key(&mut state),
            for_sale: scramble(&mut state) % 2 == 0,
            sale_required_price: scramble(&mut state),
            for_rent: scramble(&mut state) % 2 == 0,
            rent_required_price: scramble(&mut state),
            who_rents: scrambled_key(&mut state),
            rented: scramble(&mut state) % 2 == 0,
            rented_for_time: scramble(&mut state),
            rent_end_on: scramble(&mut state),
            offence: scramble(&mut state),
            defence: scramble(&mut state),
        };
        let bytes = p.to_bytes();
        assert_eq!(bytes, player_by_borsh(&p));
        assert_eq!(Player::from_bytes(&bytes), Some(p));
    }
}

#[test]
fn many_accounts_round_trip() {
    let mut state = 11u64;
    for _ in 0..200 {
        let mut user_name = [0u8; 10];
        for b in user_name.iter_mut() {
            *b = b'a' + (scramble(&mut state) % 26) as u8;
        }
        let a = UserAccount {
            user_address: scrambled_key(&mut state),
            user_name,
            user_name_length: (scramble(&mut state) % 256) as u8,
            team_is_ready: scramble(&mut state) % 2 == 0,
            team_power: scramble(&mut state),
            team_class: if scramble(&mut state) % 2 == 0 {
                TeamClass::Standard
            } else {
                TeamClass::Unset
            },
            defence_1: scrambled_key(&mut state),
            defence_2: scrambled_key(&mut state),
            middle: scrambled_key(&mut state),
            offence_1: scrambled_key(&mut state),
            offence_2: scrambled_key(&mut state),
            experienced: scramble(&mut state),
        };
        let bytes = a.to_bytes();
        assert_eq!(bytes, account_by_borsh(&a));
        assert_eq!(UserAccount::from_bytes(&bytes), Some(a));
    }
}

#[test]
fn stored_records_are_read_by_borsh() {
    let p = sample_player();
    let bytes = p.to_bytes();
    let mut rest: &[u8] = &bytes;
    let nft: [u8; 32] = borsh::BorshDeserialize::deserialize(&mut rest).unwrap();
    let owner: [u8; 32] = borsh::BorshDeserialize::deserialize(&mut rest).unwrap();
    let for_sale: String = borsh::BorshDeserialize::deserialize(&mut rest).unwrap();
    let price: u64 = borsh::BorshDeserialize::deserialize(&mut rest).unwrap();
    let for_rent: String = borsh::BorshDeserialize::deserialize(&mut rest).unwrap();
    assert_eq!((nft, owner), (p.nft_adress, p.owner));
    assert_eq!((for_sale.as_str(), price, for_rent.as_str()), ("XX", 1_500_000_000, "aa"));
    let a = sample_account();
    let bytes = a.to_bytes();
    let mut rest: &[u8] = &bytes[32..];
    let name: String = borsh::BorshDeserialize::deserialize(&mut rest).unwrap();
    let length: u8 = borsh::BorshDeserialize::deserialize(&mut rest).unwrap();
    assert_eq!((name.as_str(), length), ("aliceXXXXX", 5));
    assert_eq!(rest.len(), 230 - 32 - 14 - 1);
}
