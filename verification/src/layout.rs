//! The persisted layout of the two records: fixed-width fields in a fixed
//! order, integers little-endian, and every text field behind a four-byte
//! length. A flag that is stored as text is one of two sentinel pairs.

use vstd::prelude::*;
use crate::state::{Player, TeamClass, UserAccount};
use crate::wire::{
    le_value, lemma_le_bytes_len, lemma_le_bytes_of_value, lemma_le_limit_8,
    lemma_le_value_of_bytes, read_address, read_u64, u64_bytes, write_bytes, write_u64,
};

verus! {

/// Length in bytes of a stored player.
pub const PLAYER_LEN: usize = 157;

/// Length in bytes of a stored account.
pub const ACCOUNT_LEN: usize = 230;

/// A flag as text: the length 2, then `XX` for on or `aa` for off.
pub open spec fn flag_bytes(on: bool) -> Seq<u8> {
    if on {
        seq![2u8, 0, 0, 0, 0x58, 0x58]
    } else {
        seq![2u8, 0, 0, 0, 0x61, 0x61]
    }
}

/// A flag as one byte: 1 for on, 0 for off.
pub open spec fn bit_bytes(on: bool) -> Seq<u8> {
    if on {
        seq![1u8]
    } else {
        seq![0u8]
    }
}

/// A stored name as text: the length 10, then the ten bytes.
pub open spec fn name_bytes(name: [u8; 10]) -> Seq<u8> {
    seq![10u8, 0, 0, 0] + name@
}

/// The bytes of a player, field after field.
pub open spec fn player_bytes(p: Player) -> Seq<u8> {
    p.nft_adress@ + p.owner@ + flag_bytes(p.for_sale) + u64_bytes(p.sale_required_price)
        + flag_bytes(p.for_rent) + u64_bytes(p.rent_required_price) + p.who_rents@ + bit_bytes(
        p.rented,
    ) + u64_bytes(p.rented_for_time) + u64_bytes(p.rent_end_on) + u64_bytes(p.offence)
        + u64_bytes(p.defence)
}

/// The bytes of an account, field after field.
pub open spec fn account_bytes(a: UserAccount) -> Seq<u8> {
    a.user_address@ + name_bytes(a.user_name) + seq![a.user_name_length] + bit_bytes(
        a.team_is_ready,
    ) + u64_bytes(a.team_power) + flag_bytes(a.team_class == TeamClass::Standard) + a.defence_1@
        + a.defence_2@ + a.middle@ + a.offence_1@ + a.offence_2@ + u64_bytes(a.experienced)
}

/// The player that `bytes` store, if they store one.
pub open spec fn player_of(bytes: Seq<u8>) -> Option<Player> {
    if exists|p: Player| player_bytes(p) == bytes {
        Some(choose|p: Player| player_bytes(p) == bytes)
    } else {
        None
    }
}

/// The account that `bytes` store, if they store one.
pub open spec fn account_of(bytes: Seq<u8>) -> Option<UserAccount> {
    if exists|a: UserAccount| account_bytes(a) == bytes {
        Some(choose|a: UserAccount| account_bytes(a) == bytes)
    } else {
        None
    }
}

/// A 64-bit number takes eight bytes, which read back as the number.
pub proof fn lemma_u64_bytes(value: u64)
    ensures
        u64_bytes(value).len() == 8,
        le_value(u64_bytes(value)) == value,
{
    lemma_le_bytes_len(value as nat, 8);
    lemma_le_limit_8();
    lemma_le_value_of_bytes(value as nat, 8);
}

/// Where each field of a stored player lies.
pub proof fn lemma_player_layout(p: Player)
    ensures
        player_bytes(p).len() == PLAYER_LEN,
        player_bytes(p).subrange(0, 32) == p.nft_adress@,
        player_bytes(p).subrange(32, 64) == p.owner@,
        player_bytes(p).subrange(64, 70) == flag_bytes(p.for_sale),
        player_bytes(p).subrange(70, 78) == u64_bytes(p.sale_required_price),
        player_bytes(p).subrange(78, 84) == flag_bytes(p.for_rent),
        player_bytes(p).subrange(84, 92) == u64_bytes(p.rent_required_price),
        player_bytes(p).subrange(92, 124) == p.who_rents@,
        player_bytes(p).subrange(124, 125) == bit_bytes(p.rented),
        player_bytes(p).subrange(125, 133) == u64_bytes(p.rented_for_time),
        player_bytes(p).subrange(133, 141) == u64_bytes(p.rent_end_on),
        player_bytes(p).subrange(141, 149) == u64_bytes(p.offence),
        player_bytes(p).subrange(149, 157) == u64_bytes(p.defence),
{
    lemma_u64_bytes(p.sale_required_price);
    lemma_u64_bytes(p.rent_required_price);
    lemma_u64_bytes(p.rented_for_time);
    lemma_u64_bytes(p.rent_end_on);
    lemma_u64_bytes(p.offence);
    lemma_u64_bytes(p.defence);
    let b = player_bytes(p);
    assert(b.subrange(0, 32) =~= p.nft_adress@);
    assert(b.subrange(32, 64) =~= p.owner@);
    assert(b.subrange(64, 70) =~= flag_bytes(p.for_sale));
    assert(b.subrange(70, 78) =~= u64_bytes(p.sale_required_price));
    assert(b.subrange(78, 84) =~= flag_bytes(p.for_rent));
    assert(b.subrange(84, 92) =~= u64_bytes(p.rent_required_price));
    assert(b.subrange(92, 124) =~= p.who_rents@);
    assert(b.subrange(124, 125) =~= bit_bytes(p.rented));
    assert(b.subrange(125, 133) =~= u64_bytes(p.rented_for_time));
    assert(b.subrange(133, 141) =~= u64_bytes(p.rent_end_on));
    assert(b.subrange(141, 149) =~= u64_bytes(p.offence));
    assert(b.subrange(149, 157) =~= u64_bytes(p.defence));
}

/// Where each field of a stored account lies.
pub proof fn lemma_account_layout(a: UserAccount)
    ensures
        account_bytes(a).len() == ACCOUNT_LEN,
        account_bytes(a).subrange(0, 32) == a.user_address@,
        account_bytes(a).subrange(32, 46) == name_bytes(a.user_name),
        account_bytes(a).subrange(46, 47) == seq![a.user_name_length],
        account_bytes(a).subrange(47, 48) == bit_bytes(a.team_is_ready),
        account_bytes(a).subrange(48, 56) == u64_bytes(a.team_power),
        account_bytes(a).subrange(56, 62) == flag_bytes(a.team_class == TeamClass::Standard),
        account_bytes(a).subrange(62, 94) == a.defence_1@,
        account_bytes(a).subrange(94, 126) == a.defence_2@,
        account_bytes(a).subrange(126, 158) == a.middle@,
        account_bytes(a).subrange(158, 190) == a.offence_1@,
        account_bytes(a).subrange(190, 222) == a.offence_2@,
        account_bytes(a).subrange(222, 230) == u64_bytes(a.experienced),
{
    lemma_u64_bytes(a.team_power);
    lemma_u64_bytes(a.experienced);
    let b = account_bytes(a);
    assert(b.subrange(0, 32) =~= a.user_address@);
    assert(b.subrange(32, 46) =~= name_bytes(a.user_name));
    assert(b.subrange(46, 47) =~= seq![a.user_name_length]);
    assert(b.subrange(47, 48) =~= bit_bytes(a.team_is_ready));
    assert(b.subrange(48, 56) =~= u64_bytes(a.team_power));
    assert(b.subrange(56, 62) =~= flag_bytes(a.team_class == TeamClass::Standard));
    assert(b.subrange(62, 94) =~= a.defence_1@);
    assert(b.subrange(94, 126) =~= a.defence_2@);
    assert(b.subrange(126, 158) =~= a.middle@);
    assert(b.subrange(158, 190) =~= a.offence_1@);
    assert(b.subrange(190, 222) =~= a.offence_2@);
    assert(b.subrange(222, 230) =~= u64_bytes(a.experienced));
}

/// Bytes whose fields are those of a player are the bytes of that player.
pub proof fn lemma_player_assembled(p: Player, bytes: Seq<u8>)
    requires
        bytes.len() == PLAYER_LEN,
        bytes.subrange(0, 32) == p.nft_adress@,
        bytes.subrange(32, 64) == p.owner@,
        bytes.subrange(64, 70) == flag_bytes(p.for_sale),
        bytes.subrange(70, 78) == u64_bytes(p.sale_required_price),
        bytes.subrange(78, 84) == flag_bytes(p.for_rent),
        bytes.subrange(84, 92) == u64_bytes(p.rent_required_price),
        bytes.subrange(92, 124) == p.who_rents@,
        bytes.subrange(124, 125) == bit_bytes(p.rented),
        bytes.subrange(125, 133) == u64_bytes(p.rented_for_time),
        bytes.subrange(133, 141) == u64_bytes(p.rent_end_on),
        bytes.subrange(141, 149) == u64_bytes(p.offence),
        bytes.subrange(149, 157) == u64_bytes(p.defence),
    ensures
        player_bytes(p) == bytes,
{
    lemma_player_layout(p);
    let b = player_bytes(p);
    assert forall|i: int| 0 <= i < 157 implies b[i] == bytes[i] by {
        if i < 32 {
            assert(b.subrange(0, 32)[i] == bytes.subrange(0, 32)[i]);
        } else if i < 64 {
            assert(b.subrange(32, 64)[i - 32] == bytes.subrange(32, 64)[i - 32]);
        } else if i < 70 {
            assert(b.subrange(64, 70)[i - 64] == bytes.subrange(64, 70)[i - 64]);
        } else if i < 78 {
            assert(b.subrange(70, 78)[i - 70] == bytes.subrange(70, 78)[i - 70]);
        } else if i < 84 {
            assert(b.subrange(78, 84)[i - 78] == bytes.subrange(78, 84)[i - 78]);
        } else if i < 92 {
            assert(b.subrange(84, 92)[i - 84] == bytes.subrange(84, 92)[i - 84]);
        } else if i < 124 {
            assert(b.subrange(92, 124)[i - 92] == bytes.subrange(92, 124)[i - 92]);
        } else if i < 125 {
            assert(b.subrange(124, 125)[i - 124] == bytes.subrange(124, 125)[i - 124]);
        } else if i < 133 {
            assert(b.subrange(125, 133)[i - 125] == bytes.subrange(125, 133)[i - 125]);
        } else if i < 141 {
            assert(b.subrange(133, 141)[i - 133] == bytes.subrange(133, 141)[i - 133]);
        } else if i < 149 {
            assert(b.subrange(141, 149)[i - 141] == bytes.subrange(141, 149)[i - 141]);
        } else {
            assert(b.subrange(149, 157)[i - 149] == bytes.subrange(149, 157)[i - 149]);
        }
    }
    assert(b =~= bytes);
}

/// Bytes whose fields are those of an account are the bytes of that account.
pub proof fn lemma_account_assembled(a: UserAccount, bytes: Seq<u8>)
    requires
        bytes.len() == ACCOUNT_LEN,
        bytes.subrange(0, 32) == a.user_address@,
        bytes.subrange(32, 46) == name_bytes(a.user_name),
        bytes.subrange(46, 47) == seq![a.user_name_length],
        bytes.subrange(47, 48) == bit_bytes(a.team_is_ready),
        bytes.subrange(48, 56) == u64_bytes(a.team_power),
        bytes.subrange(56, 62) == flag_bytes(a.team_class == TeamClass::Standard),
        bytes.subrange(62, 94) == a.defence_1@,
        bytes.subrange(94, 126) == a.defence_2@,
        bytes.subrange(126, 158) == a.middle@,
        bytes.subrange(158, 190) == a.offence_1@,
        bytes.subrange(190, 222) == a.offence_2@,
        bytes.subrange(222, 230) == u64_bytes(a.experienced),
    ensures
        account_bytes(a) == bytes,
{
    lemma_account_layout(a);
    let b = account_bytes(a);
    assert forall|i: int| 0 <= i < 230 implies b[i] == bytes[i] by {
        if i < 32 {
            assert(b.subrange(0, 32)[i] == bytes.subrange(0, 32)[i]);
        } else if i < 46 {
            assert(b.subrange(32, 46)[i - 32] == bytes.subrange(32, 46)[i - 32]);
        } else if i < 47 {
            assert(b.subrange(46, 47)[i - 46] == bytes.subrange(46, 47)[i - 46]);
        } else if i < 48 {
            assert(b.subrange(47, 48)[i - 47] == bytes.subrange(47, 48)[i - 47]);
        } else if i < 56 {
            assert(b.subrange(48, 56)[i - 48] == bytes.subrange(48, 56)[i - 48]);
        } else if i < 62 {
            assert(b.subrange(56, 62)[i - 56] == bytes.subrange(56, 62)[i - 56]);
        } else if i < 94 {
            assert(b.subrange(62, 94)[i - 62] == bytes.subrange(62, 94)[i - 62]);
        } else if i < 126 {
            assert(b.subrange(94, 126)[i - 94] == bytes.subrange(94, 126)[i - 94]);
        } else if i < 158 {
            assert(b.subrange(126, 158)[i - 126] == bytes.subrange(126, 158)[i - 126]);
        } else if i < 190 {
            assert(b.subrange(158, 190)[i - 158] == bytes.subrange(158, 190)[i - 158]);
        } else if i < 222 {
            assert(b.subrange(190, 222)[i - 190] == bytes.subrange(190, 222)[i - 190]);
        } else {
            assert(b.subrange(222, 230)[i - 222] == bytes.subrange(222, 230)[i - 222]);
        }
    }
    assert(b =~= bytes);
}

/// No player is stored in bytes of another length, or with a flag that is
/// none of the two.
pub proof fn lemma_player_unreadable(bytes: Seq<u8>)
    requires
        bytes.len() != PLAYER_LEN || (forall|on: bool| bytes.subrange(64, 70) != flag_bytes(on))
            || (forall|on: bool| bytes.subrange(78, 84) != flag_bytes(on)) || (forall|on: bool|
            bytes.subrange(124, 125) != bit_bytes(on)),
    ensures
        forall|p: Player| player_bytes(p) != bytes,
{
    assert forall|p: Player| player_bytes(p) != bytes by {
        lemma_player_layout(p);
    }
}

/// No account is stored in bytes of another length, with a name of another
/// width, or with a flag that is none of the two.
pub proof fn lemma_account_unreadable(bytes: Seq<u8>)
    requires
        bytes.len() != ACCOUNT_LEN || bytes.subrange(32, 36) != seq![10u8, 0, 0, 0] || (forall|
            on: bool,
        |
            bytes.subrange(47, 48) != bit_bytes(on)) || (forall|on: bool|
            bytes.subrange(56, 62) != flag_bytes(on)),
    ensures
        forall|a: UserAccount| account_bytes(a) != bytes,
{
    assert forall|a: UserAccount| account_bytes(a) != bytes by {
        lemma_account_layout(a);
        if account_bytes(a) == bytes {
            assert(bytes.subrange(32, 36) =~= bytes.subrange(32, 46).subrange(0, 4));
            assert(name_bytes(a.user_name).subrange(0, 4) =~= seq![10u8, 0, 0, 0]);
        }
    }
}

/// Two 64-bit numbers with the same bytes are the same.
pub proof fn lemma_u64_bytes_injective(x: u64, y: u64)
    requires
        u64_bytes(x) == u64_bytes(y),
    ensures
        x == y,
{
    lemma_u64_bytes(x);
    lemma_u64_bytes(y);
}

/// Two flags with the same bytes are the same.
pub proof fn lemma_flag_bytes_injective(x: bool, y: bool)
    requires
        flag_bytes(x) == flag_bytes(y) || bit_bytes(x) == bit_bytes(y),
    ensures
        x == y,
{
    assert(flag_bytes(x)[4] == if x { 0x58u8 } else { 0x61u8 });
    assert(flag_bytes(y)[4] == if y { 0x58u8 } else { 0x61u8 });
    assert(bit_bytes(x)[0] == if x { 1u8 } else { 0u8 });
    assert(bit_bytes(y)[0] == if y { 1u8 } else { 0u8 });
}

/// Two players with the same bytes are the same player.
pub proof fn lemma_player_bytes_injective(p: Player, q: Player)
    requires
        player_bytes(p) == player_bytes(q),
    ensures
        p == q,
{
    lemma_player_layout(p);
    lemma_player_layout(q);
    assert(p.nft_adress =~= q.nft_adress);
    assert(p.owner =~= q.owner);
    assert(p.who_rents =~= q.who_rents);
    lemma_flag_bytes_injective(p.for_sale, q.for_sale);
    lemma_flag_bytes_injective(p.for_rent, q.for_rent);
    lemma_flag_bytes_injective(p.rented, q.rented);
    lemma_u64_bytes_injective(p.sale_required_price, q.sale_required_price);
    lemma_u64_bytes_injective(p.rent_required_price, q.rent_required_price);
    lemma_u64_bytes_injective(p.rented_for_time, q.rented_for_time);
    lemma_u64_bytes_injective(p.rent_end_on, q.rent_end_on);
    lemma_u64_bytes_injective(p.offence, q.offence);
    lemma_u64_bytes_injective(p.defence, q.defence);
}

/// Two accounts with the same bytes are the same account.
pub proof fn lemma_account_bytes_injective(a: UserAccount, b: UserAccount)
    requires
        account_bytes(a) == account_bytes(b),
    ensures
        a == b,
{
    lemma_account_layout(a);
    lemma_account_layout(b);
    assert(a.user_address =~= b.user_address);
    assert(a.user_name =~= b.user_name) by {
        assert(name_bytes(a.user_name).skip(4) =~= a.user_name@);
        assert(name_bytes(b.user_name).skip(4) =~= b.user_name@);
    }
    assert(a.user_name_length == b.user_name_length) by {
        assert(seq![a.user_name_length][0] == seq![b.user_name_length][0]);
    }
    assert(a.defence_1 =~= b.defence_1);
    assert(a.defence_2 =~= b.defence_2);
    assert(a.middle =~= b.middle);
    assert(a.offence_1 =~= b.offence_1);
    assert(a.offence_2 =~= b.offence_2);
    lemma_flag_bytes_injective(a.team_is_ready, b.team_is_ready);
    lemma_flag_bytes_injective(
        a.team_class == TeamClass::Standard,
        b.team_class == TeamClass::Standard,
    );
    lemma_u64_bytes_injective(a.team_power, b.team_power);
    lemma_u64_bytes_injective(a.experienced, b.experienced);
}

/// Reading a stored player gives the player back.
pub proof fn lemma_player_round_trip(p: Player)
    ensures
        player_of(player_bytes(p)) == Some(p),
{
    let q = choose|q: Player| player_bytes(q) == player_bytes(p);
    lemma_player_bytes_injective(q, p);
}

/// Reading a stored account gives the account back.
pub proof fn lemma_account_round_trip(a: UserAccount)
    ensures
        account_of(account_bytes(a)) == Some(a),
{
    let b = choose|b: UserAccount| account_bytes(b) == account_bytes(a);
    lemma_account_bytes_injective(b, a);
}

/// Appends a flag as text.
fn write_flag(out: &mut Vec<u8>, on: bool)
    ensures
        final(out)@ == old(out)@ + flag_bytes(on),
{
    let ghost before = out@;
    let mark: u8 = if on {
        0x58
    } else {
        0x61
    };
    out.push(2);
    out.push(0);
    out.push(0);
    out.push(0);
    out.push(mark);
    out.push(mark);
    assert(out@ =~= before + flag_bytes(on));
}

/// Appends a flag as one byte.
fn write_bit(out: &mut Vec<u8>, on: bool)
    ensures
        final(out)@ == old(out)@ + bit_bytes(on),
{
    let ghost before = out@;
    out.push(if on {
        1
    } else {
        0
    });
    assert(out@ =~= before + bit_bytes(on));
}

/// Reads the flag that the six bytes from `at` on spell as text, if they
/// spell one.
fn read_flag(bytes: &[u8], at: usize) -> (flag: Option<bool>)
    requires
        at + 6 <= bytes.len(),
    ensures
        match flag {
            Some(on) => bytes@.subrange(at as int, at + 6) == flag_bytes(on),
            None => forall|on: bool| bytes@.subrange(at as int, at + 6) != flag_bytes(on),
        },
{
    let ghost field = bytes@.subrange(at as int, at + 6);
    let framed: bool = bytes[at] == 2 && bytes[at + 1] == 0 && bytes[at + 2] == 0 && bytes[at + 3]
        == 0;
    let flag: Option<bool> = if framed && bytes[at + 4] == 0x58 && bytes[at + 5] == 0x58 {
        Some(true)
    } else if framed && bytes[at + 4] == 0x61 && bytes[at + 5] == 0x61 {
        Some(false)
    } else {
        None
    };
    proof {
        match flag {
            Some(on) => {
                assert(field =~= flag_bytes(on));
            },
            None => {
                assert forall|on: bool| field != flag_bytes(on) by {
                    let f = flag_bytes(on);
                    if field == f {
                        assert(field[0] == f[0] && field[1] == f[1] && field[2] == f[2] && field[3]
                            == f[3] && field[4] == f[4] && field[5] == f[5]);
                    }
                }
            },
        }
    }
    flag
}

/// Reads the flag that the byte at `at` spells, if it spells one.
fn read_bit(bytes: &[u8], at: usize) -> (flag: Option<bool>)
    requires
        at < bytes.len(),
    ensures
        match flag {
            Some(on) => bytes@.subrange(at as int, at + 1) == bit_bytes(on),
            None => forall|on: bool| bytes@.subrange(at as int, at + 1) != bit_bytes(on),
        },
{
    let ghost field = bytes@.subrange(at as int, at + 1);
    let flag: Option<bool> = if bytes[at] == 1 {
        Some(true)
    } else if bytes[at] == 0 {
        Some(false)
    } else {
        None
    };
    proof {
        match flag {
            Some(on) => {
                assert(field =~= bit_bytes(on));
            },
            None => {
                assert forall|on: bool| field != bit_bytes(on) by {
                    if field == bit_bytes(on) {
                        assert(field[0] == bit_bytes(on)[0]);
                    }
                }
            },
        }
    }
    flag
}

/// Reads a 64-bit field, with the fact that its bytes are those of the
/// number read.
fn read_field(bytes: &[u8], at: usize) -> (value: u64)
    requires
        at + 8 <= bytes.len(),
    ensures
        u64_bytes(value) == bytes@.subrange(at as int, at + 8),
{
    let value: u64 = read_u64(bytes, at);
    proof {
        lemma_le_bytes_of_value(bytes@.subrange(at as int, at + 8));
    }
    value
}

/// Takes the ten bytes from `at` on as a stored name.
fn read_name(bytes: &[u8], at: usize) -> (name: [u8; 10])
    requires
        at + 10 <= bytes.len(),
    ensures
        name@ == bytes@.subrange(at as int, at + 10),
{
    let mut name: [u8; 10] = [0u8; 10];
    let mut i: usize = 0;
    while i < 10
        invariant
            i <= 10,
            at + 10 <= bytes.len(),
            forall|j: int| 0 <= j < i ==> name[j] == bytes[at + j],
        decreases 10 - i,
    {
        name[i] = bytes[at + i];
        i = i + 1;
    }
    assert(name@ =~= bytes@.subrange(at as int, at + 10));
    name
}

impl Player {
    /// Lays the player out for the ledger: see [`player_bytes`].
    pub fn to_bytes(&self) -> (out: Vec<u8>)
        ensures
            out@ == player_bytes(*self),
            out@.len() == PLAYER_LEN,
    {
        let mut out: Vec<u8> = Vec::new();
        write_bytes(&mut out, self.nft_adress.as_slice());
        write_bytes(&mut out, self.owner.as_slice());
        write_flag(&mut out, self.for_sale);
        write_u64(&mut out, self.sale_required_price);
        write_flag(&mut out, self.for_rent);
        write_u64(&mut out, self.rent_required_price);
        write_bytes(&mut out, self.who_rents.as_slice());
        write_bit(&mut out, self.rented);
        write_u64(&mut out, self.rented_for_time);
        write_u64(&mut out, self.rent_end_on);
        write_u64(&mut out, self.offence);
        write_u64(&mut out, self.defence);
        proof {
            lemma_player_layout(*self);
            assert(out@ =~= player_bytes(*self));
        }
        out
    }

    /// Reads a player as the ledger stores it. Exactly the bytes that some
    /// player lays out are read, and they give that player; anything else
    /// gives nothing.
    pub fn from_bytes(bytes: &[u8]) -> (read: Option<Player>)
        ensures
            read == player_of(bytes@),
            read matches Some(p) ==> player_bytes(p) == bytes@,
            read is None ==> forall|p: Player| player_bytes(p) != bytes@,
    {
        if bytes.len() != PLAYER_LEN {
            proof {
                lemma_player_unreadable(bytes@);
            }
            return None;
        }
        let for_sale: Option<bool> = read_flag(bytes, 64);
        let for_rent: Option<bool> = read_flag(bytes, 78);
        let rented: Option<bool> = read_bit(bytes, 124);
        match (for_sale, for_rent, rented) {
            (Some(for_sale), Some(for_rent), Some(rented)) => {
                let p = Player {
                    nft_adress: read_address(bytes, 0),
                    owner: read_address(bytes, 32),
                    for_sale,
                    sale_required_price: read_field(bytes, 70),
                    for_rent,
                    rent_required_price: read_field(bytes, 84),
                    who_rents: read_address(bytes, 92),
                    rented,
                    rented_for_time: read_field(bytes, 125),
                    rent_end_on: read_field(bytes, 133),
                    offence: read_field(bytes, 141),
                    defence: read_field(bytes, 149),
                };
                proof {
                    lemma_player_assembled(p, bytes@);
                    lemma_player_round_trip(p);
                }
                Some(p)
            },
            _ => {
                proof {
                    lemma_player_unreadable(bytes@);
                }
                None
            },
        }
    }
}

impl UserAccount {
    /// Lays the account out for the ledger: see [`account_bytes`].
    pub fn to_bytes(&self) -> (out: Vec<u8>)
        ensures
            out@ == account_bytes(*self),
            out@.len() == ACCOUNT_LEN,
    {
        let mut out: Vec<u8> = Vec::new();
        write_bytes(&mut out, self.user_address.as_slice());
        out.push(10);
        out.push(0);
        out.push(0);
        out.push(0);
        write_bytes(&mut out, self.user_name.as_slice());
        out.push(self.user_name_length);
        write_bit(&mut out, self.team_is_ready);
        write_u64(&mut out, self.team_power);
        write_flag(
            &mut out,
            match self.team_class {
                TeamClass::Standard => true,
                TeamClass::Unset => false,
            },
        );
        write_bytes(&mut out, self.defence_1.as_slice());
        write_bytes(&mut out, self.defence_2.as_slice());
        write_bytes(&mut out, self.middle.as_slice());
        write_bytes(&mut out, self.offence_1.as_slice());
        write_bytes(&mut out, self.offence_2.as_slice());
        write_u64(&mut out, self.experienced);
        proof {
            lemma_account_layout(*self);
            assert(out@ =~= account_bytes(*self));
        }
        out
    }

    /// Reads an account as the ledger stores it. Exactly the bytes that some
    /// account lays out are read, and they give that account; anything else
    /// gives nothing.
    pub fn from_bytes(bytes: &[u8]) -> (read: Option<UserAccount>)
        ensures
            read == account_of(bytes@),
            read matches Some(a) ==> account_bytes(a) == bytes@,
            read is None ==> forall|a: UserAccount| account_bytes(a) != bytes@,
    {
        if bytes.len() != ACCOUNT_LEN {
            proof {
                lemma_account_unreadable(bytes@);
            }
            return None;
        }
        let framed: bool = bytes[32] == 10 && bytes[33] == 0 && bytes[34] == 0 && bytes[35] == 0;
        if !framed {
            proof {
                let frame = bytes@.subrange(32, 36);
                assert(frame[0] == bytes[32] && frame[1] == bytes[33] && frame[2] == bytes[34]
                    && frame[3] == bytes[35]);
                let width = seq![10u8, 0, 0, 0];
                assert(width[0] == 10 && width[1] == 0 && width[2] == 0 && width[3] == 0);
                lemma_account_unreadable(bytes@);
            }
            return None;
        }
        let team_is_ready: Option<bool> = read_bit(bytes, 47);
        let standard: Option<bool> = read_flag(bytes, 56);
        match (team_is_ready, standard) {
            (Some(team_is_ready), Some(standard)) => {
                let a = UserAccount {
                    user_address: read_address(bytes, 0),
                    user_name: read_name(bytes, 36),
                    user_name_length: bytes[46],
                    team_is_ready,
                    team_power: read_field(bytes, 48),
                    team_class: if standard {
                        TeamClass::Standard
                    } else {
                        TeamClass::Unset
                    },
                    defence_1: read_address(bytes, 62),
                    defence_2: read_address(bytes, 94),
                    middle: read_address(bytes, 126),
                    offence_1: read_address(bytes, 158),
                    offence_2: read_address(bytes, 190),
                    experienced: read_field(bytes, 222),
                };
                proof {
                    assert(bytes@.subrange(32, 46) =~= name_bytes(a.user_name));
                    assert(bytes@.subrange(46, 47) =~= seq![a.user_name_length]);
                    lemma_account_assembled(a, bytes@);
                    lemma_account_round_trip(a);
                }
                Some(a)
            },
            _ => {
                proof {
                    lemma_account_unreadable(bytes@);
                }
                None
            },
        }
    }
}

} // verus!
