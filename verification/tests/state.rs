//! Outputs set aside, payments, channels and peers.
use amplify::Wrapper;
use rgb_lightning_sample::channels::{
    channel_text, do_disconnect_peer, list_channels, list_peers, local_balance, node_info,
    ChannelDetails, RgbInfo,
};
use rgb_lightning_sample::payments::{
    invoice_status, list_payments, HTLCStatus, MillisatAmount, PaymentInfo, PaymentInfoStorage,
};
use rgb_lightning_sample::types::{OutPoint, RgbUtxo};
use rgb_lightning_sample::utxos::{
    add_created, check_uncolored_utxos, color_utxo, get_utxo, locked_amount, reserve_utxo,
    select_inputs, utxo_outpoints, Error, OwnedValue, Unspent, UTXO_NUM,
};

fn out(n: u8) -> OutPoint {
    OutPoint { txid: [n; 32], vout: n as u32 }
}

fn utxo(n: u8, colored: bool) -> RgbUtxo {
    RgbUtxo { outpoint: out(n), colored }
}

fn info(status: HTLCStatus, amt: Option<u64>) -> PaymentInfo {
    PaymentInfo { preimage: None, secret: None, status, amt_msat: MillisatAmount(amt) }
}

fn channel(n: u8) -> ChannelDetails {
    ChannelDetails {
        channel_id: [n; 32],
        funding_txid: None,
        counterparty: [n; 33],
        peer_alias: None,
        short_channel_id: None,
        is_channel_ready: false,
        channel_value_satoshis: 30010,
        balance_msat: 26000,
        is_usable: false,
        outbound_capacity_msat: 1,
        inbound_capacity_msat: 2,
        is_public: false,
        rgb_info: None,
    }
}

#[test]
fn the_first_output_without_an_asset_is_reserved() {
    let utxos = vec![utxo(1, true), utxo(2, false), utxo(3, false)];
    assert_eq!(check_uncolored_utxos(&utxos), Ok(()));
    assert_eq!(get_utxo(&utxos), utxo(2, false));
    let (outpoint, after) = reserve_utxo(utxos).unwrap();
    assert_eq!(outpoint, out(2));
    assert_eq!(after, vec![utxo(1, true), utxo(2, true), utxo(3, false)]);
}

#[test]
fn an_output_is_reserved_once() {
    let (a, utxos) = reserve_utxo(vec![utxo(1, false), utxo(2, false)]).unwrap();
    let (b, utxos) = reserve_utxo(utxos).unwrap();
    assert_ne!(a, b);
    assert_eq!(check_uncolored_utxos(&utxos), Err(Error::NoAvailableUtxos));
    assert_eq!(reserve_utxo(utxos), None);
}

#[test]
fn nothing_to_reserve() {
    assert_eq!(check_uncolored_utxos(&vec![]), Err(Error::NoAvailableUtxos));
    assert_eq!(reserve_utxo(vec![]), None);
    assert_eq!(reserve_utxo(vec![utxo(1, true)]), None);
}

#[test]
fn an_unknown_output_is_not_colored() {
    let mut utxos = vec![utxo(1, false)];
    color_utxo(&mut utxos, &out(2));
    assert_eq!(utxos, vec![utxo(1, false)]);
}

#[test]
fn created_outputs_come_last_and_can_be_reserved() {
    let utxos = add_created(vec![utxo(1, true)], [9; 32], UTXO_NUM);
    assert_eq!(utxos.len(), 11);
    assert_eq!(utxos[0], utxo(1, true));
    assert_eq!(
        utxos[10],
        RgbUtxo { outpoint: OutPoint { txid: [9; 32], vout: 9 }, colored: false }
    );
    assert_eq!(reserve_utxo(utxos).unwrap().0, OutPoint { txid: [9; 32], vout: 0 });
}

#[test]
fn created_outputs_are_distinct() {
    let utxos = add_created(vec![], [9; 32], 255);
    for i in 0..utxos.len() {
        for j in 0..i {
            assert_ne!(utxos[i].outpoint, utxos[j].outpoint);
        }
    }
}

#[test]
fn only_outputs_set_aside_are_locked() {
    let utxos = vec![utxo(1, true), utxo(2, false)];
    let unspents = vec![
        Unspent { outpoint: out(1), value: 100 },
        Unspent { outpoint: out(3), value: 1000 },
        Unspent { outpoint: out(2), value: 20 },
    ];
    assert_eq!(locked_amount(&unspents, &utxos), Some(120));
    assert_eq!(locked_amount(&unspents, &vec![]), Some(0));
    assert_eq!(utxo_outpoints(&utxos), vec![out(1), out(2)]);
    let too_much = vec![
        Unspent { outpoint: out(1), value: u64::MAX },
        Unspent { outpoint: out(2), value: 1 },
    ];
    assert_eq!(locked_amount(&too_much, &utxos), None);
}

#[test]
fn inputs_are_taken_from_the_front() {
    let owned = vec![
        OwnedValue { outpoint: out(1), value: 30 },
        OwnedValue { outpoint: out(2), value: 30 },
        OwnedValue { outpoint: out(3), value: 30 },
    ];
    assert_eq!(select_inputs(&owned, 0), Some((vec![], 0)));
    assert_eq!(select_inputs(&owned, 30), Some((vec![out(1)], 30)));
    assert_eq!(select_inputs(&owned, 31), Some((vec![out(1), out(2)], 60)));
    assert_eq!(select_inputs(&owned, 91), Some((vec![out(1), out(2), out(3)], 90)));
    let huge = vec![
        OwnedValue { outpoint: out(1), value: u64::MAX - 1 },
        OwnedValue { outpoint: out(2), value: 2 },
    ];
    assert_eq!(select_inputs(&huge, u64::MAX), None);
}

#[test]
fn a_payment_is_read_back() {
    let mut payments = PaymentInfoStorage::new();
    assert_eq!(payments.get(&[1; 32]), None);
    payments.insert([1; 32], info(HTLCStatus::Pending, Some(5)));
    payments.insert([2; 32], info(HTLCStatus::Failed, None));
    assert_eq!(payments.get(&[1; 32]), Some(info(HTLCStatus::Pending, Some(5))));
    payments.insert([1; 32], info(HTLCStatus::Succeeded, Some(6)));
    assert_eq!(payments.get(&[1; 32]), Some(info(HTLCStatus::Succeeded, Some(6))));
    assert_eq!(payments.get(&[2; 32]), Some(info(HTLCStatus::Failed, None)));
    assert_eq!(payments.get(&[3; 32]), None);
    assert_eq!(payments.len(), 2);
    assert_eq!(payments.entry(0).hash, [1; 32]);
    assert_eq!(payments.entry(1).hash, [2; 32]);
}

#[test]
fn payments_are_listed() {
    let mut inbound = PaymentInfoStorage::new();
    let mut outbound = PaymentInfoStorage::new();
    assert_eq!(list_payments(&inbound, &outbound), "[\n]\n");
    inbound.insert([0xab; 32], info(HTLCStatus::Pending, Some(3000000)));
    outbound.insert([1; 32], info(HTLCStatus::Failed, None));
    let expected = format!(
        "[\n\n\t{{{{\n\t\tamount_millisatoshis: 3000000,\n\t\tpayment_hash: {},\n\t\thtlc_direction: inbound,\n\t\thtlc_status: pending,\n\t}}}},\n\n\t{{{{\n\t\tamount_millisatoshis: unknown,\n\t\tpayment_hash: {},\n\t\thtlc_direction: outbound,\n\t\thtlc_status: failed,\n\t}}}},\n]\n",
        "ab".repeat(32),
        "01".repeat(32),
    );
    assert_eq!(list_payments(&inbound, &outbound), expected);
}

#[test]
fn the_status_of_an_invoice() {
    let mut inbound = PaymentInfoStorage::new();
    assert_eq!(invoice_status(&inbound, &[1; 32], true), "ERROR: unknown invoice");
    inbound.insert([1; 32], info(HTLCStatus::Pending, None));
    assert_eq!(invoice_status(&inbound, &[1; 32], false), "status: pending");
    assert_eq!(invoice_status(&inbound, &[1; 32], true), "status: expired");
    inbound.insert([1; 32], info(HTLCStatus::Succeeded, None));
    assert_eq!(invoice_status(&inbound, &[1; 32], true), "status: succeeded");
    inbound.insert([1; 32], info(HTLCStatus::Failed, None));
    assert_eq!(invoice_status(&inbound, &[1; 32], true), "status: failed");
}

#[test]
fn a_node_is_summed_up() {
    let mut usable = channel(2);
    usable.is_usable = true;
    let channels = vec![channel(1), usable, channel(3)];
    let expected = format!(
        "\t{{{{\n\t\t node_pubkey: {}\n\t\t num_channels: 3\n\t\t num_usable_channels: 1\n\t\t local_balance_msat: 78000\n\t\t num_peers: 2\n\t}}}},\n",
        "02".repeat(33),
    );
    assert_eq!(node_info(&[2; 33], &channels, &vec![[1; 33], [4; 33]]), expected);
    assert_eq!(local_balance(&channels), Some(78000));
    let mut rich = channel(4);
    rich.balance_msat = u64::MAX;
    assert_eq!(local_balance(&vec![rich, channel(5)]), None);
}

#[test]
fn peers_are_listed() {
    assert_eq!(list_peers(&vec![]), "\t{{\n\t}},\n");
    let expected = format!(
        "\t{{{{\n\t\t peer_pubkey: {}\n\t\t peer_pubkey: {}\n\t}}}},\n",
        "02".repeat(33),
        "03".repeat(33),
    );
    assert_eq!(list_peers(&vec![[2; 33], [3; 33]]), expected);
}

#[test]
fn a_bare_channel_is_listed() {
    assert_eq!(list_channels(&vec![]), "[\n]\n");
    let expected = format!(
        "[\n\n\t{{{{\n\t\t channel_id: {},\n\t\tpeer_pubkey: {},\n\t\tis_channel_ready: false,\n\t\tchannel_value_satoshis: 30010,\n\t\tlocal_balance_msat: 26000,\n\t\tchannel_can_send_payments: false,\n\t\tpublic: false,\n\t\trgb_contract_id: N/A,\n\t\trgb_local_amount: N/A,\n\t\trgb_remote_amount: N/A,\n\t}}}},\n]\n",
        "01".repeat(32),
        "01".repeat(33),
    );
    assert_eq!(list_channels(&vec![channel(1)]), expected);
}

#[test]
fn a_full_channel_is_listed() {
    let mut c = channel(1);
    c.funding_txid = Some([0xcd; 32]);
    let mut alias = [0u8; 32];
    alias[..5].copy_from_slice(b"alice");
    c.peer_alias = Some(alias);
    c.short_channel_id = Some(120946279055361);
    c.is_channel_ready = true;
    c.is_usable = true;
    c.is_public = true;
    c.rgb_info = Some(RgbInfo { contract_id: [8; 32], local_rgb_amount: 60, remote_rgb_amount: 40 });
    let id = rgb::ContractId::from_inner(bitcoin::hashes::Hash::from_inner([8; 32])).to_string();
    let listed = list_channels(&vec![c]);
    let expected = format!(
        "[\n\n\t{{{{\n\t\t channel_id: {},\n\t\t funding_txid: {},\n\t\tpeer_pubkey: {},\n\t\tpeer_alias: alice,\n\t\t short_channel_id: 120946279055361,\n\t\tis_channel_ready: true,\n\t\tchannel_value_satoshis: 30010,\n\t\tlocal_balance_msat: 26000,\n\t\tavailable_balance_for_send_msat: 1,\n\t\tavailable_balance_for_recv_msat: 2,\n\t\tchannel_can_send_payments: true,\n\t\tpublic: true,\n\t\trgb_contract_id: {},\n\t\trgb_local_amount: 60,\n\t\trgb_remote_amount: 40,\n\t}}}},\n]\n",
        "01".repeat(32),
        "cd".repeat(32),
        "01".repeat(33),
        id,
    );
    assert_eq!(listed, expected);
    let given = channel_text(&c, Some("bob".to_string()), "rgb1xyz");
    assert!(given.contains("\t\tpeer_alias: bob,\n"));
    assert!(given.contains("\t\trgb_contract_id: rgb1xyz,\n"));
}

#[test]
fn an_unreadable_alias_is_shown_safely() {
    let mut c = channel(1);
    let mut alias = [0u8; 32];
    alias[..3].copy_from_slice(&[b'a', 0xff, b'b']);
    c.peer_alias = Some(alias);
    assert!(list_channels(&vec![c]).contains("\t\tpeer_alias: a\u{fffd}b,\n"));
}

#[test]
fn a_peer_is_let_go_only_without_a_channel() {
    let peers = vec![[1; 33], [2; 33]];
    assert_eq!(do_disconnect_peer(&[2; 33], &vec![channel(1)], &peers), Ok(()));
    assert_eq!(
        do_disconnect_peer(&[1; 33], &vec![channel(3), channel(1)], &peers),
        Err("Error: Node has an active channel with this peer, close any channels first".to_string())
    );
    assert_eq!(
        do_disconnect_peer(&[3; 33], &vec![channel(1)], &peers),
        Err(format!("Error: Could not find peer {}", "03".repeat(33)))
    );
}
