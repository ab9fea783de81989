//! How requests go on once what they asked for is there.
use amplify::Wrapper;
use rgb_lightning_sample::assets::{
    receive_asset, receive_on, Allocation, AssetBalance, IssueAsset, IssueContract, SaveBlinded,
    SendAsset, SendBuild, SendChange, SendFinish, SendTransfer,
};
use rgb_lightning_sample::channels::{ChannelDetails, RgbInfo};
use rgb_lightning_sample::cli::{greeting, on_input, on_response, Input, PROMPT};
use rgb_lightning_sample::closing::ChannelOfPeer;
use rgb_lightning_sample::invoices::{
    counts, readable, show_preimage, test_preimage, ClaimFunds, CreatedInvoice, InvoiceQuery, NewHodlInvoice,
    NewInvoice,
};
use rgb_lightning_sample::messages::{OnionMessage, SignMessage};
use rgb_lightning_sample::onchain::{
    create_utxos, get_address, list_unspent, CreateUtxos, MineBlocks, SaveUtxos,
};
use rgb_lightning_sample::opening::{ChannelOffer, OpenRequest, OpenResolve, RecordChannel};
use rgb_lightning_sample::paying::{InvoiceAsset, Keysend, KeysendPay, PayInvoice};
use rgb_lightning_sample::payments::{HTLCStatus, MillisatAmount, PaymentInfo, PaymentInfoStorage};
use rgb_lightning_sample::peers::{
    connect_failure, connect_peer_if_necessary, do_connect_peer, parse_peer_info, watch_peer,
    ConnectPeer, ConnectResolve, ConnectStep, PeerKey, Wake,
};
use rgb_lightning_sample::refresh::{
    refresh_next, ConsumeTransfer, FetchConsignment, RegisterContract, Reveal,
};
use rgb_lightning_sample::request::{channels_listed, node_summed_up, payments_listed, peers_listed};
use rgb_lightning_sample::restapi::CliCommands;
use rgb_lightning_sample::step::{Reply, Settings, Step};
use rgb_lightning_sample::types::{
    BlindedInfo, CloseMethod, Currency, ExplicitSeal, InvoiceData, Network, OutPoint, RevealedSeal,
    RgbUtxo,
};
use rgb_lightning_sample::utxos::{OwnedValue, Unspent};

use std::str::FromStr;

const KEY: &str = "0279be667ef9dcbbac55a06295ce870b07029bfcdb2dce28d959f2815b16f81798";

fn settings() -> Settings {
    Settings {
        network: Network::Regtest,
        ldk_data_dir: "/tmp/ldk".to_string(),
        proxy_url: "http://127.0.0.1:3000/json-rpc".to_string(),
        utxo_size_sat: 32000,
        no_available_utxos: "no utxo".to_string(),
        package_name: "node".to_string(),
        package_version: "1.2.3".to_string(),
    }
}

fn answered(response: &str) -> Step {
    shown("", response)
}

fn shown(printed: &str, response: &str) -> Step {
    Step::Reply(Reply { printed: printed.to_string(), response: response.to_string() })
}

fn aborted(reason: &str) -> Step {
    Step::Abort(reason.to_string())
}

fn key() -> [u8; 33] {
    hex::decode(KEY).unwrap().try_into().unwrap()
}

fn contract(n: u8) -> String {
    rgb::ContractId::from_inner(bitcoin::hashes::Hash::from_inner([n; 32])).to_string()
}

fn out(n: u8) -> OutPoint {
    OutPoint { txid: [n; 32], vout: n as u32 }
}

fn utxo(n: u8, colored: bool) -> RgbUtxo {
    RgbUtxo { outpoint: out(n), colored }
}

fn send(amt_rgb: u64) -> SendAsset {
    SendAsset { contract_id: [5; 32], amt_rgb, blinded_utxo: "blinded".to_string() }
}

fn blinded(blinding: u64) -> BlindedInfo {
    BlindedInfo {
        contract_id: None,
        seal: RevealedSeal {
            method: CloseMethod::OpretFirst,
            txid: Some([3; 32]),
            vout: 4,
            blinding,
        },
        consumed: false,
    }
}

fn channel(balance_msat: u64) -> ChannelDetails {
    ChannelDetails {
        channel_id: [1; 32],
        funding_txid: None,
        counterparty: key(),
        peer_alias: None,
        short_channel_id: None,
        is_channel_ready: true,
        channel_value_satoshis: 30010,
        balance_msat,
        is_usable: true,
        outbound_capacity_msat: 1,
        inbound_capacity_msat: 2,
        is_public: false,
        rgb_info: None,
    }
}

fn request() -> OpenRequest {
    OpenRequest {
        peer_info: format!("{}@127.0.0.1:9735", KEY),
        pubkey: key(),
        address: "127.0.0.1:9735".to_string(),
        chan_amt_sat: 30010,
        push_amt_msat: 546000,
        contract_id: [5; 32],
        chan_amt_rgb: 60,
        public: None,
    }
}

fn signed_invoice(age_secs: u64) -> String {
    let now = std::time::SystemTime::now()
        .duration_since(std::time::SystemTime::UNIX_EPOCH)
        .unwrap()
        .as_secs();
    let secp = bitcoin::secp256k1::Secp256k1::new();
    let secret = bitcoin::secp256k1::SecretKey::from_slice(&[0x41; 32]).unwrap();
    let hash: bitcoin::hashes::sha256::Hash = bitcoin::hashes::Hash::from_inner([7; 32]);
    lightning_invoice::InvoiceBuilder::new(lightning_invoice::Currency::Regtest)
        .description("coins".to_string())
        .payment_hash(hash)
        .payment_secret(lightning::ln::PaymentSecret([9; 32]))
        .duration_since_epoch(std::time::Duration::from_secs(now - age_secs))
        .expiry_time(std::time::Duration::from_secs(600))
        .min_final_cltv_expiry_delta(144)
        .build_signed(|m| secp.sign_ecdsa_recoverable(m, &secret))
        .unwrap()
        .to_string()
}

fn invoice_data(text: String) -> InvoiceData {
    InvoiceData {
        text,
        amount_msat: Some(3000000),
        payment_hash: [7; 32],
        payment_secret: [9; 32],
        payee: key(),
    }
}

// ---- Bitcoins ----

#[test]
fn blocks_are_mined() {
    assert_eq!(MineBlocks { num_blocks: 6 }.mined(), answered("mined"));
}

#[test]
fn outputs_of_the_wallet_are_listed() {
    assert_eq!(list_unspent(&vec![]), shown("Unspents:\n", "Unspents:\n"));
    assert_eq!(
        list_unspent(&vec!["a".to_string(), "b".to_string()]),
        shown("Unspents:\n", "Unspents:\n - a\n - b\n")
    );
}

#[test]
fn an_address_is_shown() {
    assert_eq!(get_address("bcrt1q"), answered("Address: bcrt1q"));
}

#[test]
fn outputs_are_created() {
    let unspents = vec![
        Unspent { outpoint: out(1), value: 500 },
        Unspent { outpoint: out(2), value: 9000 },
    ];
    assert_eq!(
        create_utxos(vec![utxo(1, true)], &unspents, 9500, &settings()),
        answered("ERROR: not enough funds, call getaddress and send 1000 satoshis")
    );
    assert_eq!(
        create_utxos(vec![], &vec![], 0, &settings()),
        answered("ERROR: not enough funds, call getaddress and send 10000 satoshis")
    );
    assert_eq!(
        create_utxos(vec![utxo(1, true)], &unspents, 499, &settings()),
        aborted("attempt to subtract with overflow")
    );
    let step = create_utxos(vec![utxo(1, true)], &unspents, 10500, &settings());
    assert_eq!(
        step,
        Step::CreateUtxos(CreateUtxos {
            utxos: vec![utxo(1, true)],
            unspendable: vec![out(1)],
            count: 10,
            value_sat: 32000,
        })
    );
    let save = match step {
        Step::CreateUtxos(c) => c.sent([9; 32]),
        other => panic!("{:?}", other),
    };
    let save = match save {
        Step::SaveUtxos(s) => s,
        other => panic!("{:?}", other),
    };
    assert_eq!(save.utxos.len(), 11);
    assert_eq!(save.utxos[1].outpoint, OutPoint { txid: [9; 32], vout: 0 });
    assert_eq!(save.saved(), answered("UTXO creation complete"));
    assert_eq!(SaveUtxos { utxos: vec![] }.saved(), answered("UTXO creation complete"));
}

#[test]
fn too_much_on_outputs_set_aside() {
    let unspents = vec![
        Unspent { outpoint: out(1), value: u64::MAX },
        Unspent { outpoint: out(1), value: 1 },
    ];
    assert_eq!(
        create_utxos(vec![utxo(1, true)], &unspents, 0, &settings()),
        aborted("attempt to add with overflow")
    );
}

// ---- Assets ----

#[test]
fn an_asset_is_issued_on_an_output_of_its_own() {
    let asset = || IssueAsset {
        amount: 1000,
        ticker: "USDT".to_string(),
        name: "Tether".to_string(),
        precision: 0,
    };
    assert_eq!(asset().utxos_read(vec![utxo(1, true)], &settings()), answered("ERROR: no utxo"));
    let step = asset().utxos_read(vec![utxo(1, true), utxo(2, false)], &settings());
    assert_eq!(
        step,
        Step::IssueContract(IssueContract {
            utxos: vec![utxo(1, true), utxo(2, true)],
            outpoint: out(2),
            asset: asset(),
        })
    );
    match step {
        Step::IssueContract(c) => {
            assert_eq!(c.issued([8; 32]), answered(&format!("Asset ID: {}", contract(8))));
        }
        other => panic!("{:?}", other),
    }
    let id = rgb::ContractId::from_str(&contract(8)).unwrap();
    assert_eq!(bitcoin::hashes::Hash::into_inner(id.into_inner()), [8; 32]);
}

#[test]
fn an_asset_is_counted() {
    let count = AssetBalance { contract_id: [5; 32] };
    assert_eq!(count.counted(Ok(12)), answered("Asset balance: 12"));
    assert_eq!(count.counted(Err("unknown".to_string())), answered("ERROR: unknown"));
}

#[test]
fn an_asset_is_sent_only_where_there_is_enough() {
    assert_eq!(send(7).counted(Err("unknown".to_string())), answered("ERROR: unknown"));
    assert_eq!(send(7).counted(Ok(6)), answered("ERROR: you only have 6 RGB"));
    assert_eq!(send(7).counted(Ok(7)), Step::SendOwned(send(7)));
}

#[test]
fn inputs_and_change_of_a_transfer() {
    let owned = vec![
        OwnedValue { outpoint: out(1), value: 4 },
        OwnedValue { outpoint: out(2), value: 4 },
        OwnedValue { outpoint: out(3), value: 4 },
    ];
    assert_eq!(
        send(7).owned(&owned),
        Step::SendChange(SendChange { send: send(7), inputs: vec![out(1), out(2)], change: 1 })
    );
    assert_eq!(
        send(8).owned(&owned),
        Step::SendBuild(SendBuild {
            send: send(8),
            inputs: vec![out(1), out(2)],
            change: None,
            save: None,
        })
    );
    assert_eq!(send(13).owned(&owned), aborted("attempt to subtract with overflow"));
    let huge = vec![
        OwnedValue { outpoint: out(1), value: 1 },
        OwnedValue { outpoint: out(2), value: u64::MAX },
    ];
    assert_eq!(send(2).owned(&huge), aborted("attempt to add with overflow"));
}

#[test]
fn change_goes_to_an_output_of_its_own() {
    let change = || SendChange { send: send(7), inputs: vec![out(1)], change: 3 };
    assert_eq!(change().utxos_read(vec![], &settings()), answered("ERROR: no utxo"));
    assert_eq!(
        change().utxos_read(vec![utxo(2, false)], &settings()),
        Step::SendBuild(SendBuild {
            send: send(7),
            inputs: vec![out(1)],
            change: Some(Allocation {
                value: 3,
                seal: ExplicitSeal {
                    method: CloseMethod::OpretFirst,
                    txid: Some([2; 32]),
                    vout: 2,
                },
            }),
            save: Some(vec![utxo(2, true)]),
        })
    );
}

#[test]
fn a_transfer_goes_to_a_blinded_output() {
    let build = |blinded_utxo: &str| SendBuild {
        send: SendAsset {
            contract_id: [5; 32],
            amt_rgb: 7,
            blinded_utxo: blinded_utxo.to_string(),
        },
        inputs: vec![out(1)],
        change: None,
        save: None,
    };
    assert_eq!(
        build("txob1").built(&settings()),
        answered("ERROR: blinded_utxo must be a valid RGB blinded UTXO")
    );
    let seal = bp::seals::txout::blind::RevealedSeal {
        method: bp::seals::txout::CloseMethod::OpretFirst,
        txid: Some(bitcoin::hashes::Hash::from_inner([3; 32])),
        vout: 4,
        blinding: 77,
    }
    .to_concealed_seal();
    let text = seal.to_string();
    let transfer = SendTransfer {
        send: build(&text).send,
        inputs: vec![out(1)],
        beneficiary: bitcoin::hashes::Hash::into_inner(seal.into_inner()),
        change: None,
        consignment_path: "/tmp/ldk/consignment".to_string(),
    };
    assert_eq!(build(&text).built(&settings()), Step::SendTransfer(transfer));
}

#[test]
fn a_transfer_is_posted_and_sent() {
    let transfer = || SendTransfer {
        send: send(7),
        inputs: vec![],
        beneficiary: [1; 32],
        change: None,
        consignment_path: String::new(),
    };
    let failed = answered("ERROR: unable to post consignment");
    assert_eq!(transfer().posted(Err("down".to_string())), failed);
    assert_eq!(transfer().posted(Ok(None)), failed);
    assert_eq!(
        transfer().posted(Ok(Some(true))),
        Step::SendFinish(SendFinish { send: send(7) })
    );
    let mut txid = [0u8; 32];
    txid[0] = 0xff;
    assert_eq!(
        SendFinish { send: send(7) }.sent(txid),
        answered(&format!("RGB send complete, txid: {}ff", "00".repeat(31)))
    );
}

#[test]
fn an_asset_is_received_on_a_blinded_output() {
    assert_eq!(receive_asset(vec![utxo(1, true)], &settings()), answered("no utxo"));
    let save = match receive_asset(vec![utxo(1, true), utxo(2, false)], &settings()) {
        Step::SaveBlinded(s) => s,
        other => panic!("{:?}", other),
    };
    assert_eq!(save.utxos, vec![utxo(1, true), utxo(2, true)]);
    assert_eq!(save.info.contract_id, None);
    assert!(!save.info.consumed);
    assert_eq!(save.info.seal.method, CloseMethod::OpretFirst);
    assert_eq!(save.info.seal.txid, Some([2; 32]));
    assert_eq!(save.info.seal.vout, 2);
    let text = save.blinded_utxo.clone();
    // Another node takes the blinded output.
    let build = SendBuild {
        send: SendAsset { contract_id: [5; 32], amt_rgb: 7, blinded_utxo: text.clone() },
        inputs: vec![],
        change: None,
        save: None,
    };
    assert!(matches!(build.built(&settings()), Step::SendTransfer(_)));
    // This node asks for it under the same name.
    assert_eq!(
        refresh_next(Some(save.info)),
        Step::FetchConsignment(FetchConsignment { info: save.info, blinded_utxo: text.clone() })
    );
    assert_eq!(save.saved(), answered(&format!("Blinded UTXO: {}", text)));
}

#[test]
fn blinding_factors_differ() {
    let blinding = || match receive_asset(vec![utxo(2, false)], &settings()) {
        Step::SaveBlinded(s) => s.info.seal.blinding,
        other => panic!("{:?}", other),
    };
    assert!((0..4).any(|_| blinding() != blinding()));
    let seal = blinded(1).seal;
    assert_eq!(
        receive_on(vec![], seal, "txob1".to_string()),
        Step::SaveBlinded(SaveBlinded {
            utxos: vec![],
            blinded_utxo: "txob1".to_string(),
            info: blinded(1),
        })
    );
}

// ---- Refresh ----

#[test]
fn refresh_ends() {
    assert_eq!(refresh_next(None), answered("Refresh complete"));
    let mut info = blinded(1);
    info.consumed = true;
    assert_eq!(refresh_next(Some(info)), answered(""));
}

#[test]
fn a_seal_of_either_method_is_asked_for() {
    let mut info = blinded(9);
    info.seal.method = CloseMethod::TapretFirst;
    let expected = bp::seals::txout::blind::RevealedSeal {
        method: bp::seals::txout::CloseMethod::TapretFirst,
        txid: Some(bitcoin::hashes::Hash::from_inner([3; 32])),
        vout: 4,
        blinding: 9,
    }
    .to_concealed_seal()
    .to_string();
    assert_eq!(
        refresh_next(Some(info)),
        Step::FetchConsignment(FetchConsignment { info, blinded_utxo: expected })
    );
}

#[test]
fn a_consignment_is_fetched_or_not() {
    let fetch = || FetchConsignment { info: blinded(1), blinded_utxo: String::new() };
    let failed = answered("ERROR: unable to get consignment");
    assert_eq!(fetch().fetched(Err("down".to_string())), failed);
    assert_eq!(fetch().fetched(Ok(None)), failed);
    assert_eq!(fetch().fetched(Ok(Some("?".to_string()))), aborted("valid consignment"));
    assert_eq!(fetch().fetched(Ok(Some("AAAA".to_string()))), aborted("valid consignment"));
    assert_eq!(fetch().decoded(None, None, false), aborted("valid consignment"));
    assert_eq!(fetch().decoded(Some(vec![1]), None, true), aborted("valid consignment"));
    assert_eq!(
        fetch().decoded(Some(vec![1]), Some(vec![2]), false),
        aborted("valid serialized consignment")
    );
    assert_eq!(
        fetch().decoded(Some(vec![1]), Some(vec![2]), true),
        Step::RegisterContract(RegisterContract {
            info: blinded(1),
            consignment: vec![1],
            contract: vec![2],
        })
    );
}

#[test]
fn a_consignment_is_decoded() {
    let genesis = rgb::Genesis::with(
        Default::default(),
        Default::default(),
        Default::default(),
        Default::default(),
        Default::default(),
    );
    let transfer = rgb::StateTransfer::with(
        rgb::Schema::default(),
        None,
        genesis,
        Default::default(),
        Default::default(),
        Default::default(),
    );
    let bytes = strict_encoding::strict_serialize(&transfer).unwrap();
    let fetch = || FetchConsignment { info: blinded(1), blinded_utxo: String::new() };
    assert_eq!(
        fetch().fetched(Ok(Some(base64::encode(&bytes)))),
        Step::RegisterContract(RegisterContract {
            info: blinded(1),
            consignment: bytes.clone(),
            contract: bytes.clone(),
        })
    );
    let cut = base64::encode(&bytes[..bytes.len() - 1]);
    assert_eq!(fetch().fetched(Ok(Some(cut))), aborted("valid consignment"));
}

#[test]
fn a_transfer_is_revealed_and_consumed() {
    let register = |info| RegisterContract { info, consignment: vec![1], contract: vec![2] };
    assert_eq!(
        register(blinded(42)).registered(),
        Step::ConsumeTransfer(ConsumeTransfer {
            consignment: vec![1],
            reveal: Reveal {
                blinding_factor: 42,
                outpoint: OutPoint { txid: [3; 32], vout: 4 },
                close_method: CloseMethod::OpretFirst,
                witness_vout: false,
            },
        })
    );
    let mut info = blinded(42);
    info.seal.txid = None;
    assert_eq!(
        register(info).registered(),
        aborted("called `Option::unwrap()` on a `None` value")
    );
    let consume = || ConsumeTransfer {
        consignment: vec![1],
        reveal: Reveal {
            blinding_factor: 42,
            outpoint: out(1),
            close_method: CloseMethod::OpretFirst,
            witness_vout: false,
        },
    };
    assert_eq!(consume().consumed(true), Step::FinishRefresh);
    assert_eq!(consume().consumed(false), answered("WARNING: error consuming transfer"));
}

// ---- Peers ----

#[test]
fn peer_info_is_read() {
    let at = |s: &str| Some(s.to_string());
    assert_eq!(
        parse_peer_info("02", at("x")),
        Err("ERROR: incorrectly formatted peer info. Should be formatted as: `pubkey@host:port`".to_string())
    );
    assert_eq!(
        parse_peer_info("02@x", None),
        Err("ERROR: couldn't parse pubkey@host:port into a socket address".to_string())
    );
    assert_eq!(
        parse_peer_info("02@x", at("1.2.3.4:5")),
        Err("ERROR: unable to parse given pubkey for node".to_string())
    );
    assert_eq!(
        parse_peer_info(&format!("{}@x", KEY), at("1.2.3.4:5")),
        Ok((key(), "1.2.3.4:5".to_string()))
    );
}

#[test]
fn a_peer_is_connected_to() {
    let resolve = |info: String| ConnectResolve { peer_info: info, host: "x".to_string() };
    assert_eq!(
        resolve("02@x".to_string()).resolved(None),
        answered("\"ERROR: couldn't parse pubkey@host:port into a socket address\"")
    );
    assert_eq!(
        resolve("02@x".to_string()).resolved(Some("1.2.3.4:5".to_string())),
        answered("\"ERROR: unable to parse given pubkey for node\"")
    );
    let step = resolve(format!("{}@x", KEY)).resolved(Some("1.2.3.4:5".to_string()));
    let connect = || ConnectPeer { pubkey: key(), address: "1.2.3.4:5".to_string() };
    assert_eq!(step, Step::ConnectPeer(connect()));
    assert_eq!(
        connect().tried(true),
        answered(&format!("SUCCESS: connected to peer {}", KEY))
    );
    assert_eq!(
        connect().tried(false),
        answered(&format!("ERROR: failed to connect to peer {}", KEY))
    );
}

#[test]
fn a_connection_is_watched() {
    let others = vec![[1; 33]];
    let both = vec![[1; 33], key()];
    assert_eq!(connect_peer_if_necessary(&key(), &both), ConnectStep::Connected);
    assert_eq!(connect_peer_if_necessary(&key(), &others), ConnectStep::Dial);
    assert_eq!(do_connect_peer(false), ConnectStep::Failed);
    assert_eq!(do_connect_peer(true), ConnectStep::Watch);
    assert_eq!(watch_peer(&key(), &Wake::Closed), ConnectStep::Failed);
    assert_eq!(watch_peer(&key(), &Wake::Slept(others)), ConnectStep::Watch);
    assert_eq!(watch_peer(&key(), &Wake::Slept(both)), ConnectStep::Connected);
    assert_eq!(connect_failure(), "ERROR: failed to connect to peer\n");
}

#[test]
fn a_peer_is_disconnected() {
    let peer = PeerKey { pubkey: key() };
    assert_eq!(peer.listed(&vec![], &vec![key()]), Step::Disconnect(peer));
    assert_eq!(
        peer.listed(&vec![channel(0)], &vec![key()]),
        shown(
            "Error: Node has an active channel with this peer, close any channels first\n",
            &format!("ERROR: failed to disconnect from peer {}", KEY)
        )
    );
    assert_eq!(
        peer.listed(&vec![], &vec![]),
        shown(
            &format!("Error: Could not find peer {}\n", KEY),
            &format!("ERROR: failed to disconnect from peer {}", KEY)
        )
    );
    assert_eq!(
        peer.disconnected(),
        answered(&format!("SUCCESS: disconnected from peer {}", KEY))
    );
}

// ---- Opening channels ----

#[test]
fn the_terms_of_a_channel() {
    let open = |sat: &str, push: &str, id: &str, rgb: &str| OpenResolve {
        peer_info: format!("{}@127.0.0.1:9735", KEY),
        host: "127.0.0.1:9735".to_string(),
        channel_value_sat: sat.to_string(),
        push_value_msat: push.to_string(),
        contract_id: id.to_string(),
        channel_value_rgb: rgb.to_string(),
        public: None,
    };
    let resolve = |o: OpenResolve| o.resolved(Some("127.0.0.1:9735".to_string()));
    let id = contract(5);
    assert_eq!(
        open("x", "x", "x", "x").resolved(None),
        answered("\"ERROR: couldn't parse pubkey@host:port into a socket address\"")
    );
    let cases = [
        (open("x", "x", "x", "x"), "ERROR: channel amount must be a number"),
        (open("4999", "x", "x", "x"), "ERROR: channel amount must be equal or higher than 5000"),
        (
            open("16777216", "x", "x", "x"),
            "ERROR: channel amount must be equal or less than 16777215",
        ),
        (open("5000", "x", "x", "x"), "ERROR: push amount must be a number"),
        (
            open("16777215", "545999", "x", "x"),
            "ERROR: push amount must be equal or higher than the dust limit (546000)",
        ),
        (open("30010", "546000", "x", "x"), "ERROR: contract_id must be a valid RGB asset ID"),
        (open("30010", "546000", &id, "x"), "ERROR: channel RGB amount must be a number"),
    ];
    for (o, response) in cases {
        assert_eq!(resolve(o), answered(response));
    }
    assert_eq!(resolve(open("30010", "546000", &id, "60")), Step::OpenTotal(request()));
}

#[test]
fn a_channel_needs_enough_of_its_asset() {
    assert_eq!(request().counted(Err("unknown".to_string())), answered("ERROR: unknown"));
    assert_eq!(request().counted(Ok(59)), answered("ERROR: do not have enough RGB assets"));
    assert_eq!(request().counted(Ok(60)), Step::OpenConnect(request()));
}

#[test]
fn a_channel_is_proposed() {
    assert_eq!(request().connected(false, &settings()), answered(""));
    for (word, public) in [
        (None, false),
        (Some("--public"), true),
        (Some("--public=true"), true),
        (Some("--public=false"), false),
    ] {
        let ask = || {
            let mut r = request();
            r.public = word.map(|w| w.to_string());
            r
        };
        assert_eq!(
            ask().connected(true, &settings()),
            Step::OpenChannel(ChannelOffer {
                request: ask(),
                announced_channel: public,
                our_htlc_minimum_msat: 3000000,
                their_to_self_delay: 2016,
                user_channel_id: 0,
                consignment_endpoint: "rgbhttpjsonrpc:http://127.0.0.1:3000/json-rpc".to_string(),
            })
        );
    }
    let mut r = request();
    r.public = Some("public".to_string());
    assert_eq!(
        r.connected(true, &settings()),
        answered("ERROR: invalid `--public` command format. Valid formats: `--public`, `--public=true` `--public=false`")
    );
}

#[test]
fn a_proposed_channel_is_written_down() {
    let offer = || match request().connected(true, &settings()) {
        Step::OpenChannel(o) => o,
        other => panic!("{:?}", other),
    };
    assert_eq!(
        offer().opened(Err("APIMisuseError".to_string()), &settings()),
        shown("ERROR: failed to open channel: APIMisuseError\n", "ERROR: ()")
    );
    let path = format!("/tmp/ldk/{}", "0c".repeat(32));
    let record = || RecordChannel {
        printed: format!("EVENT: initiated channel with peer {}. \n", KEY),
        peer_data_path: "/tmp/ldk/channel_peer_data".to_string(),
        peer_info: format!("{}@127.0.0.1:9735", KEY),
        info_path: path.clone(),
        info: RgbInfo { contract_id: [5; 32], local_rgb_amount: 60, remote_rgb_amount: 0 },
    };
    assert_eq!(offer().opened(Ok([12; 32]), &settings()), Step::RecordChannel(record()));
    assert_eq!(
        record().recorded(),
        answered(&format!("Wrote RGB channel info to {}", path))
    );
}

// ---- Payments and invoices ----

#[test]
fn a_paid_invoice_is_recorded() {
    let pay = || PayInvoice {
        invoice: invoice_data("lnbcrt".to_string()),
        amt_msat: 3000000,
        contract_id: [5; 32],
        amt_rgb: 4,
        retry_secs: 10,
    };
    let ask = || InvoiceAsset {
        invoice: invoice_data("lnbcrt".to_string()),
        amt_msat: 3000000,
    };
    let unnamed = aborted("called `Option::unwrap()` on a `None` value");
    assert_eq!(ask().asset_read(None, Some(4)), unnamed);
    assert_eq!(ask().asset_read(Some([5; 32]), None), unnamed);
    assert_eq!(ask().asset_read(Some([5; 32]), Some(4)), Step::PayInvoice(pay()));
    let mut payments = PaymentInfoStorage::new();
    assert_eq!(
        pay().paid(Ok(()), &mut payments),
        shown("> ", &format!("EVENT: initiated sending 3000000 msats to {}\n", KEY))
    );
    let recorded = |status| PaymentInfo {
        preimage: None,
        secret: Some([9; 32]),
        status,
        amt_msat: MillisatAmount(Some(3000000)),
    };
    assert_eq!(payments.get(&[7; 32]), Some(recorded(HTLCStatus::Pending)));
    assert_eq!(
        pay().paid(Err("NoRoute".to_string()), &mut payments),
        shown("> ", "ERROR: failed to send payment: NoRoute\n")
    );
    assert_eq!(payments.get(&[7; 32]), Some(recorded(HTLCStatus::Failed)));
    assert_eq!(payments.len(), 1);
}

#[test]
fn a_payment_without_an_invoice_is_recorded() {
    let payment = || Keysend { payee: key(), amt_msat: 3000000, contract_id: [5; 32], amt_rgb: 4 };
    let digest: bitcoin::hashes::sha256::Hash = bitcoin::hashes::Hash::hash(&[6; 32]);
    let hash: [u8; 32] = bitcoin::hashes::Hash::into_inner(digest);
    let pay = || KeysendPay {
        payment: payment(),
        preimage: [6; 32],
        payment_hash: hash,
        final_delta: 40,
        retry_secs: 10,
    };
    assert_eq!(payment().drawn([6; 32]), Step::KeysendPay(pay()));
    let mut payments = PaymentInfoStorage::new();
    assert_eq!(
        pay().sent(Ok(()), &mut payments),
        shown(&format!("EVENT: initiated sending 3000000 msats to {}\n> ", KEY), "")
    );
    let recorded = |status| PaymentInfo {
        preimage: None,
        secret: None,
        status,
        amt_msat: MillisatAmount(Some(3000000)),
    };
    assert_eq!(payments.get(&hash), Some(recorded(HTLCStatus::Pending)));
    assert_eq!(
        pay().sent(Err("PathNotFound".to_string()), &mut payments),
        shown("ERROR: failed to send payment: PathNotFound\n> ", "")
    );
    assert_eq!(payments.get(&hash), Some(recorded(HTLCStatus::Failed)));
}

#[test]
fn a_new_invoice_is_handed_out_and_awaited() {
    let ask = || NewInvoice {
        amt_msat: 3000000,
        currency: Currency::Regtest,
        description: "ldk-tutorial-node".to_string(),
        expiry_secs: 900,
        contract_id: [5; 32],
        amt_rgb: 4,
    };
    let created = |hash: u8| CreatedInvoice {
        text: "ln\"bc\\\n".to_string(),
        payment_hash: [hash; 32],
        payment_secret: [9; 32],
    };
    let json = "{\"invoice_string\":\"ln\\\"bc\\\\\\n\"}";
    let handed_out = shown(&format!("{}\n", json), json);
    let failed = shown(
        "ERROR: failed to create invoice: NoChannels\n",
        "ERROR: failed to create invoice: NoChannels",
    );
    let mut payments = PaymentInfoStorage::new();
    assert_eq!(ask().created(Err("NoChannels".to_string()), &mut payments), failed);
    assert_eq!(payments.len(), 0);
    assert_eq!(ask().created(Ok(created(1)), &mut payments), handed_out);
    let hodl = || NewHodlInvoice { invoice: ask(), payment_hash: [2; 32] };
    assert_eq!(hodl().created(Err("NoChannels".to_string()), &mut payments), failed);
    assert_eq!(hodl().created(Ok(created(2)), &mut payments), handed_out);
    let awaited = PaymentInfo {
        preimage: None,
        secret: Some([9; 32]),
        status: HTLCStatus::Pending,
        amt_msat: MillisatAmount(Some(3000000)),
    };
    assert_eq!(payments.get(&[1; 32]), Some(awaited));
    assert_eq!(payments.get(&[2; 32]), Some(awaited));
    assert_eq!(payments.len(), 2);
}

#[test]
fn a_handed_out_invoice_is_read_back() {
    let every: String = (0..0x250u32).chain([0x2028, 0xfffd, 0x1f600]).filter_map(char::from_u32).collect();
    for text in ["lnbcrt30u1p".to_string(), every] {
        let mut payments = PaymentInfoStorage::new();
        let step = NewInvoice {
            amt_msat: 3000000,
            currency: Currency::Regtest,
            description: String::new(),
            expiry_secs: 900,
            contract_id: [5; 32],
            amt_rgb: 4,
        }
        .created(
            Ok(CreatedInvoice {
                text: text.clone(),
                payment_hash: [1; 32],
                payment_secret: [9; 32],
            }),
            &mut payments,
        );
        let response = match step {
            Step::Reply(r) => r.response,
            other => panic!("{:?}", other),
        };
        let mut escaped = String::new();
        for c in text.chars() {
            match c {
                '"' | '\\' => escaped.push_str(&format!("\\{}", c)),
                '\u{8}' => escaped.push_str("\\b"),
                '\t' => escaped.push_str("\\t"),
                '\n' => escaped.push_str("\\n"),
                '\u{c}' => escaped.push_str("\\f"),
                '\r' => escaped.push_str("\\r"),
                c if c < ' ' => escaped.push_str(&format!("\\u{:04x}", c as u32)),
                c => escaped.push(c),
            }
        }
        assert_eq!(response, format!("{{\"invoice_string\":\"{}\"}}", escaped));
        let value: serde_json::Value = serde_json::from_str(&response).unwrap();
        assert_eq!(value["invoice_string"].as_str(), Some(text.as_str()));
    }
}

#[test]
fn a_held_payment_is_claimed() {
    assert_eq!(
        ClaimFunds { preimage: [1; 32] }.claimed(),
        answered("Payment claim seems to have succeeded! The invoice should be settled")
    );
}

#[test]
fn the_status_of_an_invoice_depends_on_the_time() {
    let query = |age| InvoiceQuery { invoice: invoice_data(signed_invoice(age)) };
    let mut inbound = PaymentInfoStorage::new();
    assert_eq!(query(0).looked_up(&inbound), answered("ERROR: unknown invoice"));
    let info = |status| PaymentInfo {
        preimage: None,
        secret: None,
        status,
        amt_msat: MillisatAmount(None),
    };
    inbound.insert([7; 32], info(HTLCStatus::Pending));
    assert_eq!(query(0).looked_up(&inbound), answered("status: pending"));
    assert_eq!(query(700).looked_up(&inbound), answered("status: expired"));
    inbound.insert([7; 32], info(HTLCStatus::Succeeded));
    assert_eq!(query(700).looked_up(&inbound), answered("status: succeeded"));
}

#[test]
fn amounts_that_cannot_be_counted() {
    assert!(counts(None));
    assert!(counts(Some((None, None))));
    assert!(counts(Some((None, Some(1000000000)))));
    assert!(counts(Some((Some(18446744), None))));
    assert!(!counts(Some((Some(18446745), None))));
    assert!(counts(Some((Some(u64::MAX), Some(1)))));
    assert!(!counts(Some((Some(u64::MAX), Some(1000)))));
    let huge = Some((Some(u64::MAX), None));
    assert!(!readable(huge, false, false));
    assert!(readable(huge, true, false));
    assert!(readable(huge, false, true));
    assert!(readable(None, false, false));
}

#[test]
fn a_preimage_is_shown_as_its_types_show_themselves() {
    let preimage: [u8; 32] = core::array::from_fn(|i| (i * 8) as u8);
    let expected = format!(
        "This is a preimage / payment hash pair for testing: \nTestPreimageData {{ payment_preimage: {:?}, payment_hash: {:?} }} \nPreimage: {} \nPayment hash: {}",
        lightning::ln::PaymentPreimage(preimage),
        lightning::ln::PaymentHash([255; 32]),
        hex::encode(preimage),
        "ff".repeat(32),
    );
    assert_eq!(show_preimage(&preimage, &[255; 32]), answered(&expected));
    let digest: bitcoin::hashes::sha256::Hash = bitcoin::hashes::Hash::hash(&preimage);
    let hash: [u8; 32] = bitcoin::hashes::Hash::into_inner(digest);
    assert_eq!(test_preimage(&preimage), show_preimage(&preimage, &hash));
}

// ---- Closing channels, messages, listings ----

#[test]
fn a_channel_is_closed() {
    let c = ChannelOfPeer { channel_id: [1; 32], peer: key() };
    assert_eq!(c.closed(Ok(())), shown("EVENT: initiating channel close\n", ""));
    assert_eq!(
        c.closed(Err("ChannelUnavailable".to_string())),
        shown("ERROR: failed to close channel: ChannelUnavailable\n", "")
    );
    assert_eq!(c.force_closed(Ok(())), answered("EVENT: initiating channel force-close"));
    assert_eq!(
        c.force_closed(Err("ChannelUnavailable".to_string())),
        answered("ERROR: failed to force-close channel: ChannelUnavailable")
    );
}

#[test]
fn a_message_is_signed() {
    let mut one = [0u8; 32];
    one[31] = 1;
    let text = "Ok(\"d9tibmnic9t5y41hg7hkakdcra94akas9ku3rmmj4ag9mritc8ok4p5qzefs78c9pqfhpuftqqzhydbdwfg7u6w6wdxcqpqn4sj4e73e\")";
    assert_eq!(
        SignMessage { message: b"test message".to_vec() }.signed(&one),
        shown(&format!("{}\n", text), text)
    );
    assert_eq!(
        SignMessage { message: vec![1] }.signed(&[0; 32]),
        aborted("invalid secret key")
    );
}

#[test]
fn an_onion_message_is_forwarded() {
    let message = || OnionMessage { path: vec![], destination: key(), tlv_type: 64, data: vec![] };
    assert_eq!(
        message().forwarded(Ok(())),
        answered("SUCCESS: forwarded onion message to first hop")
    );
    assert_eq!(
        message().forwarded(Err("TooFewBlindedHops".to_string())),
        answered("ERROR: failed to send onion message: TooFewBlindedHops")
    );
}

#[test]
fn listings_are_replied() {
    let empty = PaymentInfoStorage::new();
    assert_eq!(payments_listed(&empty, &empty), answered("[\n]\n"));
    assert_eq!(channels_listed(&vec![]), answered("[\n]\n"));
    assert_eq!(peers_listed(&vec![]), shown("\t{{\n\t}},\n\n", "\t{{\n\t}},\n"));
    let summary = format!(
        "\t{{{{\n\t\t node_pubkey: {}\n\t\t num_channels: 1\n\t\t num_usable_channels: 1\n\t\t local_balance_msat: 5\n\t\t num_peers: 0\n\t}}}},\n",
        KEY,
    );
    assert_eq!(
        node_summed_up(&key(), &vec![channel(5)], &vec![]),
        shown(&format!("{}\n", summary), &summary)
    );
    assert_eq!(
        node_summed_up(&key(), &vec![channel(u64::MAX), channel(1)], &vec![]),
        aborted("attempt to add with overflow")
    );
}

// ---- The dialogue ----

#[test]
fn the_dialogue() {
    assert_eq!(PROMPT, "> ");
    assert_eq!(
        greeting(&key()),
        format!("LDK startup successful. Enter \"help\" to view available commands. Press Ctrl-D to quit.\nLDK logs are available at <your-supplied-ldk-data-dir-path>/.ldk/logs\nLocal Node ID is {}\n", KEY)
    );
    assert_eq!(on_input(Ok(String::new())), Input::Stop(String::new()));
    assert_eq!(on_input(Ok("\n".to_string())), Input::Request("\n".to_string()));
    assert_eq!(
        on_input(Err("broken pipe".to_string())),
        Input::Stop("ERROR: broken pipe\n".to_string())
    );
    assert_eq!(on_response("quitting"), ("quitting\n".to_string(), true));
    assert_eq!(on_response("mined"), ("mined\n".to_string(), false));
    assert_eq!(on_response(""), ("\n".to_string(), false));
}

#[test]
fn the_body_of_a_request() {
    let body = CliCommands { commands: "quit".to_string() };
    assert_eq!(format!("{:?}", body.clone()), "CliCommands { commands: \"quit\" }");
    assert_eq!(body.commands, "quit");
}
