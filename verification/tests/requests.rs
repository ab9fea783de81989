//! What each command makes of its words, before anything else is asked for.
use amplify::Wrapper;
use rgb_lightning_sample::assets::{AssetBalance, IssueAsset, SendAsset};
use rgb_lightning_sample::closing::ChannelOfPeer;
use rgb_lightning_sample::hex_utils::hex_str;
use rgb_lightning_sample::invoices::{ClaimFunds, InvoiceQuery, NewHodlInvoice, NewInvoice};
use rgb_lightning_sample::messages::{OnionMessage, SignMessage};
use rgb_lightning_sample::onchain::MineBlocks;
use rgb_lightning_sample::opening::OpenResolve;
use rgb_lightning_sample::paying::{InvoiceAsset, Keysend};
use rgb_lightning_sample::peers::{ConnectResolve, PeerKey};
use rgb_lightning_sample::request::{find_command, handle_request, Command};
use rgb_lightning_sample::step::{Reply, Settings, Step};
use rgb_lightning_sample::types::{Currency, InvoiceData, Network};

const KEY: &str = "0279be667ef9dcbbac55a06295ce870b07029bfcdb2dce28d959f2815b16f81798";
const OTHER: &str = "02c6047f9441ed7d6d3045406e95c07cd85c778e4b8cef3ca7abac09b95c709ee5";

fn settings(network: Network) -> Settings {
    Settings {
        network,
        ldk_data_dir: "/tmp/ldk".to_string(),
        proxy_url: "http://127.0.0.1:3000/json-rpc".to_string(),
        utxo_size_sat: 32000,
        no_available_utxos: "no utxo".to_string(),
        package_name: "node".to_string(),
        package_version: "1.2.3".to_string(),
    }
}

fn handle(line: &str) -> Step {
    handle_request(line, &settings(Network::Regtest))
}

fn answered(response: &str) -> Step {
    shown("", response)
}

fn shown(printed: &str, response: &str) -> Step {
    Step::Reply(Reply { printed: printed.to_string(), response: response.to_string() })
}

fn bytes(text: &str) -> [u8; 33] {
    hex::decode(text).unwrap().try_into().unwrap()
}

fn contract(n: u8) -> String {
    rgb::ContractId::from_inner(bitcoin::hashes::Hash::from_inner([n; 32])).to_string()
}

fn invoice(amount: Option<u64>) -> String {
    let secp = bitcoin::secp256k1::Secp256k1::new();
    let secret = bitcoin::secp256k1::SecretKey::from_slice(&[0x41; 32]).unwrap();
    let hash: bitcoin::hashes::sha256::Hash = bitcoin::hashes::Hash::from_inner([7; 32]);
    let builder = lightning_invoice::InvoiceBuilder::new(lightning_invoice::Currency::Regtest)
        .description("coins".to_string())
        .payment_hash(hash)
        .payment_secret(lightning::ln::PaymentSecret([9; 32]))
        .duration_since_epoch(std::time::Duration::from_secs(1_600_000_000))
        .min_final_cltv_expiry_delta(144);
    let builder = match amount {
        Some(n) => builder.amount_milli_satoshis(n),
        None => builder,
    };
    builder.build_signed(|m| secp.sign_ecdsa_recoverable(m, &secret)).unwrap().to_string()
}

fn payee() -> [u8; 33] {
    let secp = bitcoin::secp256k1::Secp256k1::new();
    let secret = bitcoin::secp256k1::SecretKey::from_slice(&[0x41; 32]).unwrap();
    bitcoin::secp256k1::PublicKey::from_secret_key(&secp, &secret).serialize()
}

#[test]
fn every_command_has_its_word() {
    let commands = [
        ("help", Command::Help),
        ("mine", Command::Mine),
        ("listunspent", Command::ListUnspent),
        ("getaddress", Command::GetAddress),
        ("createutxos", Command::CreateUtxos),
        ("issueasset", Command::IssueAsset),
        ("assetbalance", Command::AssetBalance),
        ("sendasset", Command::SendAsset),
        ("receiveasset", Command::ReceiveAsset),
        ("refresh", Command::Refresh),
        ("openchannel", Command::OpenChannel),
        ("sendpayment", Command::SendPayment),
        ("keysend", Command::Keysend),
        ("getinvoice", Command::GetInvoice),
        ("generatetestpreimage", Command::GenerateTestPreimage),
        ("settlehodlinvoice", Command::SettleHodlInvoice),
        ("gethodlinvoice", Command::GetHodlInvoice),
        ("connectpeer", Command::ConnectPeer),
        ("disconnectpeer", Command::DisconnectPeer),
        ("listchannels", Command::ListChannels),
        ("listpayments", Command::ListPayments),
        ("invoicestatus", Command::InvoiceStatus),
        ("closechannel", Command::CloseChannel),
        ("forceclosechannel", Command::ForceCloseChannel),
        ("nodeinfo", Command::NodeInfo),
        ("listpeers", Command::ListPeers),
        ("signmessage", Command::SignMessage),
        ("sendonionmessage", Command::SendOnionMessage),
        ("quit", Command::Quit),
        ("exit", Command::Quit),
        ("Quit", Command::Unknown),
        ("", Command::Unknown),
    ];
    for (word, command) in commands {
        assert_eq!(find_command(word), command);
    }
}

#[test]
fn commands_without_words() {
    assert_eq!(handle("listunspent\n"), Step::ListUnspent);
    assert_eq!(handle("getaddress"), Step::GetAddress);
    assert_eq!(handle("createutxos"), Step::ReadFunds);
    assert_eq!(handle("receiveasset"), Step::ReceiveAsset);
    assert_eq!(handle("refresh"), Step::RefreshNext);
    assert_eq!(handle("listchannels"), Step::ListChannels);
    assert_eq!(handle("listpayments"), Step::ListPayments);
    assert_eq!(handle("nodeinfo"), Step::NodeInfo);
    assert_eq!(handle(" listpeers and more"), Step::ListPeers);
}

#[test]
fn the_dialogue_ends_on_quit_and_exit() {
    assert_eq!(handle("quit\n"), answered("quitting"));
    assert_eq!(handle("\texit please"), answered("quitting"));
}

#[test]
fn lines_that_ask_for_nothing() {
    let none = "No command entered. See `\"help\" for available commands.";
    assert_eq!(handle(""), answered(none));
    assert_eq!(handle(" \t\r\n"), answered(none));
    let unknown = "Unknown command. See `\"help\" for available commands.";
    assert_eq!(handle("quitt"), answered(unknown));
    assert_eq!(handle("QUIT"), answered(unknown));
}

#[test]
fn help_is_shown() {
    let lines = [
        "\nVERSION:",
        "  node v1.2.3",
        "\nUSAGE:",
        "  Command [arguments]",
        "\nCOMMANDS:",
        "  help\tShows a list of commands.",
        "  quit\tClose the application.",
        "\n  Channels:",
        "      openchannel pubkey@host:port <chan_amt_satoshis> <push_amt_msatoshis> <rgb_contract_id> <chan_amt_rgb> [--public]",
        "      closechannel <channel_id> <peer_pubkey>",
        "      forceclosechannel <channel_id> <peer_pubkey>",
        "      listchannels",
        "\n  Peers:",
        "      connectpeer pubkey@host:port",
        "      disconnectpeer <peer_pubkey>",
        "      listpeers",
        "\n  Payments:",
        "      sendpayment <invoice>",
        "      keysend <dest_pubkey> <amt_msats> <rgb_contract_id> <amt_rgb>",
        "      listpayments",
        "\n  Invoices:",
        "      getinvoice <amt_msats> <expiry_secs> <rgb_contract_id> <amt_rgb>",
        "      invoicestatus <invoice>",
        "\n  Onchain:",
        "      getaddress",
        "      listunspent",
        "\n  RGB:",
        "      createutxos",
        "      issueasset <supply> <ticker> <name> <precision>",
        "      assetbalance <contract_id>",
        "      sendasset <rgb_contract_id> <amt_rgb>",
        "      receiveasset",
        "      refresh",
        "\n  Other:",
        "      mine <num_blocks>",
        "      signmessage <message>",
        "      sendonionmessage <node_id_1,node_id_2,..,destination_node_id> <type> <hex_bytes>",
        "      nodeinfo",
    ];
    let printed: String = lines.iter().map(|l| format!("{}\n", l)).collect();
    assert_eq!(handle("help"), shown(&printed, "help"));
}

#[test]
fn only_the_words_of_a_line_matter() {
    assert_eq!(handle("  mine\t 6 \r\n"), handle("mine 6"));
    assert_eq!(handle("\u{a0}issueasset 1 A B 0\n"), handle("issueasset 1 A B 0"));
    assert_ne!(handle("signmessage  x"), handle("signmessage x"));
}

#[test]
fn mining() {
    let elsewhere = answered("ERROR: mine command is available only on regtest");
    for network in [Network::Bitcoin, Network::Testnet, Network::Signet] {
        assert_eq!(handle_request("mine 6", &settings(network)), elsewhere);
    }
    assert_eq!(
        handle("mine"),
        answered("ERROR: mine has 1 required argument: `mine num_blocks`")
    );
    assert_eq!(handle("mine x"), answered("ERROR: num_blocks must be a number"));
    assert_eq!(handle("mine 65536"), answered("ERROR: num_blocks must be a number"));
    assert_eq!(handle("mine 65535"), Step::MineBlocks(MineBlocks { num_blocks: 65535 }));
}

#[test]
fn issuing_an_asset() {
    let usage = answered("ERROR: issueasset has 4 required arguments: `issueasset <amount> <ticker> <name> <precision>`");
    assert_eq!(handle("issueasset"), usage);
    assert_eq!(handle("issueasset 1000 USDT Tether"), usage);
    assert_eq!(handle("issueasset x USDT Tether 0"), answered("ERROR: amount must be a number"));
    assert_eq!(
        handle("issueasset 1 US\u{d0} Tether 0"),
        answered("ERROR: ticker must be an ASCII string")
    );
    assert_eq!(
        handle("issueasset 1 USDT T\u{e9}ther 0"),
        answered("ERROR: name must be an ASCII string")
    );
    assert_eq!(
        handle("issueasset 1 USDT Tether 256"),
        answered("ERROR: precision must be a number")
    );
    let long = "T".repeat(70000);
    assert!(matches!(
        handle(&format!("issueasset 1 {} {} 0", long, long)),
        Step::IssueAsset(i) if i.ticker == long && i.name == long
    ));
    assert_eq!(
        handle("issueasset 1000 USDT Tether 255"),
        Step::IssueAsset(IssueAsset {
            amount: 1000,
            ticker: "USDT".to_string(),
            name: "Tether".to_string(),
            precision: 255,
        })
    );
}

#[test]
fn counting_an_asset() {
    assert_eq!(
        handle("assetbalance"),
        answered("ERROR: assetbalance has 1 required argument: ``assetbalance <contract_id>``")
    );
    assert_eq!(
        handle("assetbalance rgb1xyz"),
        answered("ERROR: contract_id must be a valid RGB asset ID")
    );
    assert_eq!(
        handle(&format!("assetbalance {}", contract(5))),
        Step::AssetBalance(AssetBalance { contract_id: [5; 32] })
    );
}

#[test]
fn sending_an_asset() {
    let usage = answered("ERROR: sendasset has 3 required arguments: ``sendasset <contract_id> <amt_rgb> <blinded_utxo>``");
    assert_eq!(handle(&format!("sendasset {} 7", contract(5))), usage);
    assert_eq!(
        handle("sendasset x 7 y"),
        answered("ERROR: contract_id must be a valid RGB asset ID")
    );
    assert_eq!(
        handle(&format!("sendasset {} 7x y", contract(5))),
        answered("ERROR: couldn't parse amt_rgb: invalid digit found in string")
    );
    assert_eq!(
        handle(&format!("sendasset {} 7 y", contract(5))),
        Step::SendTotal(SendAsset {
            contract_id: [5; 32],
            amt_rgb: 7,
            blinded_utxo: "y".to_string(),
        })
    );
}

#[test]
fn opening_a_channel() {
    let usage = answered("ERROR: openchannel has 5 required arguments: `openchannel pubkey@host:port chan_amt_satoshis push_amt_msatoshis rgb_contract_id chan_amt_rgb` [--public]");
    assert_eq!(handle("openchannel a@b 1 2 3"), usage);
    assert_eq!(
        handle("openchannel ab 1 2 3 4"),
        answered("\"ERROR: incorrectly formatted peer info. Should be formatted as: `pubkey@host:port`\"")
    );
    let open = |public: Option<&str>| {
        Step::OpenResolve(OpenResolve {
            peer_info: "a@b:1".to_string(),
            host: "b:1".to_string(),
            channel_value_sat: "1".to_string(),
            push_value_msat: "2".to_string(),
            contract_id: "3".to_string(),
            channel_value_rgb: "4".to_string(),
            public: public.map(|p| p.to_string()),
        })
    };
    assert_eq!(handle("openchannel a@b:1 1 2 3 4"), open(None));
    assert_eq!(handle("openchannel a@b:1 1 2 3 4 --public x"), open(Some("--public")));
}

#[test]
fn paying_an_invoice() {
    assert_eq!(
        handle("sendpayment"),
        answered("ERROR: sendpayment requires an invoice: `sendpayment <invoice>`")
    );
    let fault = "lnbc".parse::<lightning_invoice::Invoice>().unwrap_err();
    assert_eq!(
        handle("sendpayment lnbc"),
        answered(&format!("ERROR: invalid invoice: {:?}", fault))
    );
    assert_eq!(
        handle(&format!("sendpayment {}", invoice(None))),
        answered("ERROR: msat amount missing in invoice")
    );
    assert_eq!(
        handle(&format!("sendpayment {}", invoice(Some(2999999)))),
        answered("ERROR: msat amount in invoice cannot be less than 3000000")
    );
    let text = invoice(Some(3000000));
    assert_eq!(
        handle(&format!("sendpayment {}", text)),
        Step::InvoiceAsset(InvoiceAsset {
            invoice: InvoiceData {
                text,
                amount_msat: Some(3000000),
                payment_hash: [7; 32],
                payment_secret: [9; 32],
                payee: payee(),
            },
            amt_msat: 3000000,
        })
    );
}

/// An invoice over the given amount in bitcoins, with its fields changed and signed
/// with the given key.
fn changed_invoice(
    btc: u64,
    key: [u8; 32],
    change: fn(&mut Vec<lightning_invoice::RawTaggedField>),
) -> String {
    let secp = bitcoin::secp256k1::Secp256k1::new();
    let secret = bitcoin::secp256k1::SecretKey::from_slice(&key).unwrap();
    let read: lightning_invoice::Invoice = invoice(Some(3000000)).parse().unwrap();
    let (mut raw, _, _) = read.into_signed_raw().into_parts();
    raw.hrp.raw_amount = Some(btc);
    raw.hrp.si_prefix = None;
    change(&mut raw.data.tagged_fields);
    raw.sign(|m| Ok::<_, ()>(secp.sign_ecdsa_recoverable(m, &secret))).unwrap().to_string()
}

fn keep(_fields: &mut Vec<lightning_invoice::RawTaggedField>) {}

fn drop_secret(fields: &mut Vec<lightning_invoice::RawTaggedField>) {
    fields.retain(|f| {
        !matches!(
            f,
            lightning_invoice::RawTaggedField::KnownSemantics(
                lightning_invoice::TaggedField::PaymentSecret(_)
            )
        )
    });
}

fn drop_features(fields: &mut Vec<lightning_invoice::RawTaggedField>) {
    fields.retain(|f| {
        !matches!(
            f,
            lightning_invoice::RawTaggedField::KnownSemantics(
                lightning_invoice::TaggedField::Features(_)
            )
        )
    });
}

fn name_payee(fields: &mut Vec<lightning_invoice::RawTaggedField>) {
    let key = bitcoin::secp256k1::PublicKey::from_slice(&payee()).unwrap();
    fields.push(lightning_invoice::RawTaggedField::KnownSemantics(
        lightning_invoice::TaggedField::PayeePubKey(lightning_invoice::PayeePubKey(key)),
    ));
}

#[test]
fn an_invoice_over_too_much_is_not_read() {
    let overflow = Step::Abort("attempt to multiply with overflow".to_string());
    for signed in [changed_invoice(18446745, [0x41; 32], keep), changed_invoice(18446745, [0x41; 32], name_payee)] {
        assert_eq!(handle(&format!("sendpayment {}", signed)), overflow);
        assert_eq!(handle(&format!("invoicestatus {}", signed)), overflow);
    }
    let counted = changed_invoice(18446744, [0x41; 32], keep);
    assert!(matches!(handle(&format!("sendpayment {}", counted)), Step::InvoiceAsset(_)));
}

#[test]
fn other_faults_of_an_invoice_come_before_its_amount() {
    let cases: [(fn(&mut Vec<lightning_invoice::RawTaggedField>), [u8; 32], &str); 4] = [
        (drop_secret, [0x41; 32], "SemanticError(NoPaymentSecret)"),
        (drop_features, [0x41; 32], "SemanticError(InvalidFeatures)"),
        (drop_secret, [0x42; 32], "SemanticError(NoPaymentSecret)"),
        (name_payee, [0x42; 32], "SemanticError(InvalidSignature)"),
    ];
    for (change, key, fault) in cases {
        let reply = answered(&format!("ERROR: invalid invoice: {}", fault));
        for btc in [1, 18446745] {
            let signed = changed_invoice(btc, key, change);
            assert_eq!(handle(&format!("sendpayment {}", signed)), reply);
            assert_eq!(handle(&format!("invoicestatus {}", signed)), reply);
        }
    }
}

#[test]
fn paying_without_an_invoice() {
    let usage = "`keysend <dest_pubkey> <amt_msat> <contract_id> <amt_rgb>`";
    let c = contract(5);
    let cases = [
        ("keysend".to_string(), format!("ERROR: keysend requires a destination pubkey: {}", usage)),
        ("keysend 02".to_string(), "ERROR: couldn't parse destination pubkey".to_string()),
        (
            format!("keysend {}", KEY),
            format!("ERROR: keysend requires an amount in millisatoshis: {}", usage),
        ),
        (
            format!("keysend {} -1", KEY),
            "ERROR: couldn't parse amount_msat: invalid digit found in string".to_string(),
        ),
        (
            format!("keysend {} 2999999", KEY),
            "ERROR: amount_msat cannot be less than 3000000".to_string(),
        ),
        (
            format!("keysend {} 3000000", KEY),
            format!("ERROR: keysend requires a contract ID: {}", usage),
        ),
        (
            format!("keysend {} 3000000 rgb", KEY),
            "ERROR: invalid contract ID: rgb".to_string(),
        ),
        (
            format!("keysend {} 3000000 {}", KEY, c),
            format!("ERROR: keysend requires an RGB amount: {}", usage),
        ),
        (
            format!("keysend {} 3000000 {} 18446744073709551616", KEY, c),
            "ERROR: couldn't parse amt_rgb: number too large to fit in target type".to_string(),
        ),
    ];
    for (line, response) in cases {
        assert_eq!(handle(&line), answered(&response));
    }
    assert_eq!(
        handle(&format!("keysend {} 3000000 {} 4", KEY, c)),
        Step::KeysendEntropy(Keysend {
            payee: bytes(KEY),
            amt_msat: 3000000,
            contract_id: [5; 32],
            amt_rgb: 4,
        })
    );
}

#[test]
fn asking_for_an_invoice() {
    let c = contract(5);
    let h = "ab".repeat(32);
    assert_eq!(
        handle(&format!("getinvoice 3000000 900 {}", c)),
        answered("ERROR: getinvoice has 4 required arguments: `getinvoice <amt_msats> <expiry_secs> <rgb_contract_id> <amt_rgb>`")
    );
    assert_eq!(
        handle(&format!("gethodlinvoice 3000000 900 {} 4", c)),
        answered("ERROR: getinvoice has 5 required arguments: `gethodlinvoice <amt_msats> <expiry_secs> <rgb_contract_id> <amt_rgb> <payment_hash>`")
    );
    let cases = [
        (format!("x 900 {} 4", c), "ERROR: getinvoice provided payment amount was not a number"),
        (format!("2999999 900 {} 4", c), "ERROR: amt_msat cannot be less than 3000000"),
        (
            format!("3000000 4294967296 {} 4", c),
            "ERROR: getinvoice provided expiry was not a number",
        ),
        ("3000000 900 rgb 4".to_string(), "ERROR: invalid contract ID: rgb"),
        (
            format!("3000000 900 {} +", c),
            "ERROR: couldn't parse amt_rgb: invalid digit found in string",
        ),
    ];
    for (words, response) in cases {
        assert_eq!(handle(&format!("getinvoice {}", words)), answered(response));
        assert_eq!(handle(&format!("gethodlinvoice {} {}", words, h)), answered(response));
    }
    let asked = |currency: Currency| NewInvoice {
        amt_msat: 3000000,
        currency,
        description: "ldk-tutorial-node".to_string(),
        expiry_secs: 900,
        contract_id: [5; 32],
        amt_rgb: 4,
    };
    for (network, currency) in [
        (Network::Bitcoin, Currency::Bitcoin),
        (Network::Testnet, Currency::BitcoinTestnet),
        (Network::Regtest, Currency::Regtest),
        (Network::Signet, Currency::Signet),
    ] {
        assert_eq!(
            handle_request(&format!("getinvoice 3000000 900 {} 4", c), &settings(network)),
            Step::CreateInvoice(asked(currency))
        );
        assert_eq!(
            handle_request(&format!("gethodlinvoice 3000000 900 {} 4 {}", c, h), &settings(network)),
            Step::CreateHodlInvoice(NewHodlInvoice {
                invoice: asked(currency),
                payment_hash: [0xab; 32],
            })
        );
    }
    for bad in ["ab", "zz", &h[1..], &format!("{}00", h)] {
        assert_eq!(
            handle(&format!("gethodlinvoice 3000000 900 {} 4 {}", c, bad)),
            Step::Abort("payment hash string slice has incorrect length".to_string())
        );
    }
}

#[test]
fn settling_a_held_invoice() {
    assert_eq!(
        handle("settlehodlinvoice"),
        answered("ERROR: getinvoice has 1 required arguments: `settlehodlinvoice <preimage>`")
    );
    assert_eq!(
        handle(&format!("settlehodlinvoice {}", "0C".repeat(32))),
        Step::ClaimFunds(ClaimFunds { preimage: [12; 32] })
    );
    for bad in ["0c", "x", &"0c".repeat(33)] {
        assert_eq!(
            handle(&format!("settlehodlinvoice {}", bad)),
            Step::Abort("preimage string slice has incorrect length".to_string())
        );
    }
}

#[test]
fn a_test_preimage_can_be_settled() {
    let response = match handle("generatetestpreimage") {
        Step::Reply(r) => {
            assert_eq!(r.printed, "");
            r.response
        }
        other => panic!("{:?}", other),
    };
    let lines: Vec<&str> = response.split(" \n").collect();
    assert_eq!(lines[0], "This is a preimage / payment hash pair for testing:");
    assert!(lines[1].starts_with("TestPreimageData { payment_preimage: PaymentPreimage(["));
    let preimage = lines[2].strip_prefix("Preimage: ").unwrap();
    let hash = lines[3].strip_prefix("Payment hash: ").unwrap();
    let bytes: [u8; 32] = hex::decode(preimage).unwrap().try_into().unwrap();
    let digest: bitcoin::hashes::sha256::Hash = bitcoin::hashes::Hash::hash(&bytes);
    assert_eq!(hex_str(&bitcoin::hashes::Hash::into_inner(digest)), hash);
    assert_eq!(
        handle(&format!("settlehodlinvoice {}", preimage)),
        Step::ClaimFunds(ClaimFunds { preimage: bytes })
    );
    assert_ne!(handle("generatetestpreimage"), answered(&response));
}

#[test]
fn asking_for_the_status_of_an_invoice() {
    assert_eq!(
        handle("invoicestatus"),
        answered("ERROR: invoicestatus requires an invoice: `invoicestatus <invoice>`")
    );
    assert!(matches!(
        handle("invoicestatus x"),
        Step::Reply(r) if r.response.starts_with("ERROR: invalid invoice: ")
    ));
    let text = invoice(None);
    assert_eq!(
        handle(&format!("invoicestatus {}", text)),
        Step::InvoiceStatus(InvoiceQuery {
            invoice: InvoiceData {
                text,
                amount_msat: None,
                payment_hash: [7; 32],
                payment_secret: [9; 32],
                payee: payee(),
            }
        })
    );
}

#[test]
fn connecting_to_a_peer() {
    assert_eq!(
        handle("connectpeer"),
        answered("ERROR: connectpeer requires peer connection info: `connectpeer pubkey@host:port`")
    );
    assert_eq!(
        handle("connectpeer 02"),
        answered("\"ERROR: incorrectly formatted peer info. Should be formatted as: `pubkey@host:port`\"")
    );
    assert_eq!(
        handle("connectpeer 02@[::1]:9735@x"),
        Step::ConnectResolve(ConnectResolve {
            peer_info: "02@[::1]:9735@x".to_string(),
            host: "[::1]:9735".to_string(),
        })
    );
}

#[test]
fn disconnecting_from_a_peer() {
    assert_eq!(
        handle("disconnectpeer"),
        answered("ERROR: disconnectpeer requires peer public key: `disconnectpeer <peer_pubkey>`")
    );
    for bad in ["02", "x", &KEY[1..], &format!("{}0", KEY), &format!("05{}", &KEY[2..])] {
        assert_eq!(
            handle(&format!("disconnectpeer {}", bad)),
            answered("ERROR: couldn't parse peer pubkey: malformed public key")
        );
    }
    assert_eq!(
        handle(&format!("disconnectpeer {}", KEY)),
        Step::DisconnectPeer(PeerKey { pubkey: bytes(KEY) })
    );
}

#[test]
fn closing_a_channel() {
    let id = "0c".repeat(32);
    let named = ChannelOfPeer { channel_id: [12; 32], peer: bytes(KEY) };
    for command in ["closechannel", "forceclosechannel"] {
        assert_eq!(
            handle(command),
            answered(&format!("ERROR: {} requires a channel ID: `{} <channel_id> <peer_pubkey>`", command, command))
        );
        for bad in ["0c", "x", &"0c".repeat(33)] {
            assert_eq!(
                handle(&format!("{} {}", command, bad)),
                answered("ERROR: couldn't parse channel_id")
            );
        }
        assert_eq!(
            handle(&format!("{} {}", command, id)),
            answered(&format!("ERROR: {} requires a peer pubkey: `{} <channel_id> <peer_pubkey>`", command, command))
        );
        for bad in ["x", "02"] {
            assert_eq!(
                handle(&format!("{} {} {}", command, id, bad)),
                answered("ERROR: couldn't parse peer_pubkey")
            );
        }
    }
    assert_eq!(handle(&format!("closechannel {} {}", id, KEY)), Step::CloseChannel(named));
    assert_eq!(
        handle(&format!("forceclosechannel {} {}", id, KEY)),
        Step::ForceCloseChannel(named)
    );
}

#[test]
fn signing_a_message() {
    let usage = shown(
        "ERROR: signmessage requires a message\n",
        "ERROR: signmessage requires a message",
    );
    assert_eq!(handle("signmessage"), usage);
    assert_eq!(handle("signmessage "), usage);
    let sign = |m: &[u8]| Step::SignMessage(SignMessage { message: m.to_vec() });
    assert_eq!(handle("signmessage a b\n"), sign(b"a b\n"));
    assert_eq!(handle("  signmessage x"), sign(b"e x"));
    assert_eq!(handle("signmessage \u{e9}"), sign("\u{e9}".as_bytes()));
    assert_eq!(handle("signmessage\u{3000}x"), sign(&[0x80, 0x80, b'x']));
}

#[test]
fn sending_an_onion_message() {
    let usage = "ERROR: sendonionmessage requires at least one node id for the path";
    assert_eq!(handle("sendonionmessage"), shown(&format!("{}\n", usage), usage));
    let both = format!("{},{}", OTHER, KEY);
    for bad in ["02", &format!("{},", KEY), &format!("{},x", KEY)] {
        assert_eq!(
            handle(&format!("sendonionmessage {} 64 00", bad)),
            shown("ERROR: couldn't parse peer_pubkey\n", "")
        );
    }
    for words in ["", " 63 00", " x 00"] {
        assert_eq!(
            handle(&format!("sendonionmessage {}{}", both, words)),
            answered("ERROR: need an integral message type above 64")
        );
    }
    for words in [" 64", " 64 0g"] {
        assert_eq!(
            handle(&format!("sendonionmessage {}{}", both, words)),
            answered("ERROR: need a hex data string")
        );
    }
    assert_eq!(
        handle(&format!("sendonionmessage {} 64 0aFF", both)),
        Step::SendOnionMessage(OnionMessage {
            path: vec![bytes(OTHER)],
            destination: bytes(KEY),
            tlv_type: 64,
            data: vec![10, 255],
        })
    );
}
