use regtest_harness::document::Document;
use regtest_harness::error::HarnessError;
use regtest_harness::error::InfoField;
use regtest_harness::visualization::dot::DOT_LEGEND;
use regtest_harness::visualization::dot::DOT_PREAMBLE;
use regtest_harness::visualization::snapshot::aggregate_capacity;
use regtest_harness::visualization::ChannelSnapshot;
use regtest_harness::visualization::Funds;
use regtest_harness::visualization::NetworkGraph;
use regtest_harness::visualization::NodeInfo;

fn text(s: &str) -> Document {
    Document::Text(s.to_string())
}

fn record(members: Vec<(&str, Document)>) -> Document {
    Document::Record(members.into_iter().map(|(k, v)| (k.to_string(), v)).collect())
}

fn info(id: &str, alias: &str) -> Document {
    record(vec![
        ("method", text("getinfo")),
        ("result", record(vec![("id", text(id)), ("alias", text(alias)), ("blockheight", Document::Other)])),
    ])
}

fn entry(peer: &str, amount: &str) -> Document {
    record(vec![
        ("peer_id", text(peer)),
        ("connected", Document::Other),
        ("state", text("CHANNELD_NORMAL")),
        ("amount_msat", text(amount)),
    ])
}

fn funds(entries: Vec<Document>) -> Document {
    record(vec![
        ("method", text("listfunds")),
        ("result", record(vec![("outputs", Document::List(vec![])), ("channels", Document::List(entries))])),
    ])
}

fn no_funds() -> Document {
    record(vec![("method", text("listfunds")), ("result", record(vec![]))])
}

fn channel(peer: &str, amount: &str) -> ChannelSnapshot {
    ChannelSnapshot {
        peer_id: Some(peer.to_string()),
        amount_msat: Some(amount.to_string()),
        state: Some("CHANNELD_NORMAL".to_string()),
    }
}

fn expected_preamble() -> String {
    let mut dot = String::from("digraph {\n");
    dot.push_str("    rankdir=LR;\n");
    dot.push_str("    splines=curved;\n");
    dot.push_str("    bgcolor=\"#ffffff\";\n");
    dot.push_str("    node [\n");
    dot.push_str("        style=\"filled\",\n");
    dot.push_str("        gradientangle=270,\n");
    dot.push_str("        fillcolor=\"#88c0d0:#5e81ac\",\n");
    dot.push_str("        shape=\"box\",\n");
    dot.push_str("        rounded=true,\n");
    dot.push_str("        fontname=\"Arial\",\n");
    dot.push_str("        fontsize=12\n");
    dot.push_str("    ];\n");
    dot.push_str("    edge [\n");
    dot.push_str("        color=\"#a3be8c\",\n");
    dot.push_str("        penwidth=2.0,\n");
    dot.push_str("        arrowsize=0.8\n");
    dot.push_str("    ];\n");
    dot
}

fn expected_legend() -> String {
    let mut dot = String::from("\n    subgraph cluster_legend {\n");
    dot.push_str("        label=\"Légende\";\n");
    dot.push_str("        node [shape=none];\n");
    dot.push_str("        legend [label=<\n");
    dot.push_str("            <table border=\"0\">\n");
    dot.push_str("                <tr><td>Nœud actif</td></tr>\n");
    dot.push_str("                <tr><td>Canal ouvert</td></tr>\n");
    dot.push_str("            </table>\n");
    dot.push_str("        >];\n");
    dot.push_str("    }\n");
    dot.push_str("}\n");
    dot
}

#[test]
fn new_graph_is_empty() {
    let g = NetworkGraph::new();
    assert_eq!(g.node_count(), 0);
    assert_eq!(g.edge_count(), 0);
    assert_eq!(g.handle("A"), None);
    assert_eq!(g.label(0), None);
    assert_eq!(g.endpoints(0), None);
}

#[test]
fn add_node_twice_gives_the_same_handle() {
    let mut g = NetworkGraph::new();
    let first = g.add_node("A", "alice");
    let second = g.add_node("A", "bob");
    assert_eq!(first, second);
    assert_eq!(g.node_count(), 1);
    assert_eq!(g.label(first), Some("alice\n(A)\nCapacité: 0 sats\nÉtat: unknown".to_string()));
}

#[test]
fn add_node_numbers_nodes_in_order() {
    let mut g = NetworkGraph::new();
    assert_eq!(g.add_node("A", "alice"), 0);
    assert_eq!(g.add_node("B", "bob"), 1);
    assert_eq!(g.add_node("A", "again"), 0);
    assert_eq!(g.add_node("C", "carol"), 2);
    assert_eq!(g.node_count(), 3);
    assert_eq!(g.handle("B"), Some(1));
}

#[test]
fn node_label_truncates_the_identity() {
    let mut g = NetworkGraph::new();
    let h = g.add_node("0218845781f631c48f1c9709e23092067d06837f30aa0cd0544ac887fe91ddd166", "alice");
    assert_eq!(
        g.label(h),
        Some("alice\n(02188457)\nCapacité: 0 sats\nÉtat: unknown".to_string())
    );
}

#[test]
fn add_channel_between_known_nodes_adds_an_edge() {
    let mut g = NetworkGraph::new();
    let a = g.add_node("A", "alice");
    let b = g.add_node("B", "bob");
    g.add_channel("A", "B", "5000");
    assert_eq!(g.edge_count(), 1);
    assert_eq!(g.endpoints(0), Some((a, b)));
    g.add_channel("B", "A", "7");
    g.add_channel("A", "B", "5000");
    assert_eq!(g.edge_count(), 3);
    assert_eq!(g.endpoints(1), Some((b, a)));
    assert_eq!(g.endpoints(2), Some((a, b)));
    assert_eq!(g.endpoints(3), None);
}

#[test]
fn add_channel_with_an_unknown_end_changes_nothing() {
    let mut g = NetworkGraph::new();
    g.add_node("A", "alice");
    g.add_channel("A", "B", "5000");
    assert_eq!(g.edge_count(), 0);
    g.add_channel("B", "A", "5000");
    assert_eq!(g.edge_count(), 0);
    g.add_channel("X", "Y", "5000");
    assert_eq!(g.edge_count(), 0);
    assert_eq!(g.node_count(), 1);
    g.add_node("B", "bob");
    g.add_channel("A", "B", "5000");
    assert_eq!(g.edge_count(), 1);
    g.add_channel("A", "C", "5000");
    assert_eq!(g.edge_count(), 1);
}

#[test]
fn add_channel_to_itself_is_an_edge() {
    let mut g = NetworkGraph::new();
    let a = g.add_node("A", "alice");
    g.add_channel("A", "A", "1");
    assert_eq!(g.endpoints(0), Some((a, a)));
}

#[test]
fn update_with_one_channel_links_two_peers() {
    let mut g = NetworkGraph::new();
    let funds = funds(vec![entry("B", "5000")]);
    assert_eq!(g.update_from_node_info(&info("A", "alice"), &funds), Ok(()));
    assert_eq!(g.node_count(), 2);
    assert_eq!(g.edge_count(), 1);
    let a = g.handle("A").unwrap();
    let b = g.handle("B").unwrap();
    assert_eq!(g.endpoints(0), Some((a, b)));
    assert_eq!(g.capacity("A"), 5000);
    assert_eq!(g.state("A"), "active");
    assert_eq!(g.label(a), Some("alice\n(A)\nCapacité: 5000 sats\nÉtat: active".to_string()));
    assert_eq!(g.label(b), Some("Unknown\n(B)\nCapacité: 0 sats\nÉtat: unknown".to_string()));
    assert_eq!(g.capacity("B"), 0);
    assert_eq!(g.state("B"), "unknown");
}

#[test]
fn update_sums_all_amounts() {
    let mut g = NetworkGraph::new();
    let funds = funds(vec![entry("B", "5000"), entry("C", "250"), entry("B", "1")]);
    assert_eq!(g.update_from_node_info(&info("A", "alice"), &funds), Ok(()));
    assert_eq!(g.capacity("A"), 5251);
    assert_eq!(g.node_count(), 3);
    assert_eq!(g.edge_count(), 3);
    assert_eq!(Funds::from_document(&funds).total(), Some(5251));
}

#[test]
fn update_skips_amounts_that_are_no_numbers() {
    let mut g = NetworkGraph::new();
    let nameless = record(vec![("amount_msat", text("40"))]);
    let amountless = record(vec![("peer_id", text("D")), ("amount_msat", Document::Other)]);
    let funds = funds(vec![entry("B", "5000msat"), entry("C", "10"), nameless, amountless]);
    assert_eq!(g.update_from_node_info(&info("A", "alice"), &funds), Ok(()));
    assert_eq!(g.capacity("A"), 50);
    assert_eq!(g.node_count(), 3);
    assert_eq!(g.edge_count(), 2);
    assert_eq!(g.handle("D"), None);
    assert_eq!(g.endpoints(0), Some((0, 1)));
    assert_eq!(g.endpoints(1), Some((0, 2)));
}

#[test]
fn update_without_channel_list_records_nothing() {
    let mut g = NetworkGraph::new();
    assert_eq!(g.update_from_node_info(&info("A", "alice"), &Document::Other), Ok(()));
    assert_eq!(g.update_from_node_info(&info("A", "alice"), &no_funds()), Ok(()));
    let funds = Funds::from_document(&no_funds());
    assert_eq!(funds, Funds { channels: None });
    assert_eq!(g.node_count(), 1);
    assert_eq!(g.edge_count(), 0);
    assert_eq!(g.capacity("A"), 0);
    assert_eq!(g.state("A"), "unknown");
    assert_eq!(g.label(0), Some("alice\n(A)\nCapacité: 0 sats\nÉtat: unknown".to_string()));
    assert_eq!(funds.total(), Some(0));
}

#[test]
fn second_update_without_channel_list_keeps_the_record() {
    let mut g = NetworkGraph::new();
    assert_eq!(g.update_from_node_info(&info("A", "alice"), &funds(vec![entry("B", "70")])), Ok(()));
    assert_eq!(g.update_from_node_info(&info("A", "alice"), &no_funds()), Ok(()));
    assert_eq!(g.capacity("A"), 70);
    assert_eq!(g.state("A"), "active");
    assert_eq!(g.node_count(), 2);
    assert_eq!(g.edge_count(), 1);
}

#[test]
fn snapshots_are_read_from_documents() {
    assert_eq!(
        NodeInfo::from_document(&info("A", "alice")),
        NodeInfo { id: Some("A".to_string()), alias: Some("alice".to_string()) }
    );
    assert_eq!(NodeInfo::from_document(&Document::Other), NodeInfo { id: None, alias: None });
    assert_eq!(ChannelSnapshot::from_document(&entry("B", "5000")), channel("B", "5000"));
    assert_eq!(
        ChannelSnapshot::from_document(&Document::Other),
        ChannelSnapshot { peer_id: None, amount_msat: None, state: None }
    );
    assert_eq!(
        Funds::from_document(&funds(vec![entry("B", "5000"), Document::Other])),
        Funds {
            channels: Some(vec![
                channel("B", "5000"),
                ChannelSnapshot { peer_id: None, amount_msat: None, state: None }
            ])
        }
    );
    let not_a_list = record(vec![("result", record(vec![("channels", text("none"))]))]);
    assert_eq!(Funds::from_document(&not_a_list), Funds { channels: None });
}

#[test]
fn update_with_empty_channel_list_marks_the_peer_active() {
    let mut g = NetworkGraph::new();
    let funds = funds(vec![]);
    assert_eq!(g.update_from_node_info(&info("A", "alice"), &funds), Ok(()));
    assert_eq!(g.capacity("A"), 0);
    assert_eq!(g.state("A"), "active");
    assert_eq!(g.label(0), Some("alice\n(A)\nCapacité: 0 sats\nÉtat: active".to_string()));
}

#[test]
fn update_without_identity_is_refused() {
    let mut g = NetworkGraph::new();
    g.add_node("A", "alice");
    let funds = funds(vec![entry("B", "5000")]);
    let nameless = record(vec![("result", record(vec![("alias", text("alice"))]))]);
    assert_eq!(
        g.update_from_node_info(&nameless, &funds),
        Err(HarnessError::MissingField(InfoField::Id))
    );
    let numbered = record(vec![("result", record(vec![("id", Document::Other), ("alias", text("a"))]))]);
    assert_eq!(
        g.update_from_node_info(&numbered, &funds),
        Err(HarnessError::MissingField(InfoField::Id))
    );
    assert_eq!(
        g.update_from_node_info(&Document::Other, &funds),
        Err(HarnessError::MissingField(InfoField::Id))
    );
    let unwrapped = record(vec![("id", text("A")), ("alias", text("alice"))]);
    assert_eq!(
        g.update_from_node_info(&unwrapped, &funds),
        Err(HarnessError::MissingField(InfoField::Id))
    );
    assert_eq!(g.node_count(), 1);
    assert_eq!(g.edge_count(), 0);
    assert_eq!(g.capacity("A"), 0);
}

#[test]
fn update_without_alias_is_refused() {
    let mut g = NetworkGraph::new();
    let funds = funds(vec![entry("B", "5000")]);
    let aliasless = record(vec![("result", record(vec![("id", text("A"))]))]);
    assert_eq!(
        g.update_from_node_info(&aliasless, &funds),
        Err(HarnessError::MissingField(InfoField::Alias))
    );
    assert_eq!(g.node_count(), 0);
    assert_eq!(g.edge_count(), 0);
    assert_eq!(g.capacity("A"), 0);
    assert_eq!(g.state("A"), "unknown");
}

#[test]
fn update_of_a_counterparty_keeps_its_node() {
    let mut g = NetworkGraph::new();
    let funds = funds(vec![entry("B", "5000")]);
    assert_eq!(g.update_from_node_info(&info("A", "alice"), &funds), Ok(()));
    let back = Funds { channels: Some(vec![channel("A", "5000")]) };
    let bob = NodeInfo { id: Some("B".to_string()), alias: Some("bob".to_string()) };
    assert_eq!(g.merge_snapshot(&bob, &back), Ok(()));
    assert_eq!(g.node_count(), 2);
    assert_eq!(g.edge_count(), 2);
    assert_eq!(g.endpoints(1), Some((1, 0)));
    assert_eq!(g.capacity("B"), 5000);
    assert_eq!(g.label(1), Some("Unknown\n(B)\nCapacité: 0 sats\nÉtat: unknown".to_string()));
}

#[test]
fn aggregate_capacity_reports_overflow() {
    let list = vec![channel("B", "18446744073709551615"), channel("C", "1")];
    assert_eq!(aggregate_capacity(&list), None);
    let fits = vec![channel("B", "18446744073709551614"), channel("C", "1")];
    assert_eq!(aggregate_capacity(&fits), Some(u64::MAX));
    assert_eq!(aggregate_capacity(&Vec::new()), Some(0));
}

#[test]
fn channel_amount_of_one_channel() {
    assert_eq!(channel("B", "12").amount(), 12);
    assert_eq!(channel("B", "twelve").amount(), 0);
    let none = ChannelSnapshot { peer_id: None, amount_msat: None, state: None };
    assert_eq!(none.amount(), 0);
}

#[test]
fn diagram_constants_hold_the_styling() {
    assert_eq!(DOT_PREAMBLE, expected_preamble());
    assert_eq!(DOT_LEGEND, expected_legend());
}

#[test]
fn empty_graph_renders_styling_and_legend_only() {
    let g = NetworkGraph::new();
    let dot = g.to_dot();
    assert_eq!(dot, format!("{}{}", expected_preamble(), expected_legend()));
    assert!(!dot.contains("->"));
    assert!(!dot.contains("[ label"));
    assert!(dot.starts_with("digraph {\n"));
    assert!(dot.ends_with("}\n"));
}

#[test]
fn graph_renders_one_statement_per_node_and_edge() {
    let mut g = NetworkGraph::new();
    let funds = funds(vec![entry("B", "5000")]);
    assert_eq!(g.update_from_node_info(&info("A", "alice"), &funds), Ok(()));
    let body = "    0 [ label = \"0\" ]\n    1 [ label = \"1\" ]\n    0 -> 1 [ ]\n";
    assert_eq!(g.to_dot(), format!("{}{}{}", expected_preamble(), body, expected_legend()));
}

#[test]
fn graph_renders_handles_of_several_digits() {
    let mut g = NetworkGraph::new();
    for i in 0..12 {
        g.add_node(&format!("peer{}", i), "p");
    }
    g.add_channel("peer11", "peer10", "1");
    let dot = g.to_dot();
    assert!(dot.contains("    10 [ label = \"10\" ]\n    11 [ label = \"11\" ]\n    11 -> 10 [ ]\n"));
}

#[test]
fn graph_has_room_for_ordinary_snapshots() {
    let mut g = NetworkGraph::new();
    let listing = funds(vec![entry("B", "5000"), entry("C", "1")]);
    assert!(g.has_room(&info("A", "alice"), &listing));
    assert!(g.has_room(&info("A", "alice"), &no_funds()));
    assert_eq!(g.update_from_node_info(&info("A", "alice"), &listing), Ok(()));
    assert!(g.has_room(&info("B", "bob"), &listing));
}

#[test]
fn graph_has_no_room_for_a_capacity_beyond_64_bits() {
    let g = NetworkGraph::new();
    let listing = funds(vec![entry("B", "18446744073709551615"), entry("C", "1")]);
    assert!(!g.has_room(&info("A", "alice"), &listing));
    let fits = funds(vec![entry("B", "18446744073709551615"), entry("C", "0")]);
    assert!(g.has_room(&info("A", "alice"), &fits));
}

#[test]
fn incomplete_report_always_has_room() {
    let g = NetworkGraph::new();
    let listing = funds(vec![entry("B", "18446744073709551615"), entry("C", "1")]);
    assert!(g.has_room(&Document::Other, &listing));
}
