use zplugin_dds::config_tree::{nests_safely, parse_documents, DocumentError, Node, MAX_NESTING};

fn text(s: &str) -> Node {
    Node::Text(s.to_string())
}

#[test]
fn parse_documents_reads_every_kind_of_node() {
    let docs = parse_documents("a: 1\nb: [x, 2.5, true, ~]\nc: {d: e}\n").unwrap();
    assert_eq!(
        docs,
        vec![Node::Table(vec![
            (text("a"), Node::Integer(1)),
            (
                text("b"),
                Node::List(vec![text("x"), Node::Real("2.5".to_string()), Node::Boolean(true), Node::Null])
            ),
            (text("c"), Node::Table(vec![(text("d"), text("e"))])),
        ])]
    );
}

#[test]
fn parse_documents_keeps_the_order_of_documents_and_entries() {
    let docs = parse_documents("z: 1\ny: 2\nx: 3\n---\n- second\n").unwrap();
    assert_eq!(docs.len(), 2);
    assert_eq!(
        docs[0],
        Node::Table(vec![
            (text("z"), Node::Integer(1)),
            (text("y"), Node::Integer(2)),
            (text("x"), Node::Integer(3)),
        ])
    );
    assert_eq!(docs[1], Node::List(vec![text("second")]));
}

#[test]
fn parse_documents_of_nothing_is_no_document() {
    assert_eq!(parse_documents("").unwrap(), Vec::<Node>::new());
}

#[test]
fn parse_documents_says_where_the_text_breaks() {
    match parse_documents("a: [1, 2\nb: 3\n").unwrap_err() {
        DocumentError::Syntax(failure) => assert_eq!((failure.line, failure.column), (2, 1)),
        other => panic!("{:?}", other),
    }
    match parse_documents("key: \"open").unwrap_err() {
        DocumentError::Syntax(failure) => assert_eq!((failure.line, failure.column), (1, 5)),
        other => panic!("{:?}", other),
    }
}

#[test]
fn get_finds_the_value_under_a_text_key() {
    let table = Node::Table(vec![
        (Node::Integer(1), text("one")),
        (text("topics"), text("first")),
        (text("encoder"), Node::Null),
    ]);
    assert_eq!(table.get("topics"), Some(&text("first")));
    assert_eq!(table.get("encoder"), Some(&Node::Null));
    assert_eq!(table.get("decoder"), None);
    assert_eq!(table.get("1"), None);
    assert_eq!(Node::List(vec![text("topics")]).get("topics"), None);
    assert_eq!(text("topics").get("topics"), None);
}

#[test]
fn texts_wants_a_list_of_texts() {
    assert_eq!(
        Node::List(vec![text("a"), text("b")]).texts(),
        Some(vec!["a".to_string(), "b".to_string()])
    );
    assert_eq!(Node::List(vec![]).texts(), Some(vec![]));
    assert_eq!(Node::List(vec![text("a"), Node::Integer(1)]).texts(), None);
    assert_eq!(text("a").texts(), None);
    assert_eq!(Node::Bad.texts(), None);
}

/// How deep the node nests along its first children.
fn depth(node: &Node) -> usize {
    let mut at = node;
    let mut levels = 0;
    loop {
        at = match at {
            Node::List(items) if !items.is_empty() => &items[0],
            Node::Table(entries) if !entries.is_empty() => &entries[0].1,
            Node::List(_) | Node::Table(_) => return levels + 1,
            _ => return levels,
        };
        levels += 1;
    }
}

/// Keys one under the other, each one column further in, and what the last holds.
fn chain(levels: usize, innermost: &str) -> String {
    let mut text = String::new();
    for level in 0..levels {
        text.push_str(&" ".repeat(level));
        text.push_str(if level + 1 == levels { "k: " } else { "k:\n" });
    }
    text.push_str(innermost);
    text.push('\n');
    text
}

/// Flow sequences one in the other, one bracket to a line.
fn flow(levels: usize, innermost: &str) -> String {
    format!("{}{}\n{}", "[\n".repeat(levels), innermost, "]\n".repeat(levels))
}

/// Flow sequences one in the other, each holding one pair whose value is the next.
fn flow_pairs(levels: usize, innermost: &str) -> String {
    format!("{}{}\n{}", "[k:\n".repeat(levels), innermost, "]\n".repeat(levels))
}

#[test]
fn nests_safely_goes_by_indicators_brackets_and_asterisks() {
    assert_eq!(MAX_NESTING, 512);
    assert!(nests_safely(""));
    assert!(nests_safely(&"a".repeat(100_000)));
    assert!(nests_safely(&format!("{}k: x", " ".repeat(254))));
    assert!(!nests_safely(&format!("{}k: x", " ".repeat(255))));
    assert!(nests_safely(&format!("{}k:x", " ".repeat(10_000))));
    assert!(nests_safely(&format!("{}-", " ".repeat(255))));
    assert!(!nests_safely(&format!("{}?\tx", " ".repeat(256))));
    assert!(nests_safely(&format!("k: v\n{}\n- x\n", "a-b:c?d ".repeat(1_000))));
    assert!(nests_safely(&"- *a\n".repeat(255)));
    assert!(!nests_safely(&"- *a\n".repeat(256)));
    assert!(nests_safely(&"[\n".repeat(100_000)));
    assert!(nests_safely(&format!("{}- x", "{\n".repeat(300))));
    assert!(!nests_safely(&format!("{}k: x", "{\n".repeat(300))));
    assert!(nests_safely(&format!("[{{[\n{}k: x", " ".repeat(251))));
    assert!(!nests_safely(&format!("[{{[\n{}k: x", " ".repeat(252))));
    assert!(!nests_safely(&"- ".repeat(50_000)));
}

#[test]
fn a_text_that_may_nest_too_deep_is_refused_unread() {
    let deep = format!("{}x", "- ".repeat(50_000));
    assert_eq!(parse_documents(&deep), Err(DocumentError::TooDeep));
    let indented = format!("{}a: b", " ".repeat(300));
    assert_eq!(parse_documents(&indented), Err(DocumentError::TooDeep));
    let aliased = format!("a: &a x\nb: [{}]\n", "*a, ".repeat(600));
    assert_eq!(parse_documents(&aliased), Err(DocumentError::TooDeep));
}

#[test]
fn a_text_within_the_bound_is_read_whatever_its_length() {
    let text = "- topics:\n  - a\n  - b\n  encoder:\n  - this stage is described at some length, with = and , in it\n".repeat(5_000);
    assert!(nests_safely(&text));
    match &parse_documents(&text).unwrap()[0] {
        Node::List(items) => assert_eq!(items.len(), 5_000),
        other => panic!("{:?}", other),
    }
}

#[test]
fn the_deepest_admitted_blocks_and_flows_are_read() {
    let text = chain(120, &flow_pairs(130, "x"));
    assert!(nests_safely(&text));
    assert!(!nests_safely(&chain(120, &flow_pairs(132, "x"))));
    let docs = parse_documents(&text).unwrap();
    assert_eq!(docs.len(), 1);
    assert_eq!(depth(&docs[0]), 120 + 2 * 130);
}

#[test]
fn the_deepest_admitted_flows_are_read() {
    let text = flow_pairs(253, "x");
    assert!(nests_safely(&text));
    assert!(!nests_safely(&flow_pairs(254, "x")));
    assert_eq!(depth(&parse_documents(&text).unwrap()[0]), 2 * 253);
}

#[test]
fn flow_collections_beyond_the_loaders_own_limit_are_an_error() {
    let text = flow(256, "x");
    assert!(nests_safely(&text));
    assert!(matches!(parse_documents(&text), Err(DocumentError::Syntax(_))));
    assert_eq!(depth(&parse_documents(&flow(255, "x")).unwrap()[0]), 255);
}

#[test]
fn the_deepest_admitted_sequences_on_one_line_are_read() {
    let text = format!("{}x\n", "- ".repeat(128));
    assert!(nests_safely(&text));
    assert!(!nests_safely(&format!("{}x\n", "- ".repeat(129))));
    assert_eq!(depth(&parse_documents(&text).unwrap()[0]), 128);
}

#[test]
fn the_deepest_admitted_alias_is_read() {
    let anchored = format!("a: &a\n{}", chain(40, &flow(40, "x")).replace("k:", " k:"));
    let text = format!("{}b:\n{}", anchored, chain(40, &flow(39, "*a")).replace("k:", " k:"));
    assert!(nests_safely(&text));
    let docs = parse_documents(&text).unwrap();
    match &docs[0] {
        Node::Table(entries) => {
            assert_eq!(entries.len(), 2);
            assert_eq!(depth(&entries[0].1), 40 + 40);
            assert_eq!(depth(&entries[1].1), 40 + 39 + 40 + 40);
        }
        other => panic!("{:?}", other),
    }
}
