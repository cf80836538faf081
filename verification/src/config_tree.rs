//! A configuration document as a tree of plain values.

use crate::text::{chars_of, same_text, texts};
use vstd::prelude::*;
use yaml_rust::scanner::ScanError;
use yaml_rust::{Yaml, YamlLoader};

verus! {

/// One node of a configuration document.
#[derive(Debug, PartialEq, Eq)]
pub enum Node {
    /// A number with a fraction, kept as it was written.
    Real(String),
    Integer(i64),
    Text(String),
    Boolean(bool),
    List(Vec<Node>),
    /// The entries of a table, in the order in which they were written.
    Table(Vec<(Node, Node)>),
    Alias(usize),
    Null,
    /// What a lookup gives where there is nothing to find.
    Bad,
}

/// What a `Node` holds, with its texts and lists as sequences.
pub enum NodeView {
    Real(Seq<char>),
    Integer(i64),
    Text(Seq<char>),
    Boolean(bool),
    List(Seq<NodeView>),
    Table(Seq<(NodeView, NodeView)>),
    Alias(usize),
    Null,
    Bad,
}

/// What a node holds.
pub open spec fn node_view(node: Node) -> NodeView
    decreases node,
{
    match node {
        Node::Real(s) => NodeView::Real(s@),
        Node::Integer(i) => NodeView::Integer(i),
        Node::Text(s) => NodeView::Text(s@),
        Node::Boolean(b) => NodeView::Boolean(b),
        Node::List(items) => NodeView::List(
            Seq::new(
                items@.len(),
                |i: int|
                    if 0 <= i < items@.len() {
                        node_view(items@[i])
                    } else {
                        NodeView::Bad
                    },
            ),
        ),
        Node::Table(entries) => NodeView::Table(
            Seq::new(
                entries@.len(),
                |i: int|
                    if 0 <= i < entries@.len() {
                        (node_view(entries@[i].0), node_view(entries@[i].1))
                    } else {
                        (NodeView::Bad, NodeView::Bad)
                    },
            ),
        ),
        Node::Alias(a) => NodeView::Alias(a),
        Node::Null => NodeView::Null,
        Node::Bad => NodeView::Bad,
    }
}

impl View for Node {
    type V = NodeView;

    open spec fn view(&self) -> NodeView {
        node_view(*self)
    }
}

/// What a list of nodes holds.
pub open spec fn node_views(nodes: Seq<Node>) -> Seq<NodeView> {
    Seq::new(nodes.len(), |i: int| nodes[i]@)
}

/// The value of the first entry whose key is the text `key`.
pub open spec fn find_entry(entries: Seq<(NodeView, NodeView)>, key: Seq<char>) -> Option<
    NodeView,
>
    decreases entries.len(),
{
    if entries.len() == 0 {
        None
    } else if entries[0].0 == NodeView::Text(key) {
        Some(entries[0].1)
    } else {
        find_entry(entries.drop_first(), key)
    }
}

/// The value that a table holds under the text `key`; `None` for a table
/// without that key and for a node that is no table.
pub open spec fn entry(node: NodeView, key: Seq<char>) -> Option<NodeView> {
    match node {
        NodeView::Table(entries) => find_entry(entries, key),
        _ => None,
    }
}

/// Every node is a text.
pub open spec fn all_texts(items: Seq<NodeView>) -> bool {
    forall|i: int| 0 <= i < items.len() ==> #[trigger] items[i] is Text
}

/// The texts of a list whose items are all texts; `None` for any other node.
pub open spec fn text_list(node: NodeView) -> Option<Seq<Seq<char>>> {
    match node {
        NodeView::List(items) => if all_texts(items) {
            Some(Seq::new(items.len(), |i: int| items[i]->Text_0))
        } else {
            None
        },
        _ => None,
    }
}

impl Node {
    /// What a table holds is what its entries hold, pair by pair.
    pub proof fn lemma_table_view(&self)
        requires
            self is Table,
        ensures
            self@ is Table,
            self@->Table_0.len() == self->Table_0@.len(),
            forall|k: int|
                0 <= k < self->Table_0@.len() ==> #[trigger] self@->Table_0[k] == (
                    self->Table_0@[k].0@,
                    self->Table_0@[k].1@,
                ),
    {
    }

    /// What a list holds is what its items hold, one by one.
    pub proof fn lemma_list_view(&self)
        requires
            self is List,
        ensures
            self@ is List,
            self@->List_0.len() == self->List_0@.len(),
            forall|k: int|
                0 <= k < self->List_0@.len() ==> #[trigger] self@->List_0[k]
                    == self->List_0@[k]@,
    {
    }

    /// The value that this table holds under `key`.
    pub fn get(&self, key: &str) -> (found: Option<&Node>)
        ensures
            match found {
                Some(value) => entry(self@, key@) == Some(value@),
                None => entry(self@, key@) is None,
            },
    {
        match self {
            Node::Table(entries) => {
                let ghost all = self@->Table_0;
                proof {
                    self.lemma_table_view();
                }
                let mut i: usize = 0;
                assert(all.skip(0) =~= all);
                while i < entries.len()
                    invariant
                        i <= entries.len(),
                        self@ == NodeView::Table(all),
                        all.len() == entries@.len(),
                        forall|k: int|
                            0 <= k < entries@.len() ==> #[trigger] all[k] == (
                                entries@[k].0@,
                                entries@[k].1@,
                            ),
                        find_entry(all, key@) == find_entry(all.skip(i as int), key@),
                    decreases entries.len() - i,
                {
                    assert(all.skip(i as int).drop_first() =~= all.skip(i + 1));
                    let hit = match &entries[i].0 {
                        Node::Text(name) => same_text(name.as_str(), key),
                        _ => false,
                    };
                    if hit {
                        return Some(&entries[i].1);
                    }
                    i += 1;
                }
                None
            },
            _ => None,
        }
    }

    /// The texts of this list, if it is a list of texts.
    pub fn texts(&self) -> (list: Option<Vec<String>>)
        ensures
            match list {
                Some(found) => text_list(self@) == Some(texts(found@)),
                None => text_list(self@) is None,
            },
    {
        match self {
            Node::List(items) => {
                let ghost all = self@->List_0;
                proof {
                    self.lemma_list_view();
                }
                let mut found: Vec<String> = Vec::new();
                let mut i: usize = 0;
                while i < items.len()
                    invariant
                        i <= items.len(),
                        self@ == NodeView::List(all),
                        all.len() == items@.len(),
                        forall|k: int| 0 <= k < items@.len() ==> #[trigger] all[k] == items@[k]@,
                        found@.len() == i,
                        forall|k: int|
                            0 <= k < i ==> #[trigger] all[k] == NodeView::Text(found@[k]@),
                    decreases items.len() - i,
                {
                    match &items[i] {
                        Node::Text(t) => {
                            found.push(t.clone());
                        },
                        _ => {
                            assert(!(all[i as int] is Text));
                            return None;
                        },
                    }
                    i += 1;
                }
                Some(found)
            },
            _ => None,
        }
    }
}

/// `yaml_rust::Yaml`, a value of a YAML document; nothing of its inside is
/// known here.
#[verifier::external_type_specification]
#[verifier::external_body]
pub struct ExYaml(Yaml);

/// `yaml_rust::scanner::ScanError`, the loader's account of a text that is no
/// YAML; nothing of its inside is known here.
#[verifier::external_type_specification]
#[verifier::external_body]
pub struct ExScanError(ScanError);

/// The deepest nesting of collections that the loader is asked to read. At
/// that depth it needs a stack of about two megabytes.
pub const MAX_NESTING: usize = 512;

/// How many characters stand after the last line feed of the text.
pub open spec fn line_tail(text: Seq<char>) -> nat
    decreases text.len(),
{
    if text.len() == 0 {
        0
    } else if text.last() == '\n' {
        0
    } else {
        line_tail(text.drop_last()) + 1
    }
}

/// The text ends at `i`, or has a blank or a line break there.
pub open spec fn is_blank_or_end(text: Seq<char>, i: int) -> bool {
    i >= text.len() || text[i] == ' ' || text[i] == '\t' || text[i] == '\n' || text[i] == '\r'
        || text[i] == '\0'
}

/// The character at `i` can stand for a block collection: it is a hyphen, a
/// question mark or a colon, and a blank, a line break or the end follows.
pub open spec fn opens_block_at(text: Seq<char>, i: int) -> bool {
    &&& 0 <= i < text.len()
    &&& text[i] == '-' || text[i] == '?' || text[i] == ':'
    &&& is_blank_or_end(text, i + 1)
}

/// How far into its line the rightmost such character among the first `upto`
/// stands, counted from one; zero if there is none.
pub open spec fn reach(text: Seq<char>, upto: nat) -> nat
    decreases upto,
{
    if upto == 0 {
        0
    } else {
        let i = (upto - 1) as nat;
        let here = line_tail(text.take(i as int)) + 1;
        if opens_block_at(text, i as int) && here > reach(text, i) {
            here
        } else {
            reach(text, i)
        }
    }
}

/// A bound on how deep block collections nest: each opens at a column of its
/// own, which is that of a hyphen, a question mark or a colon before a blank, or
/// that of a key whose colon follows in the same line; and each mapping may
/// hold one sequence at its own column.
pub open spec fn block_bound(text: Seq<char>) -> nat {
    2 * reach(text, text.len())
}

/// How many asterisks the text holds.
pub open spec fn asterisks(text: Seq<char>) -> nat
    decreases text.len(),
{
    if text.len() == 0 {
        0
    } else if text.last() == '*' {
        asterisks(text.drop_last()) + 1
    } else {
        asterisks(text.drop_last())
    }
}

/// How many opening brackets and braces the text holds.
pub open spec fn openers(text: Seq<char>) -> nat
    decreases text.len(),
{
    if text.len() == 0 {
        0
    } else if text.last() == '[' || text.last() == '{' {
        openers(text.drop_last()) + 1
    } else {
        openers(text.drop_last())
    }
}

/// A bound on how deep flow collections nest: each opens at a bracket or brace
/// of its own, 255 of them at most are open at once, and each may hold one
/// mapping of a single pair.
pub open spec fn flow_bound(text: Seq<char>) -> nat {
    if openers(text) >= 255 {
        510
    } else {
        2 * openers(text)
    }
}

/// A bound on how deep the collections of a YAML text can nest, read off the
/// text: the block collections, below them the flow collections, and all of
/// that once more for each alias, which starts with an asterisk and puts what
/// was read before under what holds it.
pub open spec fn nesting_bound(text: Seq<char>) -> nat {
    (asterisks(text) + 1) * (block_bound(text) + flow_bound(text))
}

/// The collections of the node nest at most `depth` deep.
pub open spec fn nests_within(node: NodeView, depth: nat) -> bool
    decreases depth,
{
    match node {
        NodeView::List(items) => depth > 0 && forall|i: int|
            0 <= i < items.len() ==> nests_within(#[trigger] items[i], (depth - 1) as nat),
        NodeView::Table(entries) => depth > 0 && forall|i: int|
            0 <= i < entries.len() ==> nests_within((#[trigger] entries[i]).0, (depth - 1) as nat)
                && nests_within(entries[i].1, (depth - 1) as nat),
        _ => true,
    }
}

fn is_blank(c: char) -> (r: bool)
    ensures
        r == (c == ' ' || c == '\t' || c == '\n' || c == '\r' || c == '\0'),
{
    c == ' ' || c == '\t' || c == '\n' || c == '\r' || c == '\0'
}

/// Whether the text nests no deeper than the loader is asked to read.
pub fn nests_safely(text: &str) -> (ok: bool)
    ensures
        ok == (nesting_bound(text@) <= MAX_NESTING),
{
    let cs = chars_of(text);
    let mut tail: usize = 0;
    let mut reached: usize = 0;
    let mut stars: usize = 0;
    let mut open: usize = 0;
    let mut i: usize = 0;
    while i < cs.len()
        invariant
            i <= cs.len(),
            tail == line_tail(cs@.take(i as int)),
            reached == reach(cs@, i as nat),
            stars == asterisks(cs@.take(i as int)),
            open == openers(cs@.take(i as int)),
            tail <= i,
            reached <= i,
            stars <= i,
            open <= i,
        decreases cs.len() - i,
    {
        assert(cs@.take(i + 1).drop_last() =~= cs@.take(i as int));
        let c = cs[i];
        if (c == '-' || c == '?' || c == ':') && (i + 1 == cs.len() || is_blank(cs[i + 1])) {
            if tail + 1 > reached {
                reached = tail + 1;
            }
        }
        if c == '\n' {
            tail = 0;
        } else {
            tail += 1;
        }
        if c == '*' {
            stars += 1;
        }
        if c == '[' || c == '{' {
            open += 1;
        }
        i += 1;
    }
    assert(cs@.take(cs.len() as int) =~= text@);
    let flow: usize = if open >= 255 {
        510
    } else {
        2 * open
    };
    if reached >= MAX_NESTING {
        assert((stars + 1) * (2 * reached + flow) > 512) by (nonlinear_arith)
            requires
                reached >= 512,
                stars >= 0,
                flow >= 0,
        ;
        return false;
    }
    let each: usize = 2 * reached + flow;
    if each == 0 {
        assert((stars + 1) * each == 0) by (nonlinear_arith)
            requires
                each == 0,
        ;
        return true;
    }
    if stars >= MAX_NESTING {
        assert((stars + 1) * each > 512) by (nonlinear_arith)
            requires
                stars >= 512,
                each >= 1,
        ;
        return false;
    }
    assert((stars + 1) * each <= 512 * 1532) by (nonlinear_arith)
        requires
            stars < 512,
            each <= 1532,
    ;
    (stars + 1) * each <= MAX_NESTING
}

/// The documents that a YAML text holds, in their order; `None` for a text
/// that is no YAML.
pub uninterp spec fn yaml_documents(text: Seq<char>) -> Option<Seq<NodeView>>;

/// What a YAML value holds.
pub uninterp spec fn yaml_value(value: Yaml) -> NodeView;

/// What a list of YAML values holds.
pub open spec fn yaml_values(values: Seq<Yaml>) -> Seq<NodeView> {
    Seq::new(values.len(), |i: int| yaml_value(values[i]))
}

/// `YamlLoader::load_from_str`: reads all the documents of a text, or says
/// where the text stops being YAML. What it reads depends on the text alone; the
/// contract names it, and says that it fails exactly when there is nothing to
/// name.
///
/// The loader calls itself once for each collection inside another, and copies
/// what an alias refers to, so a text is admitted only if `nesting_bound` keeps
/// it within `MAX_NESTING`; what is read then nests no deeper than that. The
/// bound goes by the loader's scanner: it opens a block collection only where
/// the column grows, at a hyphen, question mark or colon before a blank or at
/// the key of such a colon; it counts flow collections up to 255; and a flow
/// sequence may wrap a pair in a mapping.
#[verifier::external_body]
fn load_documents(text: &str) -> (r: Result<Vec<Yaml>, ScanError>)
    requires
        nesting_bound(text@) <= MAX_NESTING,
    ensures
        r is Ok == yaml_documents(text@) is Some,
        r matches Ok(docs) ==> yaml_documents(text@) == Some(yaml_values(docs@)),
        r matches Ok(docs) ==> forall|i: int|
            0 <= i < docs@.len() ==> nests_within(
                yaml_value(#[trigger] docs@[i]),
                MAX_NESTING as nat,
            ),
{
    YamlLoader::load_from_str(text)
}

/// Rewrites a `Yaml` value as a `Node`, variant for variant and node for node: a
/// hash becomes the list of its entries in the order in which it walks them,
/// which is the order in which they were inserted. The contract names what the
/// value holds as what the node holds.
///
/// It calls itself once for each collection inside another, so a value is
/// admitted only if it nests within `MAX_NESTING`.
#[verifier::external_body]
fn node_of(value: &Yaml) -> (n: Node)
    requires
        nests_within(yaml_value(*value), MAX_NESTING as nat),
    ensures
        n@ == yaml_value(*value),
{
    match value {
        Yaml::Real(s) => Node::Real(s.clone()),
        Yaml::Integer(i) => Node::Integer(*i),
        Yaml::String(s) => Node::Text(s.clone()),
        Yaml::Boolean(b) => Node::Boolean(*b),
        Yaml::Array(a) => Node::List(a.iter().map(node_of).collect()),
        Yaml::Hash(h) => Node::Table(h.iter().map(|(k, v)| (node_of(k), node_of(v))).collect()),
        Yaml::Alias(a) => Node::Alias(*a),
        Yaml::Null => Node::Null,
        Yaml::BadValue => Node::Bad,
    }
}

/// `ScanError::marker`, with `Marker::line` and `Marker::col`: the line and the
/// column at which the text stops being YAML. Nothing is claimed of them.
#[verifier::external_body]
fn failure_of(e: &ScanError) -> (at: ScanFailure) {
    ScanFailure { line: e.marker().line(), column: e.marker().col() }
}

/// Where a text stops being YAML.
#[derive(Debug, Clone, Copy, PartialEq, Eq)]
pub struct ScanFailure {
    pub line: usize,
    pub column: usize,
}

/// Why a text gives no documents.
#[derive(Debug, Clone, Copy, PartialEq, Eq)]
pub enum DocumentError {
    /// The text may nest deeper than the loader is asked to read.
    TooDeep,
    /// The text is no YAML.
    Syntax(ScanFailure),
}

/// Reads the documents of a YAML text. A text whose `nesting_bound` is over
/// `MAX_NESTING` is refused unread; any other is read, and fails exactly when
/// it is no YAML.
pub fn parse_documents(text: &str) -> (r: Result<Vec<Node>, DocumentError>)
    ensures
        nesting_bound(text@) > MAX_NESTING ==> r == Err::<Vec<Node>, DocumentError>(
            DocumentError::TooDeep,
        ),
        nesting_bound(text@) <= MAX_NESTING ==> match r {
            Ok(docs) => yaml_documents(text@) == Some(node_views(docs@)),
            Err(e) => yaml_documents(text@) is None && e is Syntax,
        },
{
    if !nests_safely(text) {
        return Err(DocumentError::TooDeep);
    }
    match load_documents(text) {
        Ok(loaded) => {
            let mut docs: Vec<Node> = Vec::new();
            let mut i: usize = 0;
            while i < loaded.len()
                invariant
                    i <= loaded.len(),
                    docs@.len() == i,
                    forall|k: int|
                        0 <= k < loaded@.len() ==> nests_within(
                            yaml_value(#[trigger] loaded@[k]),
                            MAX_NESTING as nat,
                        ),
                    forall|k: int| 0 <= k < i ==> #[trigger] docs@[k]@ == yaml_value(loaded@[k]),
                decreases loaded.len() - i,
            {
                docs.push(node_of(&loaded[i]));
                i += 1;
            }
            Ok(docs)
        },
        Err(e) => Err(DocumentError::Syntax(failure_of(&e))),
    }
}

} // verus!
