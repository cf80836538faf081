//! The transform stage of a route: a `Coder` takes the payloads of one side
//! and drives a `Writer`, which hands bytes to the other side.

use crate::config_tree::{
    entry, nesting_bound, node_views, parse_documents, text_list, yaml_documents, DocumentError,
    Node, NodeView, ScanFailure, MAX_NESTING,
};
use crate::text::{is_listed, join, joined, texts};
use vstd::prelude::*;

verus! {

/// A sink that hands byte buffers to one of the two systems.
pub trait Writer {
    /// Hands one buffer to the sink.
    fn write(&self, buf: &[u8]);
}

/// A transform between the wire representations of the two systems.
pub trait Coder {
    /// Takes a payload of the bus on its way to the overlay.
    fn encode(&self, data: Vec<u8>);

    /// Takes a payload of the overlay on its way to the bus.
    fn decode(&self, data: Vec<u8>);
}

/// What the identity coder makes of a payload of the bus: the payload itself.
pub open spec fn identity_encoded(data: Seq<u8>) -> Seq<u8> {
    data
}

/// What the identity coder makes of a payload of the overlay: the payload itself.
pub open spec fn identity_decoded(data: Seq<u8>) -> Seq<u8> {
    data
}

/// The coder that forwards every payload unchanged.
pub struct IdentityCoder<W: Writer> {
    writer: W,
}

impl<W: Writer> IdentityCoder<W> {
    /// An identity coder in front of `writer`.
    pub fn new(writer: W) -> (coder: IdentityCoder<W>)
        ensures
            coder.writer() == writer,
    {
        IdentityCoder { writer }
    }

    /// The writer that the coder drives.
    pub closed spec fn writer(&self) -> W {
        self.writer
    }

    /// Gives the writer back.
    pub fn into_writer(self) -> (writer: W)
        ensures
            writer == self.writer(),
    {
        self.writer
    }

    /// The bytes that the coder hands to its writer for a payload of the bus.
    pub fn encoded(data: &Vec<u8>) -> (out: &[u8])
        ensures
            out@ == identity_encoded(data@),
    {
        data.as_slice()
    }

    /// The bytes that the coder hands to its writer for a payload of the overlay.
    pub fn decoded(data: &Vec<u8>) -> (out: &[u8])
        ensures
            out@ == identity_decoded(data@),
    {
        data.as_slice()
    }
}

impl<W: Writer> Coder for IdentityCoder<W> {
    fn encode(&self, data: Vec<u8>) {
        self.writer.write(Self::encoded(&data));
    }

    fn decode(&self, data: Vec<u8>) {
        self.writer.write(Self::decoded(&data));
    }
}

/// What the identity coder encodes, it decodes to the bytes it was given.
pub proof fn identity_round_trip(data: Seq<u8>)
    ensures
        identity_decoded(identity_encoded(data)) == data,
        identity_encoded(identity_decoded(data)) == data,
{
}

/// Why a configuration gives no coders, or no coder for a type.
#[derive(Debug, Clone, Copy, PartialEq, Eq)]
pub enum ConfigError {
    /// The text may nest deeper than the loader is asked to read.
    TooDeep,
    /// The text is no YAML.
    Syntax(ScanFailure),
    /// The text holds no document.
    NoDocument,
    /// The first document is no list.
    NotAList,
    /// A pipe lacks a list of texts where one is looked for.
    MalformedPipe,
}

/// The coder chosen for a route.
#[derive(Debug, Clone, PartialEq, Eq)]
pub enum CoderChoice {
    /// The coder that forwards bytes unchanged.
    Identity,
    /// A coder that runs the pipeline with these stages.
    Pipeline(Vec<String>),
}

/// What a `CoderChoice` says.
pub enum ChoiceView {
    Identity,
    Pipeline(Seq<Seq<char>>),
}

impl View for CoderChoice {
    type V = ChoiceView;

    open spec fn view(&self) -> ChoiceView {
        match *self {
            CoderChoice::Identity => ChoiceView::Identity,
            CoderChoice::Pipeline(stages) => ChoiceView::Pipeline(texts(stages@)),
        }
    }
}

/// The key under which a pipe lists the type names it serves.
pub open spec fn names_key() -> Seq<char> {
    seq!['t', 'o', 'p', 'i', 'c', 's']
}

/// The key under which a pipe holds the stages of its encoder, or of its decoder.
pub open spec fn stages_key(encoder: bool) -> Seq<char> {
    if encoder {
        seq!['e', 'n', 'c', 'o', 'd', 'e', 'r']
    } else {
        seq!['d', 'e', 'c', 'o', 'd', 'e', 'r']
    }
}

/// The list of texts that a pipe holds under `key`.
pub open spec fn pipe_list(pipe: NodeView, key: Seq<char>) -> Option<Seq<Seq<char>>> {
    match entry(pipe, key) {
        Some(node) => text_list(node),
        None => None,
    }
}

/// The coder for the type `name`: the stages of the first pipe that lists the
/// name, or the identity coder if no pipe does. A pipe that is reached and has
/// no list of names, and a pipe that is chosen and has no list of stages, is an
/// error.
pub open spec fn chosen(pipes: Seq<NodeView>, name: Seq<char>, encoder: bool) -> Result<
    ChoiceView,
    ConfigError,
>
    decreases pipes.len(),
{
    if pipes.len() == 0 {
        Ok(ChoiceView::Identity)
    } else {
        match pipe_list(pipes[0], names_key()) {
            None => Err(ConfigError::MalformedPipe),
            Some(names) => if names.contains(name) {
                match pipe_list(pipes[0], stages_key(encoder)) {
                    None => Err(ConfigError::MalformedPipe),
                    Some(stages) => Ok(ChoiceView::Pipeline(stages)),
                }
            } else {
                chosen(pipes.drop_first(), name, encoder)
            },
        }
    }
}

/// The pipes of a configuration: the items of its first document, which has to
/// be a list.
pub open spec fn pipes_of(docs: Seq<NodeView>) -> Result<Seq<NodeView>, ConfigError> {
    if docs.len() == 0 {
        Err(ConfigError::NoDocument)
    } else {
        match docs[0] {
            NodeView::List(items) => Ok(items),
            _ => Err(ConfigError::NotAList),
        }
    }
}

/// What a choice, or its failure, says.
pub open spec fn choice_view(r: Result<CoderChoice, ConfigError>) -> Result<
    ChoiceView,
    ConfigError,
> {
    match r {
        Ok(choice) => Ok(choice@),
        Err(e) => Err(e),
    }
}

/// The coders that are configured, pipe by pipe.
pub struct Coders {
    coders: Vec<Node>,
}

fn pipe_texts(pipe: &Node, key: &str) -> (list: Option<Vec<String>>)
    ensures
        match list {
            Some(found) => pipe_list(pipe@, key@) == Some(texts(found@)),
            None => pipe_list(pipe@, key@) is None,
        },
{
    match pipe.get(key) {
        Some(node) => node.texts(),
        None => None,
    }
}

impl Coders {
    /// The pipes of the configuration.
    pub closed spec fn pipes(&self) -> Seq<NodeView> {
        node_views(self.coders@)
    }

    /// No pipes: every type gets the identity coder.
    pub fn new() -> (coders: Coders)
        ensures
            coders.pipes() == Seq::<NodeView>::empty(),
    {
        Coders { coders: Vec::new() }
    }

    /// The coders of the documents of a configuration.
    pub fn from_documents(docs: Vec<Node>) -> (r: Result<Coders, ConfigError>)
        ensures
            match pipes_of(node_views(docs@)) {
                Ok(pipes) => r matches Ok(coders) && coders.pipes() == pipes,
                Err(e) => r == Err::<Coders, ConfigError>(e),
            },
    {
        let mut docs = docs;
        if docs.len() == 0 {
            return Err(ConfigError::NoDocument);
        }
        let node = docs.swap_remove(0);
        match node {
            Node::List(items) => {
                proof {
                    node.lemma_list_view();
                }
                Ok(Coders { coders: items })
            },
            _ => Err(ConfigError::NotAList),
        }
    }

    /// The coders that a configuration in YAML describes. A text whose
    /// `nesting_bound` is over `MAX_NESTING` is refused unread.
    pub fn from_config(config: &str) -> (r: Result<Coders, ConfigError>)
        ensures
            nesting_bound(config@) > MAX_NESTING ==> r == Err::<Coders, ConfigError>(
                ConfigError::TooDeep,
            ),
            nesting_bound(config@) <= MAX_NESTING ==> match yaml_documents(config@) {
                None => r matches Err(ConfigError::Syntax(_)),
                Some(docs) => match pipes_of(docs) {
                    Ok(pipes) => r matches Ok(coders) && coders.pipes() == pipes,
                    Err(e) => r == Err::<Coders, ConfigError>(e),
                },
            },
    {
        match parse_documents(config) {
            Ok(docs) => Coders::from_documents(docs),
            Err(DocumentError::TooDeep) => Err(ConfigError::TooDeep),
            Err(DocumentError::Syntax(at)) => Err(ConfigError::Syntax(at)),
        }
    }

    /// The coder for a route of the type `topic_type`, for encoding or for
    /// decoding. The choice goes by the type alone; the topic name plays no part.
    pub fn create_coder(&self, topic_name: &str, topic_type: &str, encoder: bool) -> (r: Result<
        CoderChoice,
        ConfigError,
    >)
        ensures
            choice_view(r) == chosen(self.pipes(), topic_type@, encoder),
    {
        proof {
            reveal_strlit("topics");
            reveal_strlit("encoder");
            reveal_strlit("decoder");
        }
        let ghost pipes = self.pipes();
        let mut i: usize = 0;
        assert(pipes.skip(0) =~= pipes);
        while i < self.coders.len()
            invariant
                i <= self.coders.len(),
                pipes == self.pipes(),
                pipes == node_views(self.coders@),
                "topics"@ == names_key(),
                "encoder"@ == stages_key(true),
                "decoder"@ == stages_key(false),
                chosen(pipes, topic_type@, encoder) == chosen(
                    pipes.skip(i as int),
                    topic_type@,
                    encoder,
                ),
            decreases self.coders.len() - i,
        {
            assert(pipes.skip(i as int).drop_first() =~= pipes.skip(i + 1));
            let pipe = &self.coders[i];
            match pipe_texts(pipe, "topics") {
                None => {
                    return Err(ConfigError::MalformedPipe);
                },
                Some(names) => {
                    if is_listed(&names, topic_type) {
                        let key = if encoder {
                            "encoder"
                        } else {
                            "decoder"
                        };
                        return match pipe_texts(pipe, key) {
                            None => Err(ConfigError::MalformedPipe),
                            Some(stages) => Ok(CoderChoice::Pipeline(stages)),
                        };
                    }
                },
            }
            i += 1;
        }
        Ok(CoderChoice::Identity)
    }

    /// The coder for the overlay-to-bus side of a route.
    pub fn new_decoder(&self, topic_name: &str, topic_type: &str) -> (r: Result<
        CoderChoice,
        ConfigError,
    >)
        ensures
            choice_view(r) == chosen(self.pipes(), topic_type@, false),
    {
        self.create_coder(topic_name, topic_type, false)
    }

    /// The coder for the bus-to-overlay side of a route.
    pub fn new_encoder(&self, topic_name: &str, topic_type: &str) -> (r: Result<
        CoderChoice,
        ConfigError,
    >)
        ensures
            choice_view(r) == chosen(self.pipes(), topic_type@, true),
    {
        self.create_coder(topic_name, topic_type, true)
    }
}

/// The separator between the stages of a pipeline.
pub open spec fn stage_separator() -> Seq<char> {
    seq![' ', '!', ' ']
}

/// The one line that describes a pipeline: its stages with ` ! ` between them.
pub fn launch_line(stages: &Vec<String>) -> (line: String)
    ensures
        line@ == joined(texts(stages@), stage_separator()),
{
    proof {
        reveal_strlit(" ! ");
        assert(" ! "@ =~= stage_separator());
    }
    join(stages, " ! ")
}

} // verus!
