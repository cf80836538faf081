//! The data path from the bus to the overlay: which of the samples that a
//! callback took go to the route's coder, and what the identity coder makes
//! of them.

use crate::coders::{
    chosen, identity_encoded, names_key, pipe_list, ChoiceView, Coder, ConfigError,
};
use crate::config_tree::NodeView;
use vstd::prelude::*;

verus! {

/// One data sample as the bus delivered it.
#[derive(Debug, Clone, PartialEq, Eq)]
pub struct Sample {
    /// Whether the sample carries data at all.
    pub valid_data: bool,
    /// The serialised payload.
    pub payload: Vec<u8>,
}

/// The payloads of the samples that carry data, in their order.
pub open spec fn valid_payloads(samples: Seq<Sample>) -> Seq<Seq<u8>>
    decreases samples.len(),
{
    if samples.len() == 0 {
        Seq::empty()
    } else if samples.last().valid_data {
        valid_payloads(samples.drop_last()).push(samples.last().payload@)
    } else {
        valid_payloads(samples.drop_last())
    }
}

/// The byte sequences of a list of buffers.
pub open spec fn buffers(list: Seq<Vec<u8>>) -> Seq<Seq<u8>> {
    Seq::new(list.len(), |i: int| list[i]@)
}

/// The payloads to forward for what one callback took: those of all the samples
/// that carry data, in their order.
pub fn payloads_to_forward(samples: Vec<Sample>) -> (payloads: Vec<Vec<u8>>)
    ensures
        buffers(payloads@) == valid_payloads(samples@),
{
    let mut payloads: Vec<Vec<u8>> = Vec::new();
    let ghost all = samples@;
    for sample in it: samples
        invariant
            it.seq() == all,
            buffers(payloads@) == valid_payloads(all.take(it.index() as int)),
    {
        assert(all.take(it.index() + 1).drop_last() =~= all.take(it.index() as int));
        if sample.valid_data {
            payloads.push(sample.payload);
        }
    }
    assert(all.take(all.len() as int) =~= all);
    payloads
}

/// Hands the payloads of one callback to the route's coder for encoding, and
/// returns how many there were.
pub fn forward_samples<C: Coder + ?Sized>(coder: &C, samples: Vec<Sample>) -> (count: usize)
    ensures
        count == valid_payloads(samples@).len(),
{
    let payloads = payloads_to_forward(samples);
    let count = payloads.len();
    for payload in it: payloads {
        coder.encode(payload);
    }
    count
}

/// What the identity coder hands to its writer for a run of payloads of the bus.
pub open spec fn identity_written(payloads: Seq<Seq<u8>>) -> Seq<Seq<u8>> {
    Seq::new(payloads.len(), |i: int| identity_encoded(payloads[i]))
}

/// What two callbacks forward one after the other is what one callback
/// forwards for the samples of both.
pub proof fn callbacks_add_up(first: Seq<Sample>, second: Seq<Sample>)
    ensures
        valid_payloads(first + second) == valid_payloads(first) + valid_payloads(second),
    decreases second.len(),
{
    if second.len() == 0 {
        assert(first + second =~= first);
    } else {
        callbacks_add_up(first, second.drop_last());
        assert((first + second).drop_last() =~= first + second.drop_last());
    }
}

/// A type that no pipe lists gets the identity coder.
pub proof fn unlisted_type_gets_identity(pipes: Seq<NodeView>, topic_type: Seq<char>, encoder: bool)
    requires
        forall|i: int|
            0 <= i < pipes.len() ==> (pipe_list(#[trigger] pipes[i], names_key()) matches Some(
                names,
            ) && !names.contains(topic_type)),
    ensures
        chosen(pipes, topic_type, encoder) == Ok::<ChoiceView, ConfigError>(
            ChoiceView::Identity,
        ),
    decreases pipes.len(),
{
    if pipes.len() > 0 {
        assert(pipes.drop_first().len() == pipes.len() - 1);
        assert forall|i: int| 0 <= i < pipes.drop_first().len() implies (pipe_list(
            #[trigger] pipes.drop_first()[i],
            names_key(),
        ) matches Some(names) && !names.contains(topic_type)) by {
            assert(pipes.drop_first()[i] == pipes[i + 1]);
        }
        unlisted_type_gets_identity(pipes.drop_first(), topic_type, encoder);
    }
}

/// On a route whose type no pipe lists, what the coder hands to its writer for
/// the samples that the bus delivers, however many, is exactly their payloads
/// that carry data: as many, in their order, each byte for byte.
pub proof fn unlisted_type_is_forwarded_unchanged(
    pipes: Seq<NodeView>,
    topic_type: Seq<char>,
    samples: Seq<Sample>,
)
    requires
        forall|i: int|
            0 <= i < pipes.len() ==> (pipe_list(#[trigger] pipes[i], names_key()) matches Some(
                names,
            ) && !names.contains(topic_type)),
    ensures
        chosen(pipes, topic_type, true) == Ok::<ChoiceView, ConfigError>(
            ChoiceView::Identity,
        ),
        identity_written(valid_payloads(samples)) == valid_payloads(samples),
{
    unlisted_type_gets_identity(pipes, topic_type, true);
    assert(identity_written(valid_payloads(samples)) =~= valid_payloads(samples));
}

} // verus!
