//! What holds of every file of the packed-delta format.

use super::silicate::{
    frame_delta, selector, spec_action, spec_decode, spec_decode_blobs, spec_input,
    spec_parse_slc2, spec_word_failure, words_taken, Decoded, Slc2Blob,
};
use crate::float::Float64;
use crate::shared::input::{Action, CustomAction, Input};
use vstd::prelude::*;

verus! {

/// Whether no input lies on an earlier frame than an input before it.
pub open spec fn frames_ordered(inputs: Seq<Input>) -> bool {
    forall|i: int, j: int| 0 <= i <= j < inputs.len() ==> inputs[i].frame <= inputs[j].frame
}

/// How many inputs the blobs from number `from` on hold together.
pub open spec fn total_len(blobs: Seq<Slc2Blob>, from: int) -> nat
    decreases blobs.len() - from,
{
    if from < 0 || from >= blobs.len() {
        0
    } else {
        blobs[from].len as nat + total_len(blobs, from + 1)
    }
}

/// A selector is a number below 8, and a frame delta one below 2^59.
pub proof fn lemma_word_ranges(state: u64)
    ensures
        selector(state) < 8,
        frame_delta(state) < 0x0800_0000_0000_0000,
{
    assert((state & 0b11100) >> 2 < 8) by (bit_vector);
    assert(state >> 5 < 0x0800_0000_0000_0000) by (bit_vector);
}

/// A word whose selector is 7 changes the ticks per second to what the word
/// after it holds, and takes up both words.
pub proof fn lemma_tps_takes_two_words(state: u64, extra: u64)
    requires
        selector(state) == 7,
    ensures
        spec_action(state, extra) == Action::Custom(
            CustomAction::ChangeTPS { tps: Float64 { bits: extra } },
        ),
        words_taken(state) == 2,
{
}

/// A word whose selector is 0 is a skip, whatever follows it, and takes up
/// one word.
pub proof fn lemma_selector_zero_skips(state: u64, extra: u64)
    requires
        selector(state) == 0,
    ensures
        spec_action(state, extra) == Action::Custom(CustomAction::Skip),
        words_taken(state) == 1,
{
}

/// One word whose selector is 7, with the word after it, decodes to one
/// change of the ticks per second and moves the stream on by both words.
pub proof fn lemma_decode_tps_word(data: Seq<u8>, pos: int, frame: u64)
    requires
        0 <= pos,
        pos + 16 <= data.len(),
        selector(crate::stream::word_at(data, pos)) == 7,
        frame + frame_delta(crate::stream::word_at(data, pos)) <= u64::MAX,
    ensures
        ({
            let decoded = spec_decode(data, pos, frame, 1);
            let state = crate::stream::word_at(data, pos);
            &&& decoded.failure is None
            &&& decoded.pos == pos + 16
            &&& decoded.frame == frame + frame_delta(state)
            &&& decoded.inputs =~= seq![
                Input {
                    frame: (frame + frame_delta(state)) as u64,
                    action: Action::Custom(
                        CustomAction::ChangeTPS {
                            tps: Float64 { bits: crate::stream::word_at(data, pos + 8) },
                        },
                    ),
                    position: None,
                },
            ]
        }),
{
    let state = crate::stream::word_at(data, pos);
    let now = (frame + frame_delta(state)) as u64;
    assert(spec_decode(data, pos + 16, now, 0).inputs =~= Seq::<Input>::empty());
}

/// One word whose selector is 0 decodes to one skip and moves the stream
/// on by that word alone.
pub proof fn lemma_decode_skip_word(data: Seq<u8>, pos: int, frame: u64)
    requires
        0 <= pos,
        pos + 8 <= data.len(),
        selector(crate::stream::word_at(data, pos)) == 0,
        frame + frame_delta(crate::stream::word_at(data, pos)) <= u64::MAX,
    ensures
        ({
            let decoded = spec_decode(data, pos, frame, 1);
            let state = crate::stream::word_at(data, pos);
            &&& decoded.failure is None
            &&& decoded.pos == pos + 8
            &&& decoded.frame == frame + frame_delta(state)
            &&& decoded.inputs =~= seq![
                Input {
                    frame: (frame + frame_delta(state)) as u64,
                    action: Action::Custom(CustomAction::Skip),
                    position: None,
                },
            ]
        }),
{
    let state = crate::stream::word_at(data, pos);
    let now = (frame + frame_delta(state)) as u64;
    assert(spec_decode(data, pos + 8, now, 0).inputs =~= Seq::<Input>::empty());
}

/// Decoding `first + second` actions in one run is decoding `first` of
/// them and then, from where that stopped, `second` more.
pub proof fn lemma_decode_in_two_runs(
    data: Seq<u8>,
    pos: int,
    frame: u64,
    first: nat,
    second: nat,
)
    ensures
        ({
            let head = spec_decode(data, pos, frame, first);
            let tail = spec_decode(data, head.pos, head.frame, second);
            spec_decode(data, pos, frame, first + second) =~= if head.failure is Some {
                head
            } else {
                Decoded { inputs: head.inputs + tail.inputs, ..tail }
            }
        }),
    decreases first,
{
    let head = spec_decode(data, pos, frame, first);
    if first == 0 {
        let tail = spec_decode(data, head.pos, head.frame, second);
        assert(head.inputs + tail.inputs =~= tail.inputs);
    } else if spec_word_failure(data, pos, frame) is None {
        let input = spec_input(data, pos, frame);
        let next = pos + 8 * words_taken(crate::stream::word_at(data, pos));
        lemma_decode_in_two_runs(data, next, input.frame, (first - 1) as nat, second);
        let head_rest = spec_decode(data, next, input.frame, (first - 1) as nat);
        let tail = spec_decode(data, head_rest.pos, head_rest.frame, second);
        assert(first + second - 1 == (first - 1) as nat + second);
        assert((seq![input] + head_rest.inputs) + tail.inputs =~= seq![input] + (head_rest.inputs
            + tail.inputs));
    }
}

/// The frame counter is never set back between blobs: decoding blob after
/// blob gives what decoding all their inputs in one run gives.
pub proof fn lemma_blobs_decode_as_one_run(
    data: Seq<u8>,
    pos: int,
    frame: u64,
    blobs: Seq<Slc2Blob>,
    from: int,
)
    requires
        0 <= from,
    ensures
        spec_decode_blobs(data, pos, frame, blobs, from) =~= spec_decode(
            data,
            pos,
            frame,
            total_len(blobs, from),
        ),
    decreases blobs.len() - from,
{
    if from < blobs.len() {
        let first = spec_decode(data, pos, frame, blobs[from].len as nat);
        lemma_decode_in_two_runs(
            data,
            pos,
            frame,
            blobs[from].len as nat,
            total_len(blobs, from + 1),
        );
        if first.failure is None {
            lemma_blobs_decode_as_one_run(data, first.pos, first.frame, blobs, from + 1);
        }
    }
}

/// The inputs of a run come out in the order of their frames, none before
/// the frame that the run started from and none after the one it ended on.
pub proof fn lemma_decode_orders_frames(data: Seq<u8>, pos: int, frame: u64, count: nat)
    ensures
        ({
            let decoded = spec_decode(data, pos, frame, count);
            &&& frames_ordered(decoded.inputs)
            &&& frame <= decoded.frame
            &&& forall|i: int|
                0 <= i < decoded.inputs.len() ==> frame <= (#[trigger] decoded.inputs[i]).frame
                    <= decoded.frame
            &&& decoded.inputs.len() <= count
            &&& decoded.failure is None ==> decoded.inputs.len() == count
        }),
    decreases count,
{
    if count > 0 && spec_word_failure(data, pos, frame) is None {
        let input = spec_input(data, pos, frame);
        let next = pos + 8 * words_taken(crate::stream::word_at(data, pos));
        lemma_decode_orders_frames(data, next, input.frame, (count - 1) as nat);
        let decoded = spec_decode(data, pos, frame, count);
        let rest = spec_decode(data, next, input.frame, (count - 1) as nat);
        assert forall|i: int| 0 <= i < decoded.inputs.len() implies input.frame <= (
        #[trigger] decoded.inputs[i]).frame <= decoded.frame by {
            if i > 0 {
                assert(decoded.inputs[i] == rest.inputs[i - 1]);
            }
        }
        assert forall|i: int, j: int| 0 <= i <= j < decoded.inputs.len() implies decoded.inputs[i].frame
            <= decoded.inputs[j].frame by {
            if i > 0 {
                assert(decoded.inputs[i] == rest.inputs[i - 1]);
                assert(decoded.inputs[j] == rest.inputs[j - 1]);
            }
        }
    }
}

/// A file that decodes holds its inputs in the order of their frames.
pub proof fn lemma_parsed_frames_ordered(data: Seq<u8>, start: int)
    requires
        spec_parse_slc2(data, start) is Ok,
    ensures
        frames_ordered(spec_parse_slc2(data, start)->Ok_0.inputs),
{
    let table = start + super::silicate::TABLE_OFFSET;
    let count = crate::stream::word_at(data, start + super::silicate::BLOB_COUNT_OFFSET);
    let blobs = super::silicate::spec_blob_table(data, table, count as nat);
    let from = table + super::silicate::BLOB_LEN * count;
    lemma_blobs_decode_as_one_run(data, from, 0, blobs, 0);
    lemma_decode_orders_frames(data, from, 0, total_len(blobs, 0));
}

} // verus!
