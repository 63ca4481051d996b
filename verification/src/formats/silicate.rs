//! The packed-delta Silicate format.
//!
//! Everything is little-endian. After a header of five bytes come the ticks
//! per second, the size of the metadata, the seed, 56 reserved bytes, the
//! number of inputs and the number of blobs, eight bytes each. A table of
//! blob descriptors follows, 24 bytes each, and then the blobs themselves:
//! runs of 64-bit state words. The low five bits of a word say what happens,
//! the bits above them how many frames after the word before it.

use super::silicate_laws::{frames_ordered, lemma_parsed_frames_ordered};
use super::ReplaySerializable;
use crate::float::Float64;
use crate::shared::error::Error;
use crate::shared::feature::ReplayFeature;
use crate::shared::format::ReplayFormat;
use crate::shared::input::{Action, CustomAction, Input, RestartType, VanillaAction};
use crate::shared::meta::ReplayMeta;
use crate::shared::replay::Replay;
use crate::shared::version::Version;
use crate::stream::{word_at, ByteReader, SeekFrom, StreamError};
use vstd::prelude::*;

verus! {

/// The bytes that open a file of the current layout: `SILL` in ASCII.
pub const SLC2_HEADER: [u8; 4] = [83, 73, 76, 76];

/// The header with the byte that ends it.
pub const HEADER_LEN: usize = 5;

/// What lies between the seed and the number of inputs.
pub const RESERVED_LEN: usize = 56;

/// One blob descriptor.
pub const BLOB_LEN: usize = 24;

/// From the start of a file to its ticks per second.
pub const TPS_OFFSET: usize = 5;

/// From the start of a file to its seed.
pub const SEED_OFFSET: usize = 21;

/// From the start of a file to its number of blobs.
pub const BLOB_COUNT_OFFSET: usize = 93;

/// From the start of a file to its table of blobs.
pub const TABLE_OFFSET: usize = 101;

/// What the format can express.
pub const SLC2_FEATURES: u32 = ReplayFeature::DEATH | ReplayFeature::RESTART
    | ReplayFeature::RESTART_FULL | ReplayFeature::FPS_CHANGE | ReplayFeature::SKIP_INPUT;

/// Which kind of action a state word holds: bits 2 to 4.
pub open spec fn selector(state: u64) -> u64 {
    (state & 0b11100) >> 2
}

/// How many frames a state word lies after the one before it: the bits
/// above the low five.
pub open spec fn frame_delta(state: u64) -> u64 {
    state >> 5
}

/// How many 64-bit words an action takes up: a change of the ticks per
/// second brings the new value in a word of its own.
pub open spec fn words_taken(state: u64) -> int {
    if selector(state) == 7 {
        2
    } else {
        1
    }
}

/// The action of a state word. `extra` is the word after it, which counts
/// only where the selector is 7.
pub open spec fn spec_action(state: u64, extra: u64) -> Action {
    let kind = selector(state);
    if 1 <= kind <= 3 {
        Action::Vanilla(
            VanillaAction {
                button: kind as i32,
                player2: ((state & 2) >> 1) != 0,
                down: (state & 1) != 0,
            },
        )
    } else if kind == 4 {
        Action::Custom(
            CustomAction::Restart { restart_type: RestartType::Restart, new_seed: None },
        )
    } else if kind == 5 {
        Action::Custom(
            CustomAction::Restart { restart_type: RestartType::RestartFull, new_seed: None },
        )
    } else if kind == 6 {
        Action::Custom(
            CustomAction::Restart { restart_type: RestartType::Death, new_seed: None },
        )
    } else if kind == 7 {
        Action::Custom(CustomAction::ChangeTPS { tps: Float64 { bits: extra } })
    } else {
        Action::Custom(CustomAction::Skip)
    }
}

/// How far a run of state words was decoded.
#[verifier::ext_equal]
pub struct Decoded {
    /// The inputs that were decoded, in the order of their words.
    pub inputs: Seq<Input>,
    /// Where the stream stands afterwards.
    pub pos: int,
    /// The frame of the last input, or the frame to start from if there is
    /// none.
    pub frame: u64,
    /// What stopped the decoding early, if anything did.
    pub failure: Option<Error>,
}

impl Decoded {
    pub open spec fn outcome(self) -> Result<(), Error> {
        match self.failure {
            Some(e) => Err(e),
            None => Ok(()),
        }
    }
}

/// What stops the decoding of the action at `pos`, if anything does: the
/// bytes end before the action does, or the action's frame delta takes the
/// frame counter beyond 64 bits.
pub open spec fn spec_word_failure(data: Seq<u8>, pos: int, frame: u64) -> Option<Error> {
    let state = word_at(data, pos);
    if pos + 8 > data.len() {
        Some(Error::IOError(StreamError::UnexpectedEof))
    } else if frame + frame_delta(state) > u64::MAX {
        Some(Error::LoadError)
    } else if pos + 8 * words_taken(state) > data.len() {
        Some(Error::IOError(StreamError::UnexpectedEof))
    } else {
        None
    }
}

/// The input that the action at `pos` decodes to, with the frame counter at
/// `frame` before it.
pub open spec fn spec_input(data: Seq<u8>, pos: int, frame: u64) -> Input {
    let state = word_at(data, pos);
    Input {
        frame: (frame + frame_delta(state)) as u64,
        action: spec_action(state, word_at(data, pos + 8)),
        position: None,
    }
}

/// Decodes `count` actions from `pos` on, with the frame counter at
/// `frame`.
///
/// Each word moves the counter on by its frame delta, and the input gets the
/// counter's new value. The decoding stops at the first action that fails:
/// behind its state word where the counter would overflow, and at the end
/// of the bytes where they are cut short.
pub open spec fn spec_decode(data: Seq<u8>, pos: int, frame: u64, count: nat) -> Decoded
    decreases count,
{
    if count == 0 {
        Decoded { inputs: Seq::empty(), pos, frame, failure: None }
    } else {
        match spec_word_failure(data, pos, frame) {
            Some(error) => Decoded {
                inputs: Seq::empty(),
                pos: if error == Error::LoadError {
                    pos + 8
                } else {
                    data.len() as int
                },
                frame,
                failure: Some(error),
            },
            None => {
                let input = spec_input(data, pos, frame);
                let rest = spec_decode(
                    data,
                    pos + 8 * words_taken(word_at(data, pos)),
                    input.frame,
                    (count - 1) as nat,
                );
                Decoded { inputs: seq![input] + rest.inputs, ..rest }
            },
        }
    }
}

/// The action of a state word; see [`spec_action`].
pub fn decode_action(state: u64, extra: u64) -> (action: Action)
    ensures
        action == spec_action(state, extra),
{
    let kind = (state & 0b11100) >> 2;
    if 1 <= kind && kind <= 3 {
        Action::Vanilla(
            VanillaAction {
                button: kind as i32,
                player2: ((state & 2) >> 1) != 0,
                down: (state & 1) != 0,
            },
        )
    } else if kind == 4 {
        Action::Custom(
            CustomAction::Restart { restart_type: RestartType::Restart, new_seed: None },
        )
    } else if kind == 5 {
        Action::Custom(
            CustomAction::Restart { restart_type: RestartType::RestartFull, new_seed: None },
        )
    } else if kind == 6 {
        Action::Custom(
            CustomAction::Restart { restart_type: RestartType::Death, new_seed: None },
        )
    } else if kind == 7 {
        Action::Custom(CustomAction::ChangeTPS { tps: Float64 { bits: extra } })
    } else {
        Action::Custom(CustomAction::Skip)
    }
}

/// A run of state words: where it lies and how many inputs it holds.
#[derive(Clone, Copy, Debug, PartialEq, Eq, Structural)]
pub struct Slc2Blob {
    pub byte_size: u64,
    pub start: u64,
    pub len: u64,
}

/// The blob descriptor in the 24 bytes at `pos`.
pub open spec fn spec_blob(data: Seq<u8>, pos: int) -> Slc2Blob {
    Slc2Blob {
        byte_size: word_at(data, pos),
        start: word_at(data, pos + 8),
        len: word_at(data, pos + 16),
    }
}

impl Slc2Blob {
    /// Reads one descriptor.
    pub fn from_reader(reader: &mut ByteReader<'_>) -> (read: Result<Self, Error>)
        ensures
            final(reader).data() == old(reader).data(),
            old(reader).can_read(24) ==> {
                &&& read == Ok::<Self, Error>(
                    spec_blob(old(reader).data(), old(reader).pos() as int),
                )
                &&& final(reader).pos() == old(reader).pos() + 24
            },
            !old(reader).can_read(24) ==> {
                &&& read == Err::<Self, Error>(Error::IOError(StreamError::UnexpectedEof))
                &&& final(reader).pos() == old(reader).data().len()
            },
    {
        let byte_size = match reader.read_u64() {
            Ok(word) => word,
            Err(e) => return Err(Error::IOError(e)),
        };
        let start = match reader.read_u64() {
            Ok(word) => word,
            Err(e) => return Err(Error::IOError(e)),
        };
        let len = match reader.read_u64() {
            Ok(word) => word,
            Err(e) => return Err(Error::IOError(e)),
        };
        Ok(Self { byte_size, start, len })
    }

    /// Decodes the blob's inputs from the reader onto the end of `inputs`,
    /// counting frames on from `frame`.
    ///
    /// What was decoded before a failure stays in `inputs`, and `frame`
    /// stays at the last of it.
    pub fn read_inputs_to_vec(
        &self,
        reader: &mut ByteReader<'_>,
        frame: &mut u64,
        inputs: &mut Vec<Input>,
    ) -> (read: Result<(), Error>)
        ensures
            final(reader).data() == old(reader).data(),
            ({
                let decoded = spec_decode(
                    old(reader).data(),
                    old(reader).pos() as int,
                    *old(frame),
                    self.len as nat,
                );
                &&& final(reader).pos() == decoded.pos
                &&& *final(frame) == decoded.frame
                &&& final(inputs)@ == old(inputs)@ + decoded.inputs
                &&& read == decoded.outcome()
            }),
    {
        let ghost data = reader.data();
        let ghost whole = spec_decode(data, reader.pos() as int, *frame, self.len as nat);
        let mut done: u64 = 0;
        while done < self.len
            invariant
                done <= self.len,
                reader.data() == data,
                data == old(reader).data(),
                whole == spec_decode(
                    data,
                    old(reader).pos() as int,
                    *old(frame),
                    self.len as nat,
                ),
                ({
                    let rest = spec_decode(
                        data,
                        reader.pos() as int,
                        *frame,
                        (self.len - done) as nat,
                    );
                    &&& whole.pos == rest.pos
                    &&& whole.frame == rest.frame
                    &&& whole.failure == rest.failure
                    &&& old(inputs)@ + whole.inputs == inputs@ + rest.inputs
                }),
            decreases self.len - done,
        {
            let state = match reader.read_u64() {
                Ok(word) => word,
                Err(e) => return Err(Error::IOError(e)),
            };
            let now = match frame.checked_add(state >> 5) {
                Some(sum) => sum,
                None => return Err(Error::LoadError),
            };
            // A change of the ticks per second brings the new value in the next word.
            let extra = if (state & 0b11100) >> 2 == 7 {
                match reader.read_u64() {
                    Ok(word) => word,
                    Err(e) => return Err(Error::IOError(e)),
                }
            } else {
                0
            };
            *frame = now;
            inputs.push(Input { frame: now, action: decode_action(state, extra), position: None });
            done = done + 1;
        }
        Ok(())
    }
}

/// Decodes the blobs from number `from` on, one after the other, from `pos`
/// on. The frame counter runs through: each blob counts on from where the
/// blob before it stopped.
pub open spec fn spec_decode_blobs(
    data: Seq<u8>,
    pos: int,
    frame: u64,
    blobs: Seq<Slc2Blob>,
    from: int,
) -> Decoded
    decreases blobs.len() - from,
{
    if from < 0 || from >= blobs.len() {
        Decoded { inputs: Seq::empty(), pos, frame, failure: None }
    } else {
        let first = spec_decode(data, pos, frame, blobs[from].len as nat);
        if first.failure is Some {
            first
        } else {
            let rest = spec_decode_blobs(data, first.pos, first.frame, blobs, from + 1);
            Decoded { inputs: first.inputs + rest.inputs, ..rest }
        }
    }
}

/// The table of `count` blob descriptors that starts at `pos`.
pub open spec fn spec_blob_table(data: Seq<u8>, pos: int, count: nat) -> Seq<Slc2Blob> {
    Seq::new(count, |i: int| spec_blob(data, pos + BLOB_LEN * i))
}

/// Whether the four bytes at `start` open a file of the current layout.
pub open spec fn opens_current_layout(data: Seq<u8>, start: int) -> bool {
    &&& data[start] == SLC2_HEADER[0]
    &&& data[start + 1] == SLC2_HEADER[1]
    &&& data[start + 2] == SLC2_HEADER[2]
    &&& data[start + 3] == SLC2_HEADER[3]
}

/// What a file of the current layout holds.
pub struct Slc2Content {
    pub tps: Float64,
    pub seed: u64,
    pub inputs: Seq<Input>,
}

/// What the bytes from `start` on hold, read as a file of the current
/// layout.
///
/// The file is refused as cut short where it ends before its table of blobs
/// does, and for whatever stops the decoding of its blobs.
pub open spec fn spec_parse_slc2(data: Seq<u8>, start: int) -> Result<Slc2Content, Error> {
    let table = start + TABLE_OFFSET;
    let count = word_at(data, start + BLOB_COUNT_OFFSET);
    if table + BLOB_LEN * count > data.len() {
        Err(Error::IOError(StreamError::UnexpectedEof))
    } else {
        let blobs = spec_blob_table(data, table, count as nat);
        let decoded = spec_decode_blobs(data, table + BLOB_LEN * count, 0, blobs, 0);
        match decoded.failure {
            Some(e) => Err(e),
            None => Ok(
                Slc2Content {
                    tps: Float64 { bits: word_at(data, start + TPS_OFFSET) },
                    seed: word_at(data, start + SEED_OFFSET),
                    inputs: decoded.inputs,
                },
            ),
        }
    }
}

/// What the bytes from `start` on hold, whatever their layout: the current
/// one is decoded, any other is refused as having no codec.
pub open spec fn spec_read(data: Seq<u8>, start: int) -> Result<Slc2Content, Error> {
    if start + 4 > data.len() {
        Err(Error::IOError(StreamError::UnexpectedEof))
    } else if opens_current_layout(data, start) {
        spec_parse_slc2(data, start)
    } else {
        Err(Error::Unsupported)
    }
}

pub struct SilicateMeta {
    pub tps: Float64,
    pub seed: u64,
}

impl ReplayMeta for SilicateMeta {

}

/// The layouts that files of this format come in.
#[derive(Clone, Copy, Debug, PartialEq, Eq, Structural)]
pub enum Layout {
    /// The one that opens with [`SLC2_HEADER`].
    Current,
    /// The one before it.
    Legacy,
}

/// A replay of the Silicate format. The format fixes what its metadata is.
pub struct SilicateReplay {
    inner: Replay<SilicateMeta>,
}

impl SilicateReplay {
    /// Whether the replay is what a file of this format with `content`
    /// decodes to.
    pub open spec fn holds(&self, content: Slc2Content) -> bool {
        &&& self.replay().features@ == SLC2_FEATURES
        &&& self.replay().original_format == ReplayFormat::Silicate
        &&& self.replay().version == Version { major: 22, minor: 74 }
        &&& *self.replay().meta == SilicateMeta { tps: content.tps, seed: content.seed }
        &&& self.replay().inputs@ == content.inputs
    }

    /// Whether `read` is what decoding gave where the bytes hold `wanted`.
    pub open spec fn agrees(read: Result<Self, Error>, wanted: Result<Slc2Content, Error>) -> bool {
        match (read, wanted) {
            (Ok(replay), Ok(content)) => replay.holds(content),
            (Err(e), Err(f)) => e == f,
            _ => false,
        }
    }

    /// Tells the layout of a file by its first four bytes and puts the
    /// reader back where it was.
    pub fn detect(reader: &mut ByteReader<'_>) -> (found: Result<Layout, Error>)
        ensures
            final(reader).data() == old(reader).data(),
            old(reader).can_read(4) ==> {
                &&& final(reader).pos() == old(reader).pos()
                &&& found == Ok::<Layout, Error>(
                    if opens_current_layout(old(reader).data(), old(reader).pos() as int) {
                        Layout::Current
                    } else {
                        Layout::Legacy
                    },
                )
            },
            !old(reader).can_read(4) ==> {
                &&& final(reader).pos() == old(reader).data().len()
                &&& found == Err::<Layout, Error>(Error::IOError(StreamError::UnexpectedEof))
            },
    {
        let start = reader.position();
        let header = match reader.read_exact(4) {
            Ok(bytes) => bytes,
            Err(e) => return Err(Error::IOError(e)),
        };
        let current = header[0] == SLC2_HEADER[0] && header[1] == SLC2_HEADER[1] && header[2]
            == SLC2_HEADER[2] && header[3] == SLC2_HEADER[3];
        let _ = reader.seek(SeekFrom::Start(start));
        if current {
            Ok(Layout::Current)
        } else {
            Ok(Layout::Legacy)
        }
    }

    /// Decodes a file of the legacy layout. That layout has no codec yet.
    pub fn parse_slc1(reader: ByteReader<'_>) -> (read: Result<Self, Error>)
        ensures
            read is Err,
            read->Err_0 == Error::Unsupported,
    {
        Err(Error::Unsupported)
    }

    /// Decodes a file of the current layout from the reader's position on.
    pub fn parse_slc2(reader: ByteReader<'_>) -> (read: Result<Self, Error>)
        ensures
            Self::agrees(read, spec_parse_slc2(reader.data(), reader.pos() as int)),
            read matches Ok(replay) ==> frames_ordered(replay.replay().inputs@),
    {
        proof {
            if spec_parse_slc2(reader.data(), reader.pos() as int) is Ok {
                lemma_parsed_frames_ordered(reader.data(), reader.pos() as int);
            }
        }
        let ghost data = reader.data();
        let ghost start = reader.pos() as int;
        let mut stream = reader;
        // The header is five bytes long because a zero byte ends it.
        if let Err(e) = stream.read_exact(HEADER_LEN) {
            return Err(Error::IOError(e));
        }
        let tps = match stream.read_u64() {
            Ok(word) => Float64::from_bits(word),
            Err(e) => return Err(Error::IOError(e)),
        };
        let _meta_size = match stream.read_u64() {
            Ok(word) => word,
            Err(e) => return Err(Error::IOError(e)),
        };
        let seed = match stream.read_u64() {
            Ok(word) => word,
            Err(e) => return Err(Error::IOError(e)),
        };
        // The rest of the metadata is reserved.
        if let Err(e) = stream.read_exact(RESERVED_LEN) {
            return Err(Error::IOError(e));
        }
        let _length = match stream.read_u64() {
            Ok(word) => word,
            Err(e) => return Err(Error::IOError(e)),
        };
        let blob_count = match stream.read_u64() {
            Ok(word) => word,
            Err(e) => return Err(Error::IOError(e)),
        };
        let ghost table = start + TABLE_OFFSET;
        let mut blobs: Vec<Slc2Blob> = Vec::new();
        let mut listed: u64 = 0;
        while listed < blob_count
            invariant
                listed <= blob_count,
                stream.data() == data,
                data == reader.data(),
                start == reader.pos(),
                table == start + TABLE_OFFSET,
                blob_count == word_at(data, start + BLOB_COUNT_OFFSET),
                stream.pos() == table + BLOB_LEN * listed,
                table + BLOB_LEN * listed <= data.len(),
                blobs@ == spec_blob_table(data, table, listed as nat),
            decreases blob_count - listed,
        {
            match Slc2Blob::from_reader(&mut stream) {
                Ok(blob) => blobs.push(blob),
                Err(e) => return Err(e),
            }
            listed = listed + 1;
        }
        let mut inputs: Vec<Input> = Vec::new();
        let mut current_frame: u64 = 0;
        let ghost whole = spec_decode_blobs(data, stream.pos() as int, 0, blobs@, 0);
        let mut taken: usize = 0;
        while taken < blobs.len()
            invariant
                taken <= blobs.len(),
                stream.data() == data,
                data == reader.data(),
                start == reader.pos(),
                table == start + TABLE_OFFSET,
                blob_count == word_at(data, start + BLOB_COUNT_OFFSET),
                table + BLOB_LEN * blob_count <= data.len(),
                blobs@ == spec_blob_table(data, table, blob_count as nat),
                whole == spec_decode_blobs(data, table + BLOB_LEN * blob_count, 0, blobs@, 0),
                ({
                    let rest = spec_decode_blobs(
                        data,
                        stream.pos() as int,
                        current_frame,
                        blobs@,
                        taken as int,
                    );
                    &&& whole.failure == rest.failure
                    &&& whole.inputs == inputs@ + rest.inputs
                }),
            decreases blobs.len() - taken,
        {
            let ghost before = inputs@;
            let ghost first = spec_decode(
                data,
                stream.pos() as int,
                current_frame,
                blobs@[taken as int].len as nat,
            );
            if let Err(e) = blobs[taken].read_inputs_to_vec(
                &mut stream,
                &mut current_frame,
                &mut inputs,
            ) {
                return Err(e);
            }
            taken = taken + 1;
            proof {
                let rest = spec_decode_blobs(
                    data,
                    stream.pos() as int,
                    current_frame,
                    blobs@,
                    taken as int,
                );
                assert(before + (first.inputs + rest.inputs) == (before + first.inputs)
                    + rest.inputs);
            }
        }
        Ok(
            SilicateReplay {
                inner: Replay {
                    features: ReplayFeature::new(SLC2_FEATURES),
                    original_format: ReplayFormat::Silicate,
                    version: Version { major: 22, minor: 74 },
                    meta: Box::new(SilicateMeta { tps, seed }),
                    inputs,
                },
            },
        )
    }
}

impl ReplaySerializable<SilicateMeta> for SilicateReplay {
    closed spec fn replay(&self) -> Replay<SilicateMeta> {
        self.inner
    }

    /// Decodes a file of either layout: the first four bytes decide which,
    /// and the decoding starts again from where the reader stood.
    fn from_reader(reader: ByteReader<'_>) -> (read: Result<Self, Error>)
        ensures
            Self::agrees(read, spec_read(reader.data(), reader.pos() as int)),
            read matches Ok(replay) ==> frames_ordered(replay.replay().inputs@),
    {
        let mut reader = reader;
        match Self::detect(&mut reader) {
            Ok(Layout::Current) => Self::parse_slc2(reader),
            Ok(Layout::Legacy) => Self::parse_slc1(reader),
            Err(e) => Err(e),
        }
    }

    /// The format has no encoder yet.
    fn to_writer(&mut self, writer: &mut Vec<u8>) -> (r: Result<(), Error>)
        ensures
            r == Err::<(), Error>(Error::Unsupported),
    {
        Err(Error::Unsupported)
    }

    fn inner(&self) -> (replay: &Replay<SilicateMeta>) {
        &self.inner
    }

    fn inner_mut(&mut self) -> (replay: &mut Replay<SilicateMeta>) {
        &mut self.inner
    }
}

} // verus!
