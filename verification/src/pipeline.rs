//! The frame decode pipeline: what becomes of each answer that the
//! streaming decoder gives while a payload chunk is drained.
//!
//! The decoder itself is run by the caller. It parses the format strings of
//! the table while it decodes, and no test on a table tells whether it will
//! come back from that; so the calls into it stand outside this library,
//! and the pipeline takes each answer as plain values.

use crate::locations::{info_model, resolve, resolved, LocationInfo};
use crate::symbols::{Symbols, SymbolsModel};
use vstd::prelude::*;

verus! {

/// What one decode attempt can answer.
#[derive(Clone, Copy, Debug, PartialEq, Eq)]
pub enum Signal {
    /// A frame was decoded.
    Frame,
    /// The buffered bytes do not make up a frame yet.
    NeedsMoreData,
    /// The buffered bytes are no frame.
    Corrupted,
}

/// An answer of the decoder, as far as the pipeline reads it.
#[derive(Clone, Copy, Debug, PartialEq, Eq)]
pub enum Answer {
    /// A frame, decoded from the log statement or table entry `index`.
    Frame { index: u64 },
    NeedsMoreData,
    Corrupted,
}

impl Answer {
    /// The kind of answer.
    pub open spec fn signal(self) -> Signal {
        match self {
            Answer::Frame { .. } => Signal::Frame,
            Answer::NeedsMoreData => Signal::NeedsMoreData,
            Answer::Corrupted => Signal::Corrupted,
        }
    }
}

/// What the pipeline does with an answer of the decoder.
#[derive(Clone, Copy, Debug, PartialEq, Eq)]
pub enum Verdict {
    /// Hand the frame to the sink and decode again.
    Forward,
    /// A malformed frame was dropped: say so if `report`, and decode again.
    Skip { report: bool },
    /// Stop decoding until more input has come.
    Await,
    /// End the session with an error.
    Abort,
}

impl Verdict {
    /// Whether the drain goes on with another decode attempt.
    pub open spec fn continues(self) -> bool {
        self is Forward || self is Skip
    }
}

/// The recovery policy: a frame is forwarded, missing input ends the drain,
/// and corrupted input is skipped where the encoding recovers from it and
/// fatal where it does not. A skipped frame is reported if either flag asks
/// for it.
pub open spec fn verdict(
    signal: Signal,
    recoverable: bool,
    show_skipped_frames: bool,
    verbose: bool,
) -> Verdict {
    match signal {
        Signal::Frame => Verdict::Forward,
        Signal::NeedsMoreData => Verdict::Await,
        Signal::Corrupted => if recoverable {
            Verdict::Skip { report: show_skipped_frames || verbose }
        } else {
            Verdict::Abort
        },
    }
}

/// The verdicts of one drain, given the answers that successive decode
/// attempts would give: one verdict for each answer up to the first that
/// ends the drain, and none after it.
pub open spec fn drained(
    signals: Seq<Signal>,
    recoverable: bool,
    show_skipped_frames: bool,
    verbose: bool,
) -> Seq<Verdict>
    decreases signals.len(),
{
    if signals.len() == 0 {
        Seq::empty()
    } else {
        let first = verdict(signals[0], recoverable, show_skipped_frames, verbose);
        if first.continues() {
            seq![first] + drained(signals.skip(1), recoverable, show_skipped_frames, verbose)
        } else {
            seq![first]
        }
    }
}

/// The number of frames among `verdicts` that go to the sink.
pub open spec fn forwarded(verdicts: Seq<Verdict>) -> nat
    decreases verdicts.len(),
{
    if verdicts.len() == 0 {
        0
    } else {
        forwarded(verdicts.drop_last()) + if verdicts.last() is Forward {
            1nat
        } else {
            0nat
        }
    }
}

/// Applies the recovery policy to one answer of the decoder.
pub fn decide(signal: Signal, recoverable: bool, show_skipped_frames: bool, verbose: bool) -> (out:
    Verdict)
    ensures
        out == verdict(signal, recoverable, show_skipped_frames, verbose),
{
    match signal {
        Signal::Frame => Verdict::Forward,
        Signal::NeedsMoreData => Verdict::Await,
        Signal::Corrupted => if recoverable {
            Verdict::Skip { report: show_skipped_frames || verbose }
        } else {
            Verdict::Abort
        },
    }
}

/// A decoder that is asked for a frame and needs more data first hands out
/// no frame, and the drain ends with that one attempt.
pub proof fn needs_more_data_ends_drain(
    signals: Seq<Signal>,
    recoverable: bool,
    show_skipped_frames: bool,
    verbose: bool,
)
    requires
        signals.len() > 0,
        signals[0] == Signal::NeedsMoreData,
    ensures
        drained(signals, recoverable, show_skipped_frames, verbose) == seq![Verdict::Await],
        forwarded(drained(signals, recoverable, show_skipped_frames, verbose)) == 0,
{
    let verdicts = drained(signals, recoverable, show_skipped_frames, verbose);
    assert(verdicts == seq![Verdict::Await]);
    assert(verdicts.drop_last() == Seq::<Verdict>::empty());
    reveal_with_fuel(forwarded, 2);
}

/// Corrupted input that the encoding recovers from is skipped, reported if
/// either flag asks for it, and the drain goes on with what the decoder
/// answers next.
pub proof fn recoverable_corruption_is_skipped(
    signals: Seq<Signal>,
    show_skipped_frames: bool,
    verbose: bool,
)
    requires
        signals.len() > 0,
        signals[0] == Signal::Corrupted,
    ensures
        drained(signals, true, show_skipped_frames, verbose) == seq![
            Verdict::Skip { report: show_skipped_frames || verbose },
        ] + drained(signals.skip(1), true, show_skipped_frames, verbose),
{
}

/// Corrupted input that the encoding does not recover from aborts the
/// session: the frames before it are forwarded, and whatever the decoder
/// would answer after it is never asked for.
pub proof fn unrecoverable_corruption_aborts(
    signals: Seq<Signal>,
    at: int,
    show_skipped_frames: bool,
    verbose: bool,
)
    requires
        0 <= at < signals.len(),
        signals[at] == Signal::Corrupted,
        forall|i: int| 0 <= i < at ==> signals[i] == Signal::Frame,
    ensures
        drained(signals, false, show_skipped_frames, verbose).len() == at + 1,
        drained(signals, false, show_skipped_frames, verbose).last() == Verdict::Abort,
        forall|i: int|
            0 <= i < at ==> drained(signals, false, show_skipped_frames, verbose)[i]
                == Verdict::Forward,
    decreases at,
{
    if at > 0 {
        let rest = signals.skip(1);
        assert forall|i: int| 0 <= i < at - 1 implies rest[i] == Signal::Frame by {
            assert(rest[i] == signals[i + 1]);
        }
        unrecoverable_corruption_aborts(rest, at - 1, show_skipped_frames, verbose);
    }
}

/// What is to be done about an answer of the decoder.
#[derive(Debug, PartialEq, Eq)]
pub enum Reaction {
    /// Hand the frame to the sink with this location, and decode again.
    Forward { location: LocationInfo },
    /// A malformed frame was dropped: say so if `report`, and decode again.
    Skip { report: bool },
    /// Stop decoding until more input has come.
    Await,
    /// End the session with an error.
    Abort,
}

impl Reaction {
    /// The verdict that this reaction carries out.
    pub open spec fn verdict(self) -> Verdict {
        match self {
            Reaction::Forward { .. } => Verdict::Forward,
            Reaction::Skip { report } => Verdict::Skip { report },
            Reaction::Await => Verdict::Await,
            Reaction::Abort => Verdict::Abort,
        }
    }

    /// Whether the caller is to decode again before it feeds more input.
    pub fn proceeds(&self) -> (again: bool)
        ensures
            again == self.verdict().continues(),
    {
        match self {
            Reaction::Forward { .. } => true,
            Reaction::Skip { .. } => true,
            _ => false,
        }
    }
}

/// The pipeline as mathematical values.
pub struct PipelineModel {
    /// The symbol data that frames are located with, and that says whether
    /// the encoding recovers from corrupted input.
    pub symbols: SymbolsModel,
    /// The directory that paths are shown relative to.
    pub current_dir: Seq<char>,
    pub show_skipped_frames: bool,
    pub verbose: bool,
}

/// What `react` answers: the reaction carries out the verdict of the
/// recovery policy, and a frame is forwarded with the location that its
/// index resolves to.
pub open spec fn reaction(model: PipelineModel, answer: Answer, out: Reaction) -> bool {
    &&& out.verdict() == verdict(
        answer.signal(),
        model.symbols.recoverable,
        model.show_skipped_frames,
        model.verbose,
    )
    &&& (answer, out) matches (Answer::Frame { index }, Reaction::Forward { location })
        ==> info_model(location) == resolved(model.symbols.locations, index, model.current_dir)
}

/// The symbol data and the settings that decide what becomes of the
/// answers of a decoder.
pub struct Pipeline<'t> {
    symbols: &'t Symbols,
    current_dir: String,
    show_skipped_frames: bool,
    verbose: bool,
}

impl<'t> View for Pipeline<'t> {
    type V = PipelineModel;

    closed spec fn view(&self) -> PipelineModel {
        PipelineModel {
            symbols: self.symbols@,
            current_dir: self.current_dir@,
            show_skipped_frames: self.show_skipped_frames,
            verbose: self.verbose,
        }
    }
}

impl<'t> Pipeline<'t> {
    /// A pipeline over `symbols` with the given settings.
    pub fn new(
        symbols: &'t Symbols,
        current_dir: String,
        show_skipped_frames: bool,
        verbose: bool,
    ) -> (pipeline: Pipeline<'t>)
        ensures
            pipeline@ == (PipelineModel {
                symbols: symbols@,
                current_dir: current_dir@,
                show_skipped_frames,
                verbose,
            }),
    {
        Pipeline { symbols, current_dir, show_skipped_frames, verbose }
    }

    /// Applies the recovery policy to one answer of the decoder, and
    /// resolves the location of a frame. The caller decodes again for as
    /// long as `proceeds` says so.
    pub fn react(&self, answer: Answer) -> (out: Reaction)
        ensures
            reaction(self@, answer, out),
    {
        match answer {
            Answer::Frame { index } => Reaction::Forward {
                location: resolve(self.symbols.locations(), index, self.current_dir.as_str()),
            },
            Answer::NeedsMoreData => Reaction::Await,
            Answer::Corrupted => match decide(
                Signal::Corrupted,
                self.symbols.recoverable(),
                self.show_skipped_frames,
                self.verbose,
            ) {
                Verdict::Skip { report } => Reaction::Skip { report },
                _ => Reaction::Abort,
            },
        }
    }
}

} // verus!
