//! The order of a read, and what the lines' answers mean.
//!
//! A read is a fixed list of operations on the lines, the [`script`]. The
//! lines are not driven from here: a [`MegaDriveRead`] names the next
//! operation, the caller performs it and hands back what the lines gave,
//! and the read says whether it goes on or what its result is.

use crate::mega_drive::controller::{MegaDriveButton, MegaDriveControllerState};
use crate::{ControllerResult, Error};
use vstd::prelude::*;

verus! {

/// A level of the select line.
#[derive(Clone, Copy, Debug, PartialEq, Eq, Structural)]
pub enum Level {
    High,
    Low,
}

/// One of the six data lines.
#[derive(Clone, Copy, Debug, PartialEq, Eq, Structural)]
pub enum DataLine {
    D0,
    D1,
    D2,
    D3,
    D4,
    D5,
}

/// The question that is put to a data line.
#[derive(Clone, Copy, Debug, PartialEq, Eq, Structural)]
pub enum Probe {
    /// Is the line low?
    IsLow,
    /// Is the line high?
    IsHigh,
}

/// One operation on the lines.
#[derive(Clone, Copy, Debug, PartialEq, Eq, Structural)]
pub enum Request {
    /// Drive the select line to the level.
    Select(Level),
    /// Put the question to the data line.
    Sample(DataLine, Probe),
}

/// What the lines gave back for one request.
#[derive(Clone, Copy, Debug, PartialEq, Eq)]
pub enum LineEvent<E> {
    /// The select line was driven.
    Driven,
    /// The data line answered the question with yes (`true`) or no.
    Sampled(bool),
    /// The line failed.
    Failed(E),
}

/// What the answer to a step of the read means.
#[derive(Clone, Copy, Debug, PartialEq, Eq, Structural)]
pub enum Role {
    /// Nothing is learnt: the step only moves the controller on.
    Advance,
    /// A yes says that the button is held down.
    Button(MegaDriveButton),
    /// A yes says that no controller is connected.
    Absence,
    /// A no says that the controller has three buttons only.
    SixButton,
}

/// A step of the read: the operation, and what its answer means.
#[derive(Clone, Copy, Debug, PartialEq, Eq, Structural)]
pub struct Step {
    pub request: Request,
    pub role: Role,
}

/// The number of steps of the longest read, that of a six-button controller.
pub const STEPS: usize = 23;

/// A step that drives the select line.
pub open spec fn select(level: Level) -> Step {
    Step { request: Request::Select(level), role: Role::Advance }
}

/// A step that asks whether a line is low, and so whether a button is held.
pub open spec fn button(line: DataLine, button: MegaDriveButton) -> Step {
    Step { request: Request::Sample(line, Probe::IsLow), role: Role::Button(button) }
}

/// A step that asks whether a line is high, as it is with no controller.
pub open spec fn absence(line: DataLine) -> Step {
    Step { request: Request::Sample(line, Probe::IsHigh), role: Role::Absence }
}

/// A step that asks whether a line is low, as it is on a six-button
/// controller once the select line has been strobed.
pub open spec fn detection(line: DataLine) -> Step {
    Step { request: Request::Sample(line, Probe::IsLow), role: Role::SixButton }
}

/// The steps of a read, in the order in which they are taken.
///
/// A read takes the steps from the first on and stops early where an
/// answer ends it. Line 5 of the second cycle stands for `Up` once more:
/// the controllers are read that way, and `Start` has no step.
pub open spec fn script() -> Seq<Step> {
    seq![
        // First cycle: select high, six buttons.
        select(Level::High),
        button(DataLine::D0, MegaDriveButton::Up),
        button(DataLine::D1, MegaDriveButton::Down),
        button(DataLine::D2, MegaDriveButton::Left),
        button(DataLine::D3, MegaDriveButton::Right),
        button(DataLine::D4, MegaDriveButton::B),
        button(DataLine::D5, MegaDriveButton::C),
        // Second cycle: select low. A controller holds lines 2 and 3 low.
        select(Level::Low),
        absence(DataLine::D2),
        absence(DataLine::D3),
        button(DataLine::D4, MegaDriveButton::A),
        button(DataLine::D5, MegaDriveButton::Up),
        // Third and fourth cycle: nothing is sampled.
        select(Level::High),
        select(Level::Low),
        // Still low: a six-button controller now holds lines 0 to 3 low.
        detection(DataLine::D0),
        detection(DataLine::D1),
        detection(DataLine::D2),
        detection(DataLine::D3),
        // Fifth cycle: select high, the four extra buttons.
        select(Level::High),
        button(DataLine::D0, MegaDriveButton::Z),
        button(DataLine::D1, MegaDriveButton::Y),
        button(DataLine::D2, MegaDriveButton::X),
        button(DataLine::D3, MegaDriveButton::Mode),
    ]
}

impl<E> LineEvent<E> {
    /// Whether the event is of the kind that the request can bring.
    pub open spec fn answers(self, request: Request) -> bool {
        match self {
            LineEvent::Driven => request is Select,
            LineEvent::Sampled(_) => request is Sample,
            LineEvent::Failed(_) => true,
        }
    }

    /// Whether the event, come at a step with this role, ends the read.
    pub open spec fn ends(self, role: Role) -> bool {
        match self {
            LineEvent::Driven => false,
            LineEvent::Sampled(yes) => (role is Absence && yes) || (role is SixButton && !yes),
            LineEvent::Failed(_) => true,
        }
    }

    /// Tells whether the event is of the kind that the request can bring.
    pub fn fits(&self, request: Request) -> (fits: bool)
        ensures
            fits == self.answers(request),
    {
        match self {
            LineEvent::Driven => match request {
                Request::Select(_) => true,
                Request::Sample(_, _) => false,
            },
            LineEvent::Sampled(_) => match request {
                Request::Select(_) => false,
                Request::Sample(_, _) => true,
            },
            LineEvent::Failed(_) => true,
        }
    }

    /// The event that the select line's answer to a request stands for.
    pub fn driven(outcome: Result<(), E>) -> (event: Self)
        ensures
            event == match outcome {
                Ok(()) => LineEvent::Driven,
                Err(failure) => LineEvent::Failed(failure),
            },
            forall|level: Level| event.answers(Request::Select(level)),
    {
        match outcome {
            Ok(()) => LineEvent::Driven,
            Err(failure) => LineEvent::Failed(failure),
        }
    }

    /// The event that a data line's answer to a question stands for.
    pub fn sampled(outcome: Result<bool, E>) -> (event: Self)
        ensures
            event == match outcome {
                Ok(yes) => LineEvent::Sampled(yes),
                Err(failure) => LineEvent::Failed(failure),
            },
            forall|line: DataLine, probe: Probe| event.answers(Request::Sample(line, probe)),
    {
        match outcome {
            Ok(yes) => LineEvent::Sampled(yes),
            Err(failure) => LineEvent::Failed(failure),
        }
    }

    /// The flag that the event, come at a step with this role, adds to the
    /// bitmask: that of the step's button on a yes, and none otherwise.
    pub open spec fn flag(self, role: Role) -> u16 {
        match (self, role) {
            (LineEvent::Sampled(true), Role::Button(button)) => button.flag(),
            _ => 0,
        }
    }
}

/// Whether the events are those of a read that has not ended: each
/// answers its step of the script, none ends the read, and a step is left.
pub open spec fn in_progress<E>(run: Seq<LineEvent<E>>) -> bool {
    &&& run.len() < script().len()
    &&& forall|i: int|
        0 <= i < run.len() ==> (#[trigger] run[i]).answers(script()[i].request) && !run[i].ends(
            script()[i].role,
        )
}

/// Whether the events are those of a whole read: each answers its step of
/// the script, and the last is the first to end the read, or the script's
/// last step is done.
pub open spec fn is_read<E>(run: Seq<LineEvent<E>>) -> bool {
    &&& 0 < run.len() <= script().len()
    &&& forall|i: int| 0 <= i < run.len() ==> (#[trigger] run[i]).answers(script()[i].request)
    &&& forall|i: int| 0 <= i < run.len() - 1 ==> !(#[trigger] run[i]).ends(script()[i].role)
    &&& (run.len() == script().len() || run.last().ends(script()[run.len() - 1].role))
}

/// The bitmask that the events set: the flags of all steps, joined.
pub open spec fn pressed_bits<E>(run: Seq<LineEvent<E>>) -> u16
    decreases run.len(),
{
    if run.len() == 0 {
        0
    } else {
        pressed_bits(run.drop_last()) | run.last().flag(script()[run.len() - 1].role)
    }
}

/// Whether a whole read with these events has this result.
///
/// A failed line gives its failure, a yes at an absence step gives
/// `NotPresent`, and every other read gives the state: the buttons seen,
/// and six buttons where the whole script was gone through.
pub open spec fn is_outcome<E>(
    run: Seq<LineEvent<E>>,
    result: ControllerResult<MegaDriveControllerState, E>,
) -> bool {
    let last = run.last();
    let role = script()[run.len() - 1].role;
    match result {
        Err(Error::Other(failure)) => last == LineEvent::Failed(failure),
        Err(Error::NotPresent) => last == LineEvent::<E>::Sampled(true) && role is Absence,
        Ok(state) => {
            &&& !(last is Failed)
            &&& !(last == LineEvent::<E>::Sampled(true) && role is Absence)
            &&& state.bitmask() == pressed_bits(run)
            &&& state.six_button() == (run.len() == script().len())
        },
    }
}

/// Looks a step of the script up.
pub fn step_at(position: usize) -> (step: Step)
    requires
        position < STEPS,
    ensures
        step == script()[position as int],
{
    let high = Request::Select(Level::High);
    let low = Request::Select(Level::Low);
    match position {
        0 | 12 | 18 => Step { request: high, role: Role::Advance },
        7 | 13 => Step { request: low, role: Role::Advance },
        1 => button_step(DataLine::D0, MegaDriveButton::Up),
        2 => button_step(DataLine::D1, MegaDriveButton::Down),
        3 => button_step(DataLine::D2, MegaDriveButton::Left),
        4 => button_step(DataLine::D3, MegaDriveButton::Right),
        5 => button_step(DataLine::D4, MegaDriveButton::B),
        6 => button_step(DataLine::D5, MegaDriveButton::C),
        8 => Step { request: Request::Sample(DataLine::D2, Probe::IsHigh), role: Role::Absence },
        9 => Step { request: Request::Sample(DataLine::D3, Probe::IsHigh), role: Role::Absence },
        10 => button_step(DataLine::D4, MegaDriveButton::A),
        11 => button_step(DataLine::D5, MegaDriveButton::Up),
        14 => Step { request: Request::Sample(DataLine::D0, Probe::IsLow), role: Role::SixButton },
        15 => Step { request: Request::Sample(DataLine::D1, Probe::IsLow), role: Role::SixButton },
        16 => Step { request: Request::Sample(DataLine::D2, Probe::IsLow), role: Role::SixButton },
        17 => Step { request: Request::Sample(DataLine::D3, Probe::IsLow), role: Role::SixButton },
        19 => button_step(DataLine::D0, MegaDriveButton::Z),
        20 => button_step(DataLine::D1, MegaDriveButton::Y),
        21 => button_step(DataLine::D2, MegaDriveButton::X),
        _ => button_step(DataLine::D3, MegaDriveButton::Mode),
    }
}

fn button_step(line: DataLine, pressed: MegaDriveButton) -> (step: Step)
    ensures
        step == button(line, pressed),
{
    Step { request: Request::Sample(line, Probe::IsLow), role: Role::Button(pressed) }
}

/// A read that is under way: it says which operation comes next, and
/// takes what the lines gave back.
///
/// The caller performs each request on the lines and hands the outcome to
/// [`MegaDriveRead::advance`], until that returns the result of the read.
pub struct MegaDriveRead<E> {
    position: usize,
    bits: u16,
    seen: Ghost<Seq<LineEvent<E>>>,
}

/// How a read goes on after an event.
pub enum Progress<E> {
    /// The read goes on with the next request.
    Continue(MegaDriveRead<E>),
    /// The read is over, with this result.
    Finished(ControllerResult<MegaDriveControllerState, E>),
}

impl<E> MegaDriveRead<E> {
    /// The events that the read has taken so far, oldest first.
    pub closed spec fn history(&self) -> Seq<LineEvent<E>> {
        self.seen@
    }

    /// The step that the read has come to: the script's step after those
    /// already answered.
    pub open spec fn step(&self) -> Step {
        script()[self.history().len() as int]
    }

    /// The request that the read waits on.
    pub open spec fn pending(&self) -> Request {
        self.step().request
    }

    #[verifier::type_invariant]
    closed spec fn coherent(&self) -> bool {
        &&& in_progress(self.seen@)
        &&& self.position == self.seen@.len()
        &&& self.bits == pressed_bits(self.seen@)
    }

    /// Starts a read. The first request drives the select line high.
    pub fn begin() -> (read: Self)
        ensures
            read.history() == Seq::<LineEvent<E>>::empty(),
            in_progress(read.history()),
    {
        MegaDriveRead { position: 0, bits: 0, seen: Ghost(Seq::empty()) }
    }

    /// The operation to perform on the lines now.
    pub fn request(&self) -> (request: Request)
        ensures
            request == self.pending(),
    {
        proof {
            use_type_invariant(self);
        }
        step_at(self.position).request
    }

    /// Takes what the lines gave back for the pending request, and says
    /// how the read goes on.
    ///
    /// The read is over when the event ends it or the script's last step is
    /// done; its result is then the outcome of all events taken. Otherwise
    /// the read goes on with the event added to its history.
    pub fn advance(self, event: LineEvent<E>) -> (progress: Progress<E>)
        requires
            event.answers(self.pending()),
        ensures
            progress is Finished <==> event.ends(self.step().role) || self.history().len() + 1
                == STEPS,
            match progress {
                Progress::Continue(read) => {
                    &&& read.history() == self.history().push(event)
                    &&& in_progress(read.history())
                },
                Progress::Finished(result) => {
                    &&& is_read(self.history().push(event))
                    &&& is_outcome(self.history().push(event), result)
                },
            },
    {
        proof {
            use_type_invariant(&self);
        }
        let ghost run = self.seen@.push(event);
        assert(run.drop_last() =~= self.seen@);
        let role = step_at(self.position).role;
        let mut bits = self.bits;
        assert(bits | 0 == bits) by (bit_vector);
        match event {
            LineEvent::Failed(failure) => {
                return Progress::Finished(Err(Error::from(failure)));
            },
            LineEvent::Driven => {},
            LineEvent::Sampled(yes) => {
                match role {
                    Role::Advance => {},
                    Role::Button(button) => {
                        if yes {
                            bits = bits | button.as_flag();
                        }
                    },
                    Role::Absence => {
                        if yes {
                            return Progress::Finished(Err(Error::NotPresent));
                        }
                    },
                    Role::SixButton => {
                        if !yes {
                            return Progress::Finished(
                                Ok(MegaDriveControllerState::from_bits(bits, false)),
                            );
                        }
                    },
                }
            },
        }
        if self.position + 1 == STEPS {
            Progress::Finished(Ok(MegaDriveControllerState::from_bits(bits, true)))
        } else {
            Progress::Continue(
                MegaDriveRead { position: self.position + 1, bits, seen: Ghost(run) },
            )
        }
    }
}

} // verus!
