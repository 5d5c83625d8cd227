//! What a whole read amounts to, whatever the lines answered.

use crate::mega_drive::controller::{MegaDriveButton, MegaDriveControllerState};
use crate::mega_drive::protocol::{
    is_outcome, is_read, pressed_bits, script, LineEvent, Role, STEPS,
};
use crate::{ControllerResult, Error};
use vstd::prelude::*;

verus! {

/// The position of the step that opens the fifth cycle, which only a
/// six-button controller is taken through.
pub const FIFTH_CYCLE: usize = 18;

/// Whether step `i` of the read samples the button's line and got a yes.
pub open spec fn shows<E>(run: Seq<LineEvent<E>>, i: int, button: MegaDriveButton) -> bool {
    &&& 0 <= i < run.len()
    &&& script()[i].role == Role::Button(button)
    &&& run[i] == LineEvent::<E>::Sampled(true)
}

/// The bitmask of a run holds a button's flag exactly if some step that
/// samples the button's line got a yes.
pub proof fn lemma_pressed_bits_shows<E>(run: Seq<LineEvent<E>>, button: MegaDriveButton)
    ensures
        pressed_bits(run) & button.flag() != 0 <==> exists|i: int| #[trigger] shows(run, i, button),
    decreases run.len(),
{
    let wanted = button.flag();
    if run.len() == 0 {
        assert(0u16 & wanted == 0) by (bit_vector);
    } else {
        let earlier = run.drop_last();
        let last = run.len() - 1;
        let role = script()[last].role;
        let before = pressed_bits(earlier);
        let added = run.last().flag(role);
        lemma_pressed_bits_shows(earlier, button);
        assert(((before | added) & wanted != 0) <==> (before & wanted != 0 || added & wanted != 0))
            by (bit_vector);
        assert(added & wanted != 0 <==> shows(run, last, button)) by {
            assert(0u16 & wanted == 0) by (bit_vector);
            if let Role::Button(sampled) = role {
                sampled.lemma_flags_disjoint(button);
            }
        }
        assert forall|i: int| shows(earlier, i, button) implies shows(run, i, button) by {}
        if exists|i: int| #[trigger] shows(run, i, button) {
            let i = choose|i: int| #[trigger] shows(run, i, button);
            if i != last {
                assert(shows(earlier, i, button));
            }
        }
    }
}

/// After a read that gave a state, a button counts as pressed exactly if a
/// step that samples its line found the line low.
pub proof fn lemma_pressed_iff_line_low<E>(
    run: Seq<LineEvent<E>>,
    state: MegaDriveControllerState,
    button: MegaDriveButton,
)
    requires
        is_read(run),
        is_outcome(run, Ok::<_, Error<E>>(state)),
    ensures
        state.pressed(button) <==> exists|i: int| #[trigger] shows(run, i, button),
        state@.contains(button) <==> exists|i: int| #[trigger] shows(run, i, button),
{
    lemma_pressed_bits_shows(run, button);
}

/// No step of the script samples a line for `Start`: no read shows it as
/// pressed.
pub proof fn lemma_start_never_pressed<E>(run: Seq<LineEvent<E>>, state: MegaDriveControllerState)
    requires
        is_read(run),
        is_outcome(run, Ok::<_, Error<E>>(state)),
    ensures
        !state.pressed(MegaDriveButton::Start),
{
    lemma_pressed_bits_shows(run, MegaDriveButton::Start);
    assert forall|i: int| !shows(run, i, MegaDriveButton::Start) by {
        if 0 <= i < run.len() {
            assert(script()[i].role != Role::Button(MegaDriveButton::Start));
        }
    }
}

/// A line that is high at an absence step ends the read there, and the
/// read reports that no controller is present, whatever was sampled before.
pub proof fn lemma_high_line_means_not_present<E>(
    run: Seq<LineEvent<E>>,
    result: ControllerResult<MegaDriveControllerState, E>,
    i: int,
)
    requires
        is_read(run),
        is_outcome(run, result),
        0 <= i < run.len(),
        script()[i].role is Absence,
        run[i] == LineEvent::<E>::Sampled(true),
    ensures
        i == run.len() - 1,
        result == Err::<MegaDriveControllerState, _>(Error::<E>::NotPresent),
{
    assert(run[i].ends(script()[i].role));
}

/// A read reports that no controller is present only if the last line it
/// sampled was one of the two of the second cycle, and that line was high.
pub proof fn lemma_not_present_means_high_line<E>(run: Seq<LineEvent<E>>)
    requires
        is_read(run),
        is_outcome(run, Err::<MegaDriveControllerState, _>(Error::<E>::NotPresent)),
    ensures
        run.len() == 9 || run.len() == 10,
        script()[run.len() - 1].role is Absence,
        run.last() == LineEvent::<E>::Sampled(true),
{
    let last = run.len() - 1;
    assert(0 <= last < STEPS);
    assert(script()[last].role is Absence ==> last == 8 || last == 9);
}

/// A read gives a six-button state exactly if it went through the whole
/// script, which is exactly if all four lines sampled after the fourth
/// cycle were low.
pub proof fn lemma_six_button_iff_lines_low<E>(
    run: Seq<LineEvent<E>>,
    state: MegaDriveControllerState,
)
    requires
        is_read(run),
        is_outcome(run, Ok::<_, Error<E>>(state)),
    ensures
        state.six_button() <==> run.len() == STEPS,
        state.six_button() <==> forall|i: int|
            0 <= i < STEPS && script()[i].role is SixButton ==> i < run.len() && #[trigger] run[i]
                == LineEvent::<E>::Sampled(true),
{
    let last = run.len() - 1;
    if run.len() == STEPS {
        assert forall|i: int| 0 <= i < STEPS && script()[i].role is SixButton implies i < run.len()
            && #[trigger] run[i] == LineEvent::<E>::Sampled(true) by {
            assert(14 <= i <= 17);
            assert(!run[i].ends(script()[i].role));
            assert(run[i].answers(script()[i].request));
        }
    } else {
        assert(run.last().ends(script()[last].role));
        assert(script()[last].role is SixButton);
        assert(run[last] != LineEvent::<E>::Sampled(true));
    }
}

/// A read that gives a three-button state stops at the line that was not
/// low: it never enters the fifth cycle, and shows none of the four extra
/// buttons as pressed.
pub proof fn lemma_three_button_read_stops<E>(
    run: Seq<LineEvent<E>>,
    state: MegaDriveControllerState,
)
    requires
        is_read(run),
        is_outcome(run, Ok::<_, Error<E>>(state)),
        !state.six_button(),
    ensures
        script()[run.len() - 1].role is SixButton,
        run.last() == LineEvent::<E>::Sampled(false),
        run.len() <= FIFTH_CYCLE,
        !state.pressed(MegaDriveButton::Z),
        !state.pressed(MegaDriveButton::Y),
        !state.pressed(MegaDriveButton::X),
        !state.pressed(MegaDriveButton::Mode),
{
    let last = run.len() - 1;
    assert(run.last().ends(script()[last].role));
    assert(script()[last].role is SixButton ==> 14 <= last <= 17);
    lemma_pressed_bits_shows(run, MegaDriveButton::Z);
    lemma_pressed_bits_shows(run, MegaDriveButton::Y);
    lemma_pressed_bits_shows(run, MegaDriveButton::X);
    lemma_pressed_bits_shows(run, MegaDriveButton::Mode);
    assert forall|i: int, button: MegaDriveButton|
        (button == MegaDriveButton::Z || button == MegaDriveButton::Y || button
            == MegaDriveButton::X || button == MegaDriveButton::Mode) implies !#[trigger] shows(
        run,
        i,
        button,
    ) by {
        if 0 <= i < run.len() {
            assert(script()[i].role != Role::Button(button));
        }
    }
}

/// A read has one result: two results of the same events are the same
/// error, or states with the same buttons and the same kind of controller.
pub proof fn lemma_outcome_is_unique<E>(
    run: Seq<LineEvent<E>>,
    first: ControllerResult<MegaDriveControllerState, E>,
    second: ControllerResult<MegaDriveControllerState, E>,
)
    requires
        is_read(run),
        is_outcome(run, first),
        is_outcome(run, second),
    ensures
        match (first, second) {
            (Ok(a), Ok(b)) => a.bitmask() == b.bitmask() && a.six_button() == b.six_button(),
            (Err(a), Err(b)) => a == b,
            _ => false,
        },
{
}

} // verus!
