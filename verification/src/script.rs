//! Common game moves: the reports that a move sends, the state that belongs
//! to each, the pauses between them, and what follows each send.

use vstd::prelude::*;
use crate::button::Button;
use crate::error::ErrorView;
use crate::error::GadgetError;
use crate::report::report_bytes;
use crate::state::lemma_press_holds;
use crate::state::ControllerState;
use crate::state::ControllerView;
use crate::state::StickState;
use crate::transport::finish_send;
use crate::transport::spec_finish_send;
use crate::transport::InterruptWrite;
use crate::transport::SwitchProEmulator;
use crate::transport::TransferResult;
use crate::transport::WriteView;
use crate::transport::TRANSFER_TIMEOUT_MS;

verus! {

/// How long a jump holds its button, in milliseconds.
pub const JUMP_HOLD_MS: u64 = 100;

/// How long the dash of the action sequence lasts, in milliseconds.
pub const SEQUENCE_DASH_MS: u64 = 500;

/// One send of a move: the state that the controller is in when the report
/// goes out, the write that carries its report, and how long to wait after
/// a send that succeeded before the next one.
#[derive(Debug, PartialEq, Eq)]
pub struct TimedWrite {
    pub state: ControllerState,
    pub write: InterruptWrite,
    pub pause_ms: u64,
}

/// What a `TimedWrite` stands for.
pub struct TimedWriteView {
    pub state: ControllerView,
    pub write: WriteView,
    pub pause_ms: u64,
}

impl View for TimedWrite {
    type V = TimedWriteView;

    open spec fn view(&self) -> TimedWriteView {
        TimedWriteView { state: self.state@, write: self.write@, pause_ms: self.pause_ms }
    }
}

/// What a list of timed writes stands for.
pub open spec fn views(v: Seq<TimedWrite>) -> Seq<TimedWriteView> {
    v.map_values(|t: TimedWrite| t@)
}

/// The send for the state `s`: its report, written to `endpoint` and
/// followed by a pause.
pub open spec fn frame(endpoint: u8, s: ControllerView, pause_ms: u64) -> TimedWriteView {
    TimedWriteView {
        state: s,
        write: WriteView { endpoint, data: report_bytes(s), timeout_ms: TRANSFER_TIMEOUT_MS },
        pause_ms,
    }
}

/// The state in the middle of a jump: `A` held.
pub open spec fn jump_held(s: ControllerView) -> ControllerView {
    s.press(Button::A)
}

/// The state after a jump: `A` released again.
pub open spec fn after_jump(s: ControllerView) -> ControllerView {
    jump_held(s).release(Button::A)
}

/// A jump: `A` held for `JUMP_HOLD_MS`, then released.
pub open spec fn jump_script(endpoint: u8, s: ControllerView) -> Seq<TimedWriteView> {
    seq![frame(endpoint, jump_held(s), JUMP_HOLD_MS), frame(endpoint, after_jump(s), 0)]
}

/// The state in the middle of a dash: `B` held, left stick full right.
pub open spec fn dash_held(s: ControllerView) -> ControllerView {
    s.press(Button::B).with_left_stick(255, 128)
}

/// The state after a dash: `B` released, left stick at rest.
pub open spec fn after_dash(s: ControllerView) -> ControllerView {
    dash_held(s).release(Button::B).with_left_stick(128, 128)
}

/// A dash to the right: `B` held with the left stick full right for
/// `duration_ms`, then both let go.
pub open spec fn dash_script(endpoint: u8, s: ControllerView, duration_ms: u64) -> Seq<
    TimedWriteView,
> {
    seq![frame(endpoint, dash_held(s), duration_ms), frame(endpoint, after_dash(s), 0)]
}

/// The state after crouching: left stick full down.
pub open spec fn after_crouch(s: ControllerView) -> ControllerView {
    s.with_left_stick(128, 255)
}

/// A crouch: the left stick full down.
pub open spec fn crouch_script(endpoint: u8, s: ControllerView) -> Seq<TimedWriteView> {
    seq![frame(endpoint, after_crouch(s), 0)]
}

/// The action sequence: from the neutral state a dash of
/// `SEQUENCE_DASH_MS`, a jump and a crouch, then the neutral state again.
pub open spec fn sequence_script(endpoint: u8) -> Seq<TimedWriteView> {
    let start = ControllerView::neutral();
    dash_script(endpoint, start, SEQUENCE_DASH_MS) + jump_script(endpoint, after_dash(start))
        + crouch_script(endpoint, after_jump(after_dash(start))) + seq![
        frame(endpoint, ControllerView::neutral(), 0),
    ]
}

/// What follows a send of a move.
#[derive(Debug, PartialEq, Eq)]
pub enum Next {
    /// Wait `after_ms`, then make the send at `index` of the script.
    Send { index: usize, after_ms: u64 },
    /// The move is over, with this verdict. Nothing more is sent.
    End { verdict: Result<(), GadgetError> },
}

/// What a `Next` stands for.
pub enum NextView {
    Send { index: usize, after_ms: u64 },
    End { verdict: Result<(), ErrorView> },
}

impl View for Next {
    type V = NextView;

    open spec fn view(&self) -> NextView {
        match *self {
            Next::Send { index, after_ms } => NextView::Send { index, after_ms },
            Next::End { verdict } => NextView::End {
                verdict: match verdict {
                    Ok(_) => Ok(()),
                    Err(e) => Err(e@),
                },
            },
        }
    }
}

/// The state to keep and what to do after the send at `index` of `script`
/// went as `result` says.
///
/// A send that failed, by timeout or otherwise, ends the move with its
/// error; the state stays the one of that send, and nothing more is sent.
/// After a send that succeeded the state becomes the one of the next send,
/// which follows after the pause; after the last one the move ends with
/// success. An index outside the script is answered with `InvalidState` and
/// leaves the state alone.
pub open spec fn spec_after_send(
    script: Seq<TimedWriteView>,
    index: int,
    result: TransferResult,
    state: ControllerView,
) -> (ControllerView, NextView) {
    if index < 0 || index >= script.len() {
        (state, NextView::End { verdict: Err(ErrorView::InvalidState) })
    } else {
        match spec_finish_send(result) {
            Err(e) => (script[index].state, NextView::End { verdict: Err(e) }),
            Ok(_) => if index + 1 < script.len() {
                (
                    script[index + 1].state,
                    NextView::Send { index: (index + 1) as usize, after_ms: script[index].pause_ms },
                )
            } else {
                (script[index].state, NextView::End { verdict: Ok(()) })
            },
        }
    }
}

/// Takes how the send at `index` of `script` went, puts `state` where it
/// belongs, and says what follows.
pub fn after_send(
    script: &Vec<TimedWrite>,
    index: usize,
    result: TransferResult,
    state: &mut ControllerState,
) -> (r: Next)
    ensures
        (final(state)@, r@) == spec_after_send(views(script@), index as int, result, old(state)@),
{
    if index >= script.len() {
        return Next::End { verdict: Err(GadgetError::InvalidState) };
    }
    assert(views(script@)[index as int] == script@[index as int]@);
    match finish_send(result) {
        Err(e) => {
            *state = script[index].state;
            Next::End { verdict: Err(e) }
        },
        Ok(_) => {
            if index + 1 < script.len() {
                assert(views(script@)[index + 1] == script@[index + 1]@);
                *state = script[index + 1].state;
                Next::Send { index: index + 1, after_ms: script[index].pause_ms }
            } else {
                *state = script[index].state;
                Next::End { verdict: Ok(()) }
            }
        },
    }
}

fn timed(emulator: &SwitchProEmulator, state: &ControllerState, pause_ms: u64) -> (r: TimedWrite)
    ensures
        r@ == frame(emulator.endpoint_in, state@, pause_ms),
{
    TimedWrite { state: *state, write: emulator.input_write(state), pause_ms }
}

impl ControllerState {
    /// Begins a jump from this state: `A` is held, and the script of the
    /// move is handed out, its first send first. The state is the one of
    /// that first send; `after_send` moves it on as the sends succeed, so a
    /// jump whose first send fails leaves `A` held. Unless the gadget is
    /// active the move is refused and the state unchanged.
    pub fn perform_jump(&mut self, emulator: &SwitchProEmulator) -> (r: Result<
        Vec<TimedWrite>,
        GadgetError,
    >)
        ensures
            emulator.spec_ready() ==> r is Ok && views(r->Ok_0@) == jump_script(
                emulator.endpoint_in,
                old(self)@,
            ) && final(self)@ == jump_held(old(self)@),
            !emulator.spec_ready() ==> r is Err && r->Err_0@ == ErrorView::InvalidState
                && final(self)@ == old(self)@,
    {
        if !emulator.ready() {
            return Err(GadgetError::InvalidState);
        }
        let mut script: Vec<TimedWrite> = Vec::new();
        self.press_button(Button::A);
        script.push(timed(emulator, self, JUMP_HOLD_MS));
        let mut released = *self;
        released.release_button(Button::A);
        script.push(timed(emulator, &released, 0));
        assert(views(script@) =~= jump_script(emulator.endpoint_in, old(self)@));
        Ok(script)
    }

    /// Begins a dash to the right from this state, `duration_ms` long: `B`
    /// is held and the left stick pushed right, and the script of the move
    /// is handed out. The state is the one of the first send; `after_send`
    /// moves it on. Unless the gadget is active the move is refused and the
    /// state unchanged.
    pub fn dash_right(&mut self, emulator: &SwitchProEmulator, duration_ms: u64) -> (r: Result<
        Vec<TimedWrite>,
        GadgetError,
    >)
        ensures
            emulator.spec_ready() ==> r is Ok && views(r->Ok_0@) == dash_script(
                emulator.endpoint_in,
                old(self)@,
                duration_ms,
            ) && final(self)@ == dash_held(old(self)@),
            !emulator.spec_ready() ==> r is Err && r->Err_0@ == ErrorView::InvalidState
                && final(self)@ == old(self)@,
    {
        if !emulator.ready() {
            return Err(GadgetError::InvalidState);
        }
        let mut script: Vec<TimedWrite> = Vec::new();
        self.press_button(Button::B);
        self.set_left_stick(255, 128);
        script.push(timed(emulator, self, duration_ms));
        let mut released = *self;
        released.release_button(Button::B);
        released.set_left_stick(128, 128);
        script.push(timed(emulator, &released, 0));
        assert(views(script@) =~= dash_script(emulator.endpoint_in, old(self)@, duration_ms));
        Ok(script)
    }

    /// Begins a crouch from this state: the left stick is pulled down, and
    /// the script of the move, one send, is handed out. Unless the gadget is
    /// active the move is refused and the state unchanged.
    pub fn crouch(&mut self, emulator: &SwitchProEmulator) -> (r: Result<
        Vec<TimedWrite>,
        GadgetError,
    >)
        ensures
            emulator.spec_ready() ==> r is Ok && views(r->Ok_0@) == crouch_script(
                emulator.endpoint_in,
                old(self)@,
            ) && final(self)@ == after_crouch(old(self)@),
            !emulator.spec_ready() ==> r is Err && r->Err_0@ == ErrorView::InvalidState
                && final(self)@ == old(self)@,
    {
        if !emulator.ready() {
            return Err(GadgetError::InvalidState);
        }
        let mut script: Vec<TimedWrite> = Vec::new();
        self.set_left_stick(128, 255);
        script.push(timed(emulator, self, 0));
        assert(views(script@) =~= crouch_script(emulator.endpoint_in, old(self)@));
        Ok(script)
    }
}

/// The script of the action sequence: a dash, a jump and a crouch from the
/// neutral state, and the neutral state to end with. `after_send` ends it
/// at the first send that fails. It is refused unless the gadget is active.
pub fn run_action_sequence(emulator: &SwitchProEmulator) -> (r: Result<
    Vec<TimedWrite>,
    GadgetError,
>)
    ensures
        emulator.spec_ready() ==> r is Ok && views(r->Ok_0@) == sequence_script(
            emulator.endpoint_in,
        ),
        !emulator.spec_ready() ==> r is Err && r->Err_0@ == ErrorView::InvalidState,
{
    if !emulator.ready() {
        return Err(GadgetError::InvalidState);
    }
    let mut state = ControllerState::default();
    let mut script: Vec<TimedWrite> = match state.dash_right(emulator, SEQUENCE_DASH_MS) {
        Ok(s) => s,
        Err(e) => {
            return Err(e);
        },
    };
    assert(views(script@).len() == 2);
    assert(views(script@)[1] == script@[1]@);
    state = script[1].state;
    let mut jump: Vec<TimedWrite> = match state.perform_jump(emulator) {
        Ok(s) => s,
        Err(e) => {
            return Err(e);
        },
    };
    assert(views(jump@).len() == 2);
    assert(views(jump@)[1] == jump@[1]@);
    state = jump[1].state;
    let mut crouch: Vec<TimedWrite> = match state.crouch(emulator) {
        Ok(s) => s,
        Err(e) => {
            return Err(e);
        },
    };
    let ghost dash_part = script@;
    let ghost jump_part = jump@;
    let ghost crouch_part = crouch@;
    script.append(&mut jump);
    script.append(&mut crouch);
    let neutral = ControllerState::default();
    let last = timed(emulator, &neutral, 0);
    script.push(last);
    assert(script@ =~= dash_part + jump_part + crouch_part + seq![last]);
    assert(views(script@) =~= views(dash_part) + views(jump_part) + views(crouch_part) + seq![
        last@,
    ]);
    Ok(script)
}

/// A move played from the send at `index` on, where `results` says how the
/// sends go one by one: the state that is left, the verdict if the move has
/// come to its end, and the number of sends that were made. It is meant for
/// scripts that a `Vec` can hold.
pub open spec fn play(
    script: Seq<TimedWriteView>,
    index: int,
    results: Seq<TransferResult>,
    state: ControllerView,
) -> (ControllerView, Option<Result<(), ErrorView>>, int)
    decreases results.len(),
{
    if results.len() == 0 {
        (state, None, 0)
    } else {
        let (kept, next) = spec_after_send(script, index, results[0], state);
        match next {
            NextView::End { verdict } => (kept, Some(verdict), 1),
            NextView::Send { index: following, .. } => {
                let (last, verdict, sends) = play(
                    script,
                    following as int,
                    results.drop_first(),
                    kept,
                );
                (last, verdict, sends + 1)
            },
        }
    }
}

/// A move stops at the first send that fails: where the sends before the
/// one at `index + k` succeed and that one fails, exactly `k + 1` sends are
/// made, the verdict is the error of the last of them, and the state is the
/// one that it was made in.
pub proof fn lemma_move_stops_at_first_failure(
    script: Seq<TimedWriteView>,
    index: int,
    results: Seq<TransferResult>,
    state: ControllerView,
    k: int,
)
    requires
        0 <= index,
        0 <= k < results.len(),
        index + k < script.len() <= usize::MAX,
        forall|j: int| 0 <= j < k ==> results[j] is Completed,
        !(results[k] is Completed),
    ensures
        play(script, index, results, state) == (
            script[index + k].state,
            Some(spec_finish_send(results[k])),
            k + 1,
        ),
        spec_finish_send(results[k]) is Err,
    decreases k,
{
    if k > 0 {
        assert(results[0] is Completed);
        let rest = results.drop_first();
        assert(forall|j: int| 0 <= j < k - 1 ==> rest[j] == results[j + 1]);
        assert(rest[k - 1] == results[k]);
        lemma_move_stops_at_first_failure(script, index + 1, rest, script[index + 1].state, k - 1);
    }
}

/// A move whose sends all succeed makes every send of its script from
/// `index` on, ends with success, and leaves the state of its last send.
pub proof fn lemma_move_runs_to_its_end(
    script: Seq<TimedWriteView>,
    index: int,
    results: Seq<TransferResult>,
    state: ControllerView,
)
    requires
        0 <= index < script.len() <= usize::MAX,
        results.len() >= script.len() - index,
        forall|j: int| 0 <= j < script.len() - index ==> results[j] is Completed,
    ensures
        play(script, index, results, state) == (
            script.last().state,
            Some(Ok::<(), ErrorView>(())),
            script.len() - index,
        ),
    decreases script.len() - index,
{
    assert(results[0] is Completed);
    if index + 1 < script.len() {
        let rest = results.drop_first();
        assert(forall|j: int| 0 <= j < script.len() - index - 1 ==> rest[j] == results[j + 1]);
        lemma_move_runs_to_its_end(script, index + 1, rest, script[index + 1].state);
    }
}

/// A send that fails ends the move at once: whatever the script holds
/// after it, nothing more is sent, the verdict is the error of that send,
/// and the state is the one that the send was made in.
pub proof fn lemma_failed_send_ends_the_move(
    script: Seq<TimedWriteView>,
    index: int,
    result: TransferResult,
    state: ControllerView,
)
    requires
        0 <= index < script.len(),
        !(result is Completed),
    ensures
        spec_after_send(script, index, result, state).0 == script[index].state,
        spec_after_send(script, index, result, state).1 == (NextView::End {
            verdict: Err(
                if result == TransferResult::TimedOut {
                    ErrorView::EndpointTimeout
                } else {
                    ErrorView::EndpointIoFailure
                },
            ),
        }),
{
}

/// A send that succeeds is followed by the next send of the script, after
/// the pause, with the state that belongs to that send; the last one ends
/// the move with success.
pub proof fn lemma_completed_send_moves_on(
    script: Seq<TimedWriteView>,
    index: int,
    moved: usize,
    state: ControllerView,
)
    requires
        0 <= index < script.len(),
    ensures
        index + 1 < script.len() ==> spec_after_send(
            script,
            index,
            TransferResult::Completed(moved),
            state,
        ) == (
            script[index + 1].state,
            NextView::Send { index: (index + 1) as usize, after_ms: script[index].pause_ms },
        ),
        index + 1 == script.len() ==> spec_after_send(
            script,
            index,
            TransferResult::Completed(moved),
            state,
        ) == (script[index].state, NextView::End { verdict: Ok(()) }),
{
}

/// A jump whose first send fails leaves `A` held and everything else as it
/// was; one whose second send is reached leaves `A` released, however that
/// send goes. A dash whose first send fails leaves `B` held and the left
/// stick full right.
pub proof fn lemma_moves_keep_the_state_of_their_last_send(
    endpoint: u8,
    s: ControllerView,
    duration_ms: u64,
    result: TransferResult,
    other: Button,
)
    requires
        !(result is Completed),
    ensures
        ({
            let jump = jump_script(endpoint, s);
            let dash = dash_script(endpoint, s, duration_ms);
            let first = spec_after_send(jump, 0, result, jump_held(s)).0;
            let second = spec_after_send(jump, 1, result, after_jump(s)).0;
            let dashing = spec_after_send(dash, 0, result, dash_held(s)).0;
            &&& first == jump_held(s)
            &&& first.buttons == s.buttons | Button::A.spec_mask()
            &&& first.pressed(Button::A)
            &&& first.pressed(other) == (other == Button::A || s.pressed(other))
            &&& first.left_stick == s.left_stick && first.right_stick == s.right_stick
            &&& second == after_jump(s)
            &&& spec_after_send(jump, 1, TransferResult::Completed(7), after_jump(s)).0
                == after_jump(s)
            &&& dashing == dash_held(s)
            &&& dashing.pressed(Button::B)
            &&& dashing.left_stick == StickState { x: 255, y: 128 }
        }),
{
    lemma_press_holds(s, Button::A, other);
    lemma_press_holds(s, Button::A, Button::A);
    lemma_press_holds(s, Button::B, Button::B);
}

} // verus!
