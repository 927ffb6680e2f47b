//! The raw mode guard and the input session that owns it.
//!
//! Nothing here touches the terminal. Where the mode of the terminal has to
//! change, an operation hands back the commands for the driver, in the order
//! in which they are to be carried out; the caller carries them out.

use vstd::prelude::*;
use crate::error::InputError;
use crate::events::{spec_translate_event, translate_event, NormalizedEvent, PrimitiveEvent};
use crate::keys::PrimitiveKey;
use crate::modifiers::PLATFORM_CONTROL;

verus! {

/// A change of the terminal's mode that the driver is asked to make.
#[derive(Clone, Copy, Debug, PartialEq, Eq, Structural)]
pub enum ModeCommand {
    EnableRawMode,
    EnableMouseCapture,
    DisableMouseCapture,
    DisableRawMode,
}

/// What puts the terminal into raw mode with mouse capture: raw mode first.
pub open spec fn enable_commands() -> Seq<ModeCommand> {
    seq![ModeCommand::EnableRawMode, ModeCommand::EnableMouseCapture]
}

/// What restores the terminal: mouse capture goes first, raw mode after it.
pub open spec fn release_commands() -> Seq<ModeCommand> {
    seq![ModeCommand::DisableMouseCapture, ModeCommand::DisableRawMode]
}

/// What the outcomes of mode commands amount to, `true` standing for a
/// command that the driver carried out: the failure of any one of them is a
/// [`InputError::ModeToggleFailure`].
pub open spec fn spec_toggle_outcome(outcomes: Seq<bool>) -> Result<(), InputError> {
    if forall|i: int| 0 <= i < outcomes.len() ==> outcomes[i] {
        Ok(())
    } else {
        Err(InputError::ModeToggleFailure)
    }
}

/// What to report after mode commands were handed to the driver. `outcomes`
/// holds one entry for each command, `true` where the driver carried it out.
/// A failure is reported also when other commands succeeded; where there was
/// nothing to do, nothing failed.
pub fn toggle_outcome(outcomes: &[bool]) -> (outcome: Result<(), InputError>)
    ensures
        outcome == spec_toggle_outcome(outcomes@),
        outcome is Ok <==> forall|i: int| 0 <= i < outcomes@.len() ==> outcomes@[i],
{
    let mut i: usize = 0;
    while i < outcomes.len()
        invariant
            i <= outcomes.len(),
            forall|j: int| 0 <= j < i ==> outcomes@[j],
        decreases outcomes.len() - i,
    {
        if !outcomes[i] {
            return Err(InputError::ModeToggleFailure);
        }
        i += 1;
    }
    Ok(())
}

/// The command to try next while the terminal is being put into raw mode
/// with mouse capture. `outcomes` holds one entry for each command of
/// [`enable_commands`] that was tried so far, in order, `true` where the
/// driver carried it out. There is a next command while commands are left and
/// none has failed; after a failure nothing more is tried.
pub open spec fn spec_next_enable_command(outcomes: Seq<bool>) -> Option<ModeCommand> {
    if outcomes.len() < enable_commands().len() && forall|i: int|
        0 <= i < outcomes.len() ==> outcomes[i] {
        Some(enable_commands()[outcomes.len() as int])
    } else {
        None
    }
}

/// The commands of [`enable_commands`] that the driver carried out, in the
/// order in which they were tried.
pub open spec fn succeeded_commands(outcomes: Seq<bool>) -> Seq<ModeCommand> {
    (if outcomes.len() > 0 && outcomes[0] {
        seq![ModeCommand::EnableRawMode]
    } else {
        Seq::empty()
    }) + (if outcomes.len() > 1 && outcomes[1] {
        seq![ModeCommand::EnableMouseCapture]
    } else {
        Seq::empty()
    })
}

/// What undoes the commands that succeeded, the latest first: mouse capture
/// is switched off if it was switched on, then raw mode if it was. Nothing
/// where nothing succeeded.
pub open spec fn spec_abandon_commands(outcomes: Seq<bool>) -> Seq<ModeCommand> {
    (if outcomes.len() > 1 && outcomes[1] {
        seq![ModeCommand::DisableMouseCapture]
    } else {
        Seq::empty()
    }) + (if outcomes.len() > 0 && outcomes[0] {
        seq![ModeCommand::DisableRawMode]
    } else {
        Seq::empty()
    })
}

/// Stands for the terminal being in raw mode with mouse capture. It holds
/// nothing: that it exists is what it says. It cannot be copied, and
/// releasing it uses it up, so one guard is released once at most.
#[derive(Debug)]
pub struct RawModeGuard {
    held: (),
}

impl RawModeGuard {
    /// The commands that have to succeed before a guard can exist.
    pub fn enable_plan() -> (plan: Vec<ModeCommand>)
        ensures
            plan@ == enable_commands(),
    {
        let plan = vec![ModeCommand::EnableRawMode, ModeCommand::EnableMouseCapture];
        assert(plan@ =~= enable_commands());
        plan
    }

    /// The command that the caller hands to the driver next, given the
    /// outcomes of those tried so far: the commands of
    /// [`RawModeGuard::enable_plan`] one after the other, and none once one
    /// has failed or both are done. The caller starts with no outcomes, adds
    /// the outcome of each command, and asks again until there is none.
    pub fn next_enable_command(outcomes: &[bool]) -> (next: Option<ModeCommand>)
        ensures
            next == spec_next_enable_command(outcomes@),
    {
        let plan = RawModeGuard::enable_plan();
        match toggle_outcome(outcomes) {
            Ok(()) => if outcomes.len() < plan.len() {
                Some(plan[outcomes.len()])
            } else {
                None
            },
            Err(_) => None,
        }
    }

    /// The commands that undo an enabling that is given up: for each command
    /// that succeeded its undo, the latest first. The caller carries them out
    /// where [`RawModeGuard::acquire`] gave no guard, so that the terminal is
    /// left as it was found.
    pub fn abandon_commands(outcomes: &[bool]) -> (commands: Vec<ModeCommand>)
        ensures
            commands@ == spec_abandon_commands(outcomes@),
    {
        let mut commands: Vec<ModeCommand> = Vec::new();
        if outcomes.len() > 1 && outcomes[1] {
            commands.push(ModeCommand::DisableMouseCapture);
        }
        if outcomes.len() > 0 && outcomes[0] {
            commands.push(ModeCommand::DisableRawMode);
        }
        assert(commands@ =~= spec_abandon_commands(outcomes@));
        commands
    }

    /// The guard for a terminal on which the commands of
    /// [`RawModeGuard::enable_plan`] were handed to the driver. `outcomes`
    /// holds one entry for each command that was tried, `true` where the
    /// driver carried it out. There is a guard only if both commands were
    /// tried and both succeeded. Where there is none, the commands of
    /// [`RawModeGuard::abandon_commands`] undo what did succeed.
    pub fn acquire(outcomes: &[bool]) -> (acquired: Result<RawModeGuard, InputError>)
        ensures
            acquired is Ok <==> outcomes@ == seq![true, true],
            acquired matches Err(error) ==> error == InputError::ModeToggleFailure,
    {
        if outcomes.len() == 2 && outcomes[0] && outcomes[1] {
            assert(outcomes@ =~= seq![true, true]);
            Ok(RawModeGuard { held: () })
        } else {
            assert(seq![true, true].len() == 2 && seq![true, true][0] && seq![true, true][1]);
            Err(InputError::ModeToggleFailure)
        }
    }

    /// Gives the guard up. The caller carries out the commands handed back,
    /// all of them and in this order.
    pub fn release(self) -> (commands: Vec<ModeCommand>)
        ensures
            commands@ == release_commands(),
    {
        let commands = vec![ModeCommand::DisableMouseCapture, ModeCommand::DisableRawMode];
        assert(commands@ =~= release_commands());
        commands
    }
}

/// Where a session stands.
#[derive(Clone, Copy, Debug, PartialEq, Eq, Structural)]
pub enum SessionState {
    /// The session holds its guard: the terminal is in raw mode with mouse
    /// capture, and events can be read.
    Active,
    /// Control and `c` was read. The guard is gone and stays gone.
    Interrupted,
    /// The session was torn down without an interrupt. The guard is gone and
    /// stays gone.
    Closed,
}

/// Whether `event` is the request to stop: the character `c` with a modifier
/// bitset that is the Control bit and nothing else.
pub open spec fn spec_is_interrupt(event: PrimitiveEvent) -> bool {
    event == (PrimitiveEvent::Key {
        code: PrimitiveKey::Character('c'),
        modifiers: PLATFORM_CONTROL,
    })
}

/// Whether `event` is the request to stop.
#[verifier::when_used_as_spec(spec_is_interrupt)]
pub fn is_interrupt(event: PrimitiveEvent) -> (stop: bool)
    ensures
        stop == spec_is_interrupt(event),
{
    match event {
        PrimitiveEvent::Key { code: PrimitiveKey::Character(c), modifiers } => c == 'c'
            && modifiers == PLATFORM_CONTROL,
        _ => false,
    }
}

/// What the caller of a read gets once the commands that the read handed
/// back were given to the driver. `restored` is what [`toggle_outcome`] makes
/// of their outcomes. A terminal that could not be restored is fatal and is
/// what the caller is told, whatever the read answered; otherwise the caller
/// gets the answer of the read.
pub open spec fn spec_settle_read(
    answer: Result<NormalizedEvent, InputError>,
    restored: Result<(), InputError>,
) -> Result<NormalizedEvent, InputError> {
    match restored {
        Err(error) => Err(error),
        Ok(()) => answer,
    }
}

/// What the caller of a read gets once the commands that the read handed
/// back were given to the driver: the failure to restore the terminal, if
/// there was one, and the answer of the read otherwise.
#[verifier::when_used_as_spec(spec_settle_read)]
pub fn settle_read(
    answer: Result<NormalizedEvent, InputError>,
    restored: Result<(), InputError>,
) -> (settled: Result<NormalizedEvent, InputError>)
    ensures
        settled == spec_settle_read(answer, restored),
        restored is Ok ==> settled == answer,
        restored matches Err(error) ==> settled == Err::<NormalizedEvent, InputError>(error),
{
    match restored {
        Err(error) => Err(error),
        Ok(()) => answer,
    }
}

/// What a read of `event` returns in state `state`. A session without its
/// guard refuses the read. The request to stop is looked for before anything
/// is translated. Every other event is translated.
pub open spec fn read_result(state: SessionState, event: PrimitiveEvent) -> Result<
    NormalizedEvent,
    InputError,
> {
    if state != SessionState::Active {
        Err(InputError::SessionMisuse)
    } else if spec_is_interrupt(event) {
        Err(InputError::Interrupt)
    } else {
        spec_translate_event(event)
    }
}

/// The state after a read of `event` in state `state`: only the request to
/// stop, read by an active session, changes it.
pub open spec fn state_after_read(state: SessionState, event: PrimitiveEvent) -> SessionState {
    if state == SessionState::Active && spec_is_interrupt(event) {
        SessionState::Interrupted
    } else {
        state
    }
}

/// The commands that a read of `event` in state `state` hands back: those of
/// a release when the guard goes, none otherwise.
pub open spec fn commands_of_read(state: SessionState, event: PrimitiveEvent) -> Seq<
    ModeCommand,
> {
    if state == SessionState::Active && spec_is_interrupt(event) {
        release_commands()
    } else {
        Seq::empty()
    }
}

/// The state after a teardown in state `state`.
pub open spec fn state_after_teardown(state: SessionState) -> SessionState {
    if state == SessionState::Active {
        SessionState::Closed
    } else {
        state
    }
}

/// The commands that a teardown in state `state` hands back.
pub open spec fn commands_of_teardown(state: SessionState) -> Seq<ModeCommand> {
    if state == SessionState::Active {
        release_commands()
    } else {
        Seq::empty()
    }
}

/// The request to stop comes before translation: read by an active
/// session it is an interrupt, whatever the event would translate to; the
/// session is interrupted afterwards and its guard is released. No other read
/// changes the state or asks anything of the driver.
pub proof fn lemma_interrupt_takes_precedence(state: SessionState, event: PrimitiveEvent)
    ensures
        spec_is_interrupt(event) ==> {
            &&& read_result(SessionState::Active, event) == Err::<NormalizedEvent, InputError>(
                InputError::Interrupt,
            )
            &&& state_after_read(SessionState::Active, event) == SessionState::Interrupted
            &&& commands_of_read(SessionState::Active, event) == release_commands()
            &&& spec_translate_event(event) is Ok
        },
        read_result(state, event) == Err::<NormalizedEvent, InputError>(InputError::Interrupt)
            <==> (state == SessionState::Active && spec_is_interrupt(event)),
        !(state == SessionState::Active && spec_is_interrupt(event)) ==> {
            &&& state_after_read(state, event) == state
            &&& commands_of_read(state, event) == Seq::<ModeCommand>::empty()
        },
        read_result(state, event) == Err::<NormalizedEvent, InputError>(InputError::SessionMisuse)
            <==> state != SessionState::Active,
{
}

/// Tearing down twice restores the terminal once: after a teardown, and
/// after an interrupt, a teardown changes nothing and asks nothing of the
/// driver.
pub proof fn lemma_teardown_is_idempotent(state: SessionState, event: PrimitiveEvent)
    ensures
        commands_of_teardown(state_after_teardown(state)) == Seq::<ModeCommand>::empty(),
        state_after_teardown(state_after_teardown(state)) == state_after_teardown(state),
        spec_is_interrupt(event) ==> commands_of_teardown(state_after_read(state, event))
            == Seq::<ModeCommand>::empty(),
{
}

/// Something done to a session.
pub enum SessionStep {
    Read(PrimitiveEvent),
    Teardown,
}

/// The state after `step` in state `state`.
pub open spec fn state_after(state: SessionState, step: SessionStep) -> SessionState {
    match step {
        SessionStep::Read(event) => state_after_read(state, event),
        SessionStep::Teardown => state_after_teardown(state),
    }
}

/// The commands that `step` hands back in state `state`.
pub open spec fn commands_of(state: SessionState, step: SessionStep) -> Seq<ModeCommand> {
    match step {
        SessionStep::Read(event) => commands_of_read(state, event),
        SessionStep::Teardown => commands_of_teardown(state),
    }
}

/// All the commands that the steps `steps`, taken one after the other from
/// state `state`, hand back.
pub open spec fn commands_of_all(state: SessionState, steps: Seq<SessionStep>) -> Seq<
    ModeCommand,
>
    decreases steps.len(),
{
    if steps.len() == 0 {
        Seq::empty()
    } else {
        commands_of(state, steps[0]) + commands_of_all(state_after(state, steps[0]), steps.skip(1))
    }
}

/// Whatever is done to a session, and in whatever order, the driver is asked
/// to restore the terminal once at most: all that a session ever hands back
/// is nothing, or the commands of one release. A session that is not active
/// hands back nothing and stays as it is.
pub proof fn lemma_released_at_most_once(state: SessionState, steps: Seq<SessionStep>)
    ensures
        commands_of_all(state, steps) == Seq::<ModeCommand>::empty() || commands_of_all(
            state,
            steps,
        ) == release_commands(),
        state != SessionState::Active ==> commands_of_all(state, steps) == Seq::<
            ModeCommand,
        >::empty(),
        forall|step: SessionStep|
            state != SessionState::Active ==> #[trigger] state_after(state, step) == state,
    decreases steps.len(),
{
    if steps.len() > 0 {
        let first = commands_of(state, steps[0]);
        let rest = commands_of_all(state_after(state, steps[0]), steps.skip(1));
        lemma_released_at_most_once(state_after(state, steps[0]), steps.skip(1));
        assert(Seq::<ModeCommand>::empty() + rest =~= rest);
        assert(first + Seq::<ModeCommand>::empty() =~= first);
    }
}

/// The mode of a terminal, as far as the commands of this crate change it.
pub struct TerminalMode {
    pub raw: bool,
    pub mouse_capture: bool,
}

/// The mode in which the terminal was found: neither raw nor capturing.
pub open spec fn cooked_mode() -> TerminalMode {
    TerminalMode { raw: false, mouse_capture: false }
}

/// The mode that a guard stands for: raw and capturing the mouse.
pub open spec fn capture_mode() -> TerminalMode {
    TerminalMode { raw: true, mouse_capture: true }
}

/// The mode after a driver has carried out `command` in `mode`.
pub open spec fn mode_after_command(mode: TerminalMode, command: ModeCommand) -> TerminalMode {
    match command {
        ModeCommand::EnableRawMode => TerminalMode { raw: true, ..mode },
        ModeCommand::EnableMouseCapture => TerminalMode { mouse_capture: true, ..mode },
        ModeCommand::DisableMouseCapture => TerminalMode { mouse_capture: false, ..mode },
        ModeCommand::DisableRawMode => TerminalMode { raw: false, ..mode },
    }
}

/// The mode after a driver has carried out `commands` one by one, starting in
/// `mode`.
pub open spec fn mode_after(mode: TerminalMode, commands: Seq<ModeCommand>) -> TerminalMode
    decreases commands.len(),
{
    if commands.len() == 0 {
        mode
    } else {
        mode_after(mode_after_command(mode, commands[0]), commands.skip(1))
    }
}

/// The state after the steps `steps`, taken one after the other from state
/// `state`.
pub open spec fn state_after_all(state: SessionState, steps: Seq<SessionStep>) -> SessionState
    decreases steps.len(),
{
    if steps.len() == 0 {
        state
    } else {
        state_after_all(state_after(state, steps[0]), steps.skip(1))
    }
}

/// Whether `mode` is the mode that goes with `state`: the capture mode for an
/// active session, the mode in which the terminal was found for any other.
pub open spec fn mode_matches(state: SessionState, mode: TerminalMode) -> bool {
    mode == if state == SessionState::Active {
        capture_mode()
    } else {
        cooked_mode()
    }
}

/// The commands of the enable plan lead from the mode in which the terminal
/// was found to the capture mode, and the commands of a release lead back.
pub proof fn lemma_release_undoes_enable()
    ensures
        mode_after(cooked_mode(), enable_commands()) == capture_mode(),
        mode_after(capture_mode(), release_commands()) == cooked_mode(),
        mode_after(cooked_mode(), Seq::empty()) == cooked_mode(),
        mode_after(capture_mode(), Seq::empty()) == capture_mode(),
{
    reveal_with_fuel(mode_after, 3);
    assert(enable_commands().skip(1).skip(1).len() == 0);
    assert(release_commands().skip(1).skip(1).len() == 0);
}

/// Carrying out one list of commands after another is carrying out the two
/// in a row.
pub proof fn lemma_mode_after_both(
    mode: TerminalMode,
    first: Seq<ModeCommand>,
    second: Seq<ModeCommand>,
)
    ensures
        mode_after(mode, first + second) == mode_after(mode_after(mode, first), second),
    decreases first.len(),
{
    if first.len() == 0 {
        assert(first + second =~= second);
    } else {
        assert((first + second).skip(1) =~= first.skip(1) + second);
        lemma_mode_after_both(mode_after_command(mode, first[0]), first.skip(1), second);
    }
}

/// Enabling stops at the first failure. Raw mode is tried first and mouse
/// capture after it has succeeded; once a command has failed, or both are
/// done, no command is left. With no command left, both have succeeded or the
/// last one tried has failed.
pub proof fn lemma_enabling_stops_at_first_failure(outcomes: Seq<bool>)
    ensures
        spec_next_enable_command(Seq::empty()) == Some(ModeCommand::EnableRawMode),
        spec_next_enable_command(seq![true]) == Some(ModeCommand::EnableMouseCapture),
        (exists|i: int| 0 <= i < outcomes.len() && !outcomes[i]) ==> spec_next_enable_command(
            outcomes,
        ) is None,
        outcomes.len() >= 2 ==> spec_next_enable_command(outcomes) is None,
        spec_next_enable_command(outcomes) is None ==> (outcomes.len() >= 2 || exists|i: int|
            0 <= i < outcomes.len() && !outcomes[i]),
{
    assert(seq![true].len() == 1 && seq![true][0]);
}

/// An enabling that is given up leaves the terminal as it was found: the
/// commands that succeeded, followed by the commands that abandon them, lead
/// from the mode in which the terminal was found back to it. Where nothing
/// succeeded nothing is undone, and where both succeeded the undo is a
/// release.
pub proof fn lemma_abandon_restores(outcomes: Seq<bool>)
    ensures
        mode_after(
            cooked_mode(),
            succeeded_commands(outcomes) + spec_abandon_commands(outcomes),
        ) == cooked_mode(),
        mode_after(
            mode_after(cooked_mode(), succeeded_commands(outcomes)),
            spec_abandon_commands(outcomes),
        ) == cooked_mode(),
        succeeded_commands(outcomes) == Seq::<ModeCommand>::empty() ==> spec_abandon_commands(
            outcomes,
        ) == Seq::<ModeCommand>::empty(),
        outcomes == seq![true, true] ==> spec_abandon_commands(outcomes) == release_commands()
            && succeeded_commands(outcomes) == enable_commands(),
{
    let raw_on = seq![ModeCommand::EnableRawMode];
    let capture_on = seq![ModeCommand::EnableMouseCapture];
    let capture_off = seq![ModeCommand::DisableMouseCapture];
    let raw_off = seq![ModeCommand::DisableRawMode];
    let none = Seq::<ModeCommand>::empty();
    let first = if outcomes.len() > 0 && outcomes[0] { raw_on } else { none };
    let second = if outcomes.len() > 1 && outcomes[1] { capture_on } else { none };
    let third = if outcomes.len() > 1 && outcomes[1] { capture_off } else { none };
    let fourth = if outcomes.len() > 0 && outcomes[0] { raw_off } else { none };
    reveal_with_fuel(mode_after, 2);
    assert(raw_on.skip(1).len() == 0 && capture_on.skip(1).len() == 0 && capture_off.skip(1).len()
        == 0 && raw_off.skip(1).len() == 0);
    lemma_mode_after_both(cooked_mode(), first, second);
    let enabled = mode_after(cooked_mode(), first + second);
    lemma_mode_after_both(enabled, third, fourth);
    lemma_mode_after_both(cooked_mode(), first + second, third + fourth);
    if succeeded_commands(outcomes) == none {
        assert(first.len() + second.len() == (first + second).len());
        assert(spec_abandon_commands(outcomes) =~= none);
    }
    if outcomes == seq![true, true] {
        assert(seq![true, true].len() == 2 && seq![true, true][0] && seq![true, true][1]);
        assert(spec_abandon_commands(outcomes) =~= release_commands());
        assert(succeeded_commands(outcomes) =~= enable_commands());
    }
}

/// A teardown leaves no session active, and where a driver carries out the
/// commands that it hands back, the terminal is afterwards in the mode in
/// which it was found.
pub proof fn lemma_teardown_restores(state: SessionState, mode: TerminalMode)
    requires
        mode_matches(state, mode),
    ensures
        state_after_teardown(state) != SessionState::Active,
        mode_after(mode, commands_of_teardown(state)) == cooked_mode(),
{
    lemma_release_undoes_enable();
}

/// The guard tells the mode. Where a driver carries out every command that a
/// session hands back, the terminal is in capture mode exactly while the
/// session holds its guard, and in the mode in which it was found afterwards,
/// whatever is done to the session.
pub proof fn lemma_guard_tells_the_mode(
    state: SessionState,
    mode: TerminalMode,
    steps: Seq<SessionStep>,
)
    requires
        mode_matches(state, mode),
    ensures
        mode_matches(
            state_after_all(state, steps),
            mode_after(mode, commands_of_all(state, steps)),
        ),
    decreases steps.len(),
{
    lemma_release_undoes_enable();
    if steps.len() > 0 {
        let next = state_after(state, steps[0]);
        let rest = commands_of_all(next, steps.skip(1));
        lemma_released_at_most_once(next, steps.skip(1));
        if commands_of(state, steps[0]) == release_commands() {
            lemma_guard_tells_the_mode(next, cooked_mode(), steps.skip(1));
            assert(release_commands() + rest =~= release_commands());
        } else {
            lemma_guard_tells_the_mode(next, mode, steps.skip(1));
            assert(Seq::<ModeCommand>::empty() + rest =~= rest);
        }
    }
}

/// The place of the guard in a session: the guard itself, or the mark of how
/// it went.
#[derive(Debug)]
enum GuardSlot {
    Held(RawModeGuard),
    Interrupted,
    Closed,
}

/// One scope of input capture. It is made from the guard and keeps it until
/// the request to stop is read or the session is torn down, whichever comes
/// first.
#[derive(Debug)]
pub struct TerminalInputSession {
    slot: GuardSlot,
}

impl TerminalInputSession {
    /// Where the session stands. It is active exactly while it holds its
    /// guard.
    pub closed spec fn spec_state(&self) -> SessionState {
        match self.slot {
            GuardSlot::Held(_) => SessionState::Active,
            GuardSlot::Interrupted => SessionState::Interrupted,
            GuardSlot::Closed => SessionState::Closed,
        }
    }

    /// A session that owns `guard`. It starts active.
    pub fn new(guard: RawModeGuard) -> (session: TerminalInputSession)
        ensures
            session.spec_state() == SessionState::Active,
    {
        TerminalInputSession { slot: GuardSlot::Held(guard) }
    }

    /// Where the session stands.
    #[verifier::when_used_as_spec(spec_state)]
    pub fn state(&self) -> (state: SessionState)
        ensures
            state == self.spec_state(),
    {
        match self.slot {
            GuardSlot::Held(_) => SessionState::Active,
            GuardSlot::Interrupted => SessionState::Interrupted,
            GuardSlot::Closed => SessionState::Closed,
        }
    }

    /// Entering the scope: hands back the session itself. No guard is
    /// acquired and nothing changes, however often it is called.
    pub fn enter(&self) -> (session: &TerminalInputSession)
        ensures
            *session == *self,
    {
        self
    }

    /// Leaving the scope: says whether an error that is on its way out of the
    /// scope is to be swallowed, which it never is. The guard stays where it
    /// is; it goes with [`TerminalInputSession::teardown`].
    pub fn exit(&self, error_in_flight: bool) -> (swallow: bool)
        ensures
            !swallow,
    {
        false
    }

    /// Whether an event may be read: asked before the caller waits for the
    /// driver, so that a session without its guard fails at once.
    pub fn begin_read(&self) -> (ready: Result<(), InputError>)
        ensures
            ready is Ok <==> self.spec_state() == SessionState::Active,
            ready matches Err(error) ==> error == InputError::SessionMisuse,
    {
        match self.slot {
            GuardSlot::Held(_) => Ok(()),
            _ => Err(InputError::SessionMisuse),
        }
    }

    /// Takes the guard out of the slot, if it is there, and leaves `mark` in
    /// its place. Hands back the commands of the release, or none where the
    /// slot held no guard; then the slot stays as it was.
    fn vacate(&mut self, mark: SessionState) -> (commands: Vec<ModeCommand>)
        requires
            mark != SessionState::Active,
        ensures
            commands@ == commands_of_teardown(old(self).spec_state()),
            final(self).spec_state() == if old(self).spec_state() == SessionState::Active {
                mark
            } else {
                old(self).spec_state()
            },
    {
        let mut slot = match mark {
            SessionState::Interrupted => GuardSlot::Interrupted,
            _ => GuardSlot::Closed,
        };
        if let GuardSlot::Held(_) = self.slot {
            std::mem::swap(&mut self.slot, &mut slot);
        }
        match slot {
            GuardSlot::Held(guard) => guard.release(),
            _ => Vec::new(),
        }
    }

    /// Takes the one event that the driver delivered and answers with the
    /// normalised event or the error, and with the commands that the caller
    /// now has to carry out.
    ///
    /// On the request to stop an active session gives up its guard, becomes
    /// interrupted and answers [`InputError::Interrupt`] with the commands of
    /// the release. A session that is not active answers
    /// [`InputError::SessionMisuse`] and asks for nothing.
    pub fn read(&mut self, event: PrimitiveEvent) -> (answer: (
        Result<NormalizedEvent, InputError>,
        Vec<ModeCommand>,
    ))
        ensures
            answer.0 == read_result(old(self).spec_state(), event),
            answer.1@ == commands_of_read(old(self).spec_state(), event),
            final(self).spec_state() == state_after_read(old(self).spec_state(), event),
            answer.0 matches Ok(normalized) ==> normalized.well_formed(),
    {
        if let GuardSlot::Held(_) = self.slot {
            if is_interrupt(event) {
                let commands = self.vacate(SessionState::Interrupted);
                (Err(InputError::Interrupt), commands)
            } else {
                (translate_event(event), Vec::new())
            }
        } else {
            (Err(InputError::SessionMisuse), Vec::new())
        }
    }

    /// Ends the session. An active session gives up its guard and hands back
    /// the commands of the release; any other session hands back none, so
    /// the driver is asked to restore the terminal once at most.
    pub fn teardown(&mut self) -> (commands: Vec<ModeCommand>)
        ensures
            commands@ == commands_of_teardown(old(self).spec_state()),
            final(self).spec_state() == state_after_teardown(old(self).spec_state()),
    {
        self.vacate(SessionState::Closed)
    }
}

} // verus!
