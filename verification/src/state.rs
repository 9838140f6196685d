//! The simulation state and its mode state machine. One `State` owns the
//! whole recorded timeline, the player's coordinate, the outcome of the last
//! advance attempt, and the active mode; one call to `frame` consumes the
//! intents observed for one frame and performs exactly one transition.

use vstd::prelude::*;
use vstd::slice::slice_subrange;
use crate::time_input::{InstantIndex, ScrubOp, TimeInput, TimeInputModel, INSTANT_COUNT};
use crate::timeline::{Instant, PaletteIndex, Splat, SplatModel, SPLAT_COUNT};
use crate::xy::{clamped, stepped_down, stepped_up, x, y, Inner, MAX_H_INNER, MAX_W_INNER, X, Y};

verus! {

/// Splat tag for recorded selves and for the player while time flows.
pub const NORMAL_COLOUR: PaletteIndex = 6;

/// Splat tag for a player standing on a recorded self.
pub const PARADOX_COLOUR: PaletteIndex = 2;

/// Splat tag for the player in the main menu and in the collision mode.
pub const NEUTRAL_COLOUR: PaletteIndex = 0;

/// Splat tag for the player while scrubbing through history.
pub const EDITING_COLOUR: PaletteIndex = 1;

/// The player's current coordinate pair.
#[derive(Clone, Copy)]
pub struct Player {
    pub x: X,
    pub y: Y,
}

impl Player {
    /// Both coordinates lie within their axis bounds.
    pub open spec fn wf(self) -> bool {
        self.x.wf() && self.y.wf()
    }
}

impl Default for Player {
    fn default() -> (r: Self)
        ensures
            r.x@ == 0,
            r.y@ == 0,
    {
        Player { x: X::default(), y: Y::default() }
    }
}

/// How the last attempt to advance the timeline ended.
#[derive(Clone, Copy, Debug, PartialEq, Eq, Structural)]
pub enum AdvanceOutcome {
    Success,
    OutOfInstants,
    OutOfSplats,
}

impl Default for AdvanceOutcome {
    fn default() -> (r: Self)
        ensures
            r is Success,
    {
        AdvanceOutcome::Success
    }
}

/// Marker for a detected paradox: the player's cell coincides with a
/// recorded self at the instant being committed to.
#[derive(Clone, Copy)]
#[must_use]
pub struct CollisionError {}

/// Which part of the state machine is active.
#[derive(Clone, Copy)]
pub enum TimeMode {
    MainMenu,
    Flowing,
    Manipulating(TimeInput),
    Collision(CollisionError),
}

impl Default for TimeMode {
    fn default() -> (r: Self)
        ensures
            r is MainMenu,
    {
        TimeMode::MainMenu
    }
}

/// Which part of the state machine is active, as plain values.
pub enum TimeModeModel {
    MainMenu,
    Flowing,
    Manipulating(TimeInputModel),
    Collision,
}

impl View for TimeMode {
    type V = TimeModeModel;

    open spec fn view(&self) -> TimeModeModel {
        match *self {
            TimeMode::MainMenu => TimeModeModel::MainMenu,
            TimeMode::Flowing => TimeModeModel::Flowing,
            TimeMode::Manipulating(t) => TimeModeModel::Manipulating(t@),
            TimeMode::Collision(_) => TimeModeModel::Collision,
        }
    }
}

/// The discrete, already-debounced intents observed for one frame. The input
/// collaborator sets one flag per logical intent; the engine applies them with
/// a fixed priority, mode by mode.
#[derive(Clone, Copy)]
pub struct Intents {
    pub move_up: bool,
    pub move_down: bool,
    pub move_left: bool,
    pub move_right: bool,
    pub enter_edit_mode: bool,
    pub confirm: bool,
    pub scrub_up_10: bool,
    pub scrub_down_10: bool,
    pub scrub_left_1: bool,
    pub scrub_right_1: bool,
    pub add_100: bool,
    pub sub_100: bool,
    pub reset_scrub: bool,
}

impl Intents {
    /// No intent observed this frame.
    pub fn none() -> (r: Intents)
        ensures
            r == (Intents {
                move_up: false,
                move_down: false,
                move_left: false,
                move_right: false,
                enter_edit_mode: false,
                confirm: false,
                scrub_up_10: false,
                scrub_down_10: false,
                scrub_left_1: false,
                scrub_right_1: false,
                add_100: false,
                sub_100: false,
                reset_scrub: false,
            }),
    {
        Intents {
            move_up: false,
            move_down: false,
            move_left: false,
            move_right: false,
            enter_edit_mode: false,
            confirm: false,
            scrub_up_10: false,
            scrub_down_10: false,
            scrub_left_1: false,
            scrub_right_1: false,
            add_100: false,
            sub_100: false,
            reset_scrub: false,
        }
    }
}

/// What a whole simulation state holds, as plain values: every instant's
/// recorded splats, the current index, the player's cell, the last advance
/// outcome, and the active mode.
pub struct StateModel {
    pub instants: Seq<Seq<SplatModel>>,
    pub current: InstantIndex,
    pub player_x: Inner,
    pub player_y: Inner,
    pub last_outcome: AdvanceOutcome,
    pub time_mode: TimeModeModel,
}

impl StateModel {
    /// The timeline is fully allocated, no instant is over capacity, and the
    /// player is within bounds.
    pub open spec fn wf(self) -> bool {
        &&& self.instants.len() == INSTANT_COUNT
        &&& (forall|i: int|
            0 <= i < self.instants.len() ==> (#[trigger] self.instants[i]).len() <= SPLAT_COUNT)
        &&& self.player_x <= MAX_W_INNER
        &&& self.player_y <= MAX_H_INNER
    }

    /// A freshly constructed state: an empty timeline at index zero, the
    /// player at the given cell, no outcome yet, and the main menu active.
    pub open spec fn initial(px: Inner, py: Inner) -> StateModel {
        StateModel {
            instants: Seq::new(INSTANT_COUNT as nat, |i: int| Seq::<SplatModel>::empty()),
            current: 0,
            player_x: px,
            player_y: py,
            last_outcome: AdvanceOutcome::Success,
            time_mode: TimeModeModel::MainMenu,
        }
    }

    /// The splat the player would stamp right now, under the given tag.
    pub open spec fn player_splat(self, colour: PaletteIndex) -> SplatModel {
        SplatModel { x: self.player_x, y: self.player_y, colour }
    }

    /// Which instant the active mode views, if any: the current one while
    /// time flows, the candidate while scrubbing, none otherwise.
    pub open spec fn viewed_index(self) -> Option<InstantIndex> {
        match self.time_mode {
            TimeModeModel::MainMenu => None,
            TimeModeModel::Flowing => Some(self.current),
            TimeModeModel::Manipulating(t) => Some(t.candidate),
            TimeModeModel::Collision => None,
        }
    }

    /// The splats the active mode views: those of the viewed instant, or
    /// none at all in the main menu and in the collision mode.
    pub open spec fn viewed_splats(self) -> Seq<SplatModel> {
        match self.viewed_index() {
            Some(i) => self.instants[i as int],
            None => Seq::<SplatModel>::empty(),
        }
    }

    /// Whether some splat recorded at instant `idx` occupies the player's
    /// cell.
    pub open spec fn collides_at(self, idx: InstantIndex) -> bool {
        exists|i: int|
            0 <= i < self.instants[idx as int].len() && {
                let s = #[trigger] self.instants[idx as int][i];
                s.x == self.player_x && s.y == self.player_y
            }
    }

    /// Whether some viewed splat occupies the player's cell. Nothing is
    /// viewed in the main menu and the collision mode, so nothing collides.
    pub open spec fn collides(self) -> bool {
        match self.viewed_index() {
            Some(idx) => self.collides_at(idx),
            None => false,
        }
    }

    /// The tag the player's own splat is shown under: paradox-red on a
    /// collision, neutral in the main menu and the collision mode, normal
    /// while time flows, and an editing tag while scrubbing.
    pub open spec fn player_colour(self) -> PaletteIndex {
        if self.collides() {
            PARADOX_COLOUR
        } else {
            match self.time_mode {
                TimeModeModel::MainMenu => NEUTRAL_COLOUR,
                TimeModeModel::Flowing => NORMAL_COLOUR,
                TimeModeModel::Manipulating(_) => EDITING_COLOUR,
                TimeModeModel::Collision => NEUTRAL_COLOUR,
            }
        }
    }

    /// The state one advance attempt later. At the last index the attempt is
    /// refused outright; when the instant being left is already full it is
    /// refused too; otherwise the player's splat is recorded at the instant
    /// being left and the index moves forward. The outcome flag is always
    /// overwritten, and nothing else ever changes on a refusal.
    pub open spec fn advanced(self) -> StateModel {
        if self.current as int == INSTANT_COUNT - 1 {
            StateModel { last_outcome: AdvanceOutcome::OutOfInstants, ..self }
        } else if self.instants[self.current as int].len() >= SPLAT_COUNT {
            StateModel { last_outcome: AdvanceOutcome::OutOfSplats, ..self }
        } else {
            StateModel {
                instants: self.instants.update(
                    self.current as int,
                    self.instants[self.current as int].push(self.player_splat(NORMAL_COLOUR)),
                ),
                current: (self.current + 1) as InstantIndex,
                last_outcome: AdvanceOutcome::Success,
                ..self
            }
        }
    }

    /// The state one movement dispatch later: of the pressed directions only
    /// the first in the fixed priority up, down, left, right is applied, as
    /// one saturating step.
    pub open spec fn moved(self, i: Intents) -> StateModel {
        if i.move_up {
            StateModel { player_y: stepped_down(self.player_y), ..self }
        } else if i.move_down {
            StateModel { player_y: stepped_up(self.player_y, MAX_H_INNER), ..self }
        } else if i.move_left {
            StateModel { player_x: stepped_down(self.player_x), ..self }
        } else if i.move_right {
            StateModel { player_x: stepped_up(self.player_x, MAX_W_INNER), ..self }
        } else {
            self
        }
    }

    /// The state after committing a scrub: the current index becomes the
    /// candidate, and the collision check at that instant picks the next
    /// mode, Collision on a hit and Flowing otherwise.
    pub open spec fn confirmed(self, t: TimeInputModel) -> StateModel {
        StateModel {
            current: t.candidate,
            time_mode: if self.collides_at(t.candidate) {
                TimeModeModel::Collision
            } else {
                TimeModeModel::Flowing
            },
            ..self
        }
    }

    /// One whole frame: the intents observed are dispatched per the active
    /// mode. The main menu reacts to confirm alone. Flowing either snapshots
    /// a scrub accumulator on enter-edit, or advances once — stamping the
    /// cell the player held at the instant being left — and then applies the
    /// frame's movement, so the stamp records the prior position.
    /// Manipulating either commits on confirm or scrubs; Collision is
    /// terminal and ignores everything.
    pub open spec fn stepped(self, i: Intents) -> StateModel {
        match self.time_mode {
            TimeModeModel::MainMenu => if i.confirm {
                StateModel { time_mode: TimeModeModel::Flowing, ..self }
            } else {
                self
            },
            TimeModeModel::Flowing => if i.enter_edit_mode {
                StateModel {
                    time_mode: TimeModeModel::Manipulating(
                        TimeInputModel::started_at(self.current),
                    ),
                    ..self
                }
            } else {
                self.advanced().moved(i)
            },
            TimeModeModel::Manipulating(t) => if i.confirm {
                self.confirmed(t)
            } else {
                StateModel {
                    time_mode: TimeModeModel::Manipulating(scrubbed_by_intents(t, i)),
                    ..self
                }
            },
            TimeModeModel::Collision => self,
        }
    }
}

/// The scrub the intents of one frame ask of the accumulator, by the fixed
/// priority: up by ten, down by ten, left by one, right by one, add a
/// hundred, subtract a hundred, reset; only the first pressed one applies.
pub open spec fn scrubbed_by_intents(t: TimeInputModel, i: Intents) -> TimeInputModel {
    if i.scrub_up_10 {
        t.scrubbed(ScrubOp::Add(10))
    } else if i.scrub_down_10 {
        t.scrubbed(ScrubOp::Sub(10))
    } else if i.scrub_left_1 {
        t.scrubbed(ScrubOp::Sub(1))
    } else if i.scrub_right_1 {
        t.scrubbed(ScrubOp::Add(1))
    } else if i.add_100 {
        t.scrubbed(ScrubOp::Add(100))
    } else if i.sub_100 {
        t.scrubbed(ScrubOp::Sub(100))
    } else if i.reset_scrub {
        t.reset()
    } else {
        t
    }
}

/// From the main menu, only a confirm intent changes anything: it moves the
/// mode to Flowing and touches nothing else; every other set of intents
/// leaves the state exactly as it was.
pub proof fn lemma_main_menu_determinism(m: StateModel, i: Intents)
    requires
        m.time_mode is MainMenu,
    ensures
        i.confirm ==> m.stepped(i) == (StateModel { time_mode: TimeModeModel::Flowing, ..m }),
        !i.confirm ==> m.stepped(i) == m,
{
}

/// From Flowing, an enter-edit intent always snapshots the current index:
/// the next mode is Manipulating with the candidate and the anchor both at
/// `current`, and nothing else moves.
pub proof fn lemma_enter_edit_snapshot(m: StateModel, i: Intents)
    requires
        m.time_mode is Flowing,
        i.enter_edit_mode,
    ensures
        m.stepped(i).time_mode is Manipulating,
        (m.stepped(i).time_mode->Manipulating_0).candidate == m.current,
        (m.stepped(i).time_mode->Manipulating_0).anchor == m.current,
        m.stepped(i) == (StateModel { time_mode: m.stepped(i).time_mode, ..m }),
{
}

/// Confirming from Manipulating commits the candidate index; the next mode
/// is Collision exactly when a splat recorded at the committed instant
/// coincides with the player's cell, and Flowing otherwise. Nothing else
/// changes either way.
pub proof fn lemma_confirm_collision_symmetry(m: StateModel, i: Intents, t: TimeInputModel)
    requires
        m.time_mode == TimeModeModel::Manipulating(t),
        i.confirm,
    ensures
        m.stepped(i).current == t.candidate,
        m.stepped(i).time_mode is Collision <==> m.collides_at(t.candidate),
        !m.collides_at(t.candidate) ==> m.stepped(i).time_mode is Flowing,
        m.stepped(i) == (StateModel {
            current: t.candidate,
            time_mode: m.stepped(i).time_mode,
            ..m
        }),
{
}

/// The aggregate the engine runs on: the timeline, the current index, the
/// player, the last advance outcome, and the active mode.
pub struct State {
    instants: Vec<Instant>,
    current: InstantIndex,
    player: Player,
    last_outcome: AdvanceOutcome,
    time_mode: TimeMode,
}

impl View for State {
    type V = StateModel;

    closed spec fn view(&self) -> StateModel {
        StateModel {
            instants: self.instants@.map_values(|inst: Instant| inst@),
            current: self.current,
            player_x: self.player.x@,
            player_y: self.player.y@,
            last_outcome: self.last_outcome,
            time_mode: self.time_mode@,
        }
    }
}

/// A timeline's worth of empty instants, eagerly allocated.
fn empty_instants() -> (v: Vec<Instant>)
    ensures
        v@.len() == INSTANT_COUNT,
        forall|i: int| 0 <= i < v@.len() ==> (#[trigger] v@[i])@ == Seq::<SplatModel>::empty(),
{
    let mut v: Vec<Instant> = Vec::new();
    while v.len() < INSTANT_COUNT as usize
        invariant
            v@.len() <= INSTANT_COUNT,
            forall|i: int| 0 <= i < v@.len() ==> (#[trigger] v@[i])@ == Seq::<SplatModel>::empty(),
        decreases INSTANT_COUNT - v@.len(),
    {
        v.push(Instant::default());
    }
    v
}

impl State {
    /// Builds the state a run starts from. The two raw values are the
    /// uniform integers drawn once by the injected random source; each is
    /// clamped to its axis and becomes the player's initial cell.
    pub fn new(raw_x: Inner, raw_y: Inner) -> (r: State)
        ensures
            r@ == StateModel::initial(clamped(raw_x, MAX_W_INNER), clamped(raw_y, MAX_H_INNER)),
            r@.wf(),
    {
        let r = State {
            instants: empty_instants(),
            current: 0,
            player: Player { x: x(raw_x), y: y(raw_y) },
            last_outcome: AdvanceOutcome::Success,
            time_mode: TimeMode::MainMenu,
        };
        proof {
            assert(r@.instants =~~= StateModel::initial(
                clamped(raw_x, MAX_W_INNER),
                clamped(raw_y, MAX_H_INNER),
            ).instants);
        }
        r
    }

    /// Moves the player one step up; everything else stays put.
    pub fn move_up(&mut self)
        ensures
            final(self)@ == (StateModel { player_y: stepped_down(old(self)@.player_y), ..old(self)@ }),
    {
        self.player.y.decrement();
    }

    /// Moves the player one step down; everything else stays put.
    pub fn move_down(&mut self)
        ensures
            final(self)@ == (StateModel {
                player_y: stepped_up(old(self)@.player_y, MAX_H_INNER),
                ..old(self)@
            }),
    {
        self.player.y.increment();
    }

    /// Moves the player one step left; everything else stays put.
    pub fn move_left(&mut self)
        ensures
            final(self)@ == (StateModel { player_x: stepped_down(old(self)@.player_x), ..old(self)@ }),
    {
        self.player.x.decrement();
    }

    /// Moves the player one step right; everything else stays put.
    pub fn move_right(&mut self)
        ensures
            final(self)@ == (StateModel {
                player_x: stepped_up(old(self)@.player_x, MAX_W_INNER),
                ..old(self)@
            }),
    {
        self.player.x.increment();
    }

    /// A fresh accumulator for scrubbing: candidate and anchor both start at
    /// the current index.
    pub fn fresh_time_input(&self) -> (r: TimeInput)
        ensures
            r@ == TimeInputModel::started_at(self@.current),
    {
        TimeInput::new(self.current)
    }

    /// One attempt to advance the timeline, without touching the outcome
    /// flag; hands the outcome back instead.
    fn advance_time_inner(&mut self) -> (r: AdvanceOutcome)
        requires
            old(self)@.wf(),
        ensures
            final(self)@.wf(),
            r == old(self)@.advanced().last_outcome,
            final(self)@ == (StateModel {
                last_outcome: old(self)@.last_outcome,
                ..old(self)@.advanced()
            }),
    {
        // At the last index already: time cannot move further.
        if self.current as u32 == INSTANT_COUNT - 1 {
            return AdvanceOutcome::OutOfInstants;
        }
        let splat = Splat { x: self.player.x, y: self.player.y, colour: NORMAL_COLOUR };
        let idx = self.current as usize;
        let inst = &mut self.instants[idx];
        match inst.append(splat) {
            Err(_) => {
                proof {
                    assert(self@.instants =~~= old(self)@.instants);
                }
                AdvanceOutcome::OutOfSplats
            },
            Ok(()) => {
                self.current = self.current + 1;
                proof {
                    assert(self@.instants =~~= old(self)@.advanced().instants);
                }
                AdvanceOutcome::Success
            },
        }
    }

    /// Attempts one advance: the player's splat is recorded at the instant
    /// being left, then the index moves forward; a refusal leaves everything
    /// as it was. Either way the outcome flag records how it ended.
    pub fn advance_time(&mut self)
        requires
            old(self)@.wf(),
        ensures
            final(self)@.wf(),
            final(self)@ == old(self)@.advanced(),
    {
        let outcome = self.advance_time_inner();
        self.last_outcome = outcome;
    }

    /// Read-only view of the splats recorded at instant `index`; total for
    /// every index, since the timeline is fully allocated.
    pub fn view_instant(&self, index: InstantIndex) -> (r: &[Splat])
        requires
            self@.wf(),
        ensures
            r@.map_values(|s: Splat| s@) == self@.instants[index as int],
            r@.len() == self@.instants[index as int].len(),
    {
        self.instants[index as usize].view_splats()
    }

    /// The splats the active mode views: those of the current instant while
    /// time flows, those of the candidate instant while scrubbing, and none
    /// at all in the main menu and in the collision mode.
    pub fn current_non_player_splats(&self) -> (r: &[Splat])
        requires
            self@.wf(),
        ensures
            r@.map_values(|s: Splat| s@) == self@.viewed_splats(),
            r@.len() == self@.viewed_splats().len(),
    {
        let viewed: InstantIndex = match self.time_mode {
            TimeMode::MainMenu | TimeMode::Collision(_) => {
                let r = slice_subrange(self.instants[0].view_splats(), 0, 0);
                proof {
                    assert(r@.map_values(|s: Splat| s@) =~= self@.viewed_splats());
                }
                return r;
            },
            TimeMode::Flowing => self.current,
            TimeMode::Manipulating(time_input) => time_input.get_value(),
        };
        self.instants[viewed as usize].view_splats()
    }

    /// Tests the player's cell against every splat the active mode views.
    /// Fails exactly when some viewed splat coincides with it; pure, with no
    /// side effect.
    pub fn check_collision(&self) -> (r: Result<(), CollisionError>)
        requires
            self@.wf(),
        ensures
            r is Err <==> self@.collides(),
    {
        let splats = self.current_non_player_splats();
        let px = self.player.x.get();
        let py = self.player.y.get();
        let ghost viewed = self@.viewed_splats();
        let mut i: usize = 0;
        while i < splats.len()
            invariant
                self@.wf(),
                splats@.map_values(|s: Splat| s@) == viewed,
                splats@.len() == viewed.len(),
                viewed == self@.viewed_splats(),
                px == self@.player_x,
                py == self@.player_y,
                0 <= i <= splats@.len(),
                forall|j: int|
                    0 <= j < i ==> !((#[trigger] viewed[j]).x == self@.player_x
                        && viewed[j].y == self@.player_y),
            decreases splats@.len() - i,
        {
            let s = splats[i];
            proof {
                assert(viewed[i as int] == splats@.map_values(|s: Splat| s@)[i as int]);
            }
            if s.x.get() == px && s.y.get() == py {
                proof {
                    let idx = self@.viewed_index()->Some_0;
                    assert(self@.instants[idx as int][i as int].x == self@.player_x
                        && self@.instants[idx as int][i as int].y == self@.player_y);
                }
                return Err(CollisionError {});
            }
            i = i + 1;
        }
        proof {
            if self@.collides() {
                let idx = self@.viewed_index()->Some_0;
                let j = choose|j: int|
                    0 <= j < self@.instants[idx as int].len()
                        && (#[trigger] self@.instants[idx as int][j]).x == self@.player_x
                        && self@.instants[idx as int][j].y == self@.player_y;
                assert(!(viewed[j].x == self@.player_x && viewed[j].y == self@.player_y));
            }
        }
        Ok(())
    }

    /// The read-only view handed to the renderer once per frame: the viewed
    /// splats and the player's own splat, tagged after the mode and the
    /// collision check. In the main menu and in the collision mode the splat
    /// slice is empty and the player's tag is the neutral one, whatever the
    /// timeline holds.
    pub fn current_splats(&self) -> (r: (&[Splat], Splat))
        requires
            self@.wf(),
        ensures
            r.0@.map_values(|s: Splat| s@) == self@.viewed_splats(),
            r.1@ == self@.player_splat(self@.player_colour()),
            self@.time_mode is MainMenu ==> r.0@.len() == 0 && r.1@.colour == NEUTRAL_COLOUR,
            self@.time_mode is Collision ==> r.0@.len() == 0 && r.1@.colour == NEUTRAL_COLOUR,
    {
        let colour: PaletteIndex = match self.check_collision() {
            Err(_) => PARADOX_COLOUR,
            Ok(()) => match self.time_mode {
                TimeMode::MainMenu => NEUTRAL_COLOUR,
                TimeMode::Flowing => NORMAL_COLOUR,
                TimeMode::Manipulating(_) => EDITING_COLOUR,
                TimeMode::Collision(_) => NEUTRAL_COLOUR,
            },
        };
        (
            self.current_non_player_splats(),
            Splat { x: self.player.x, y: self.player.y, colour },
        )
    }

    /// Runs one frame: dispatches the observed intents per the active mode
    /// and performs exactly one transition of the state machine.
    pub fn frame(&mut self, intents: Intents)
        requires
            old(self)@.wf(),
        ensures
            final(self)@.wf(),
            final(self)@ == old(self)@.stepped(intents),
    {
        match self.time_mode {
            TimeMode::MainMenu => {
                if intents.confirm {
                    self.time_mode = TimeMode::Flowing;
                }
            },
            TimeMode::Flowing => {
                if intents.enter_edit_mode {
                    let t = self.fresh_time_input();
                    self.time_mode = TimeMode::Manipulating(t);
                } else {
                    self.advance_time();
                    if intents.move_up {
                        self.move_up();
                    } else if intents.move_down {
                        self.move_down();
                    } else if intents.move_left {
                        self.move_left();
                    } else if intents.move_right {
                        self.move_right();
                    }
                }
            },
            TimeMode::Manipulating(time_input) => {
                if intents.confirm {
                    self.current = time_input.get_value();
                    match self.check_collision() {
                        Ok(()) => {
                            self.time_mode = TimeMode::Flowing;
                        },
                        Err(e) => {
                            self.time_mode = TimeMode::Collision(e);
                        },
                    }
                } else {
                    let mut t = time_input;
                    if intents.scrub_up_10 {
                        t.saturating_add(10);
                    } else if intents.scrub_down_10 {
                        t.saturating_sub(10);
                    } else if intents.scrub_left_1 {
                        t.saturating_sub(1);
                    } else if intents.scrub_right_1 {
                        t.saturating_add(1);
                    } else if intents.add_100 {
                        t.saturating_add(100);
                    } else if intents.sub_100 {
                        t.saturating_sub(100);
                    } else if intents.reset_scrub {
                        t.reset();
                    }
                    self.time_mode = TimeMode::Manipulating(t);
                }
            },
            TimeMode::Collision(_) => {},
        }
    }

    /// The index of the instant the timeline stands at.
    pub fn current_index(&self) -> (r: InstantIndex)
        ensures
            r == self@.current,
    {
        self.current
    }

    /// How the last advance attempt ended; it persists until the next one.
    pub fn last_outcome(&self) -> (r: AdvanceOutcome)
        ensures
            r == self@.last_outcome,
    {
        self.last_outcome
    }

    /// The active mode.
    pub fn time_mode(&self) -> (r: TimeMode)
        ensures
            r@ == self@.time_mode,
    {
        self.time_mode
    }

    /// The player's coordinate pair.
    pub fn player(&self) -> (r: Player)
        ensures
            r.x@ == self@.player_x,
            r.y@ == self@.player_y,
    {
        self.player
    }
}

impl Default for State {
    /// The zero state: an empty timeline, the player at the origin, the main
    /// menu active.
    fn default() -> (r: Self)
        ensures
            r@ == StateModel::initial(0, 0),
            r@.wf(),
    {
        State::new(0, 0)
    }
}

} // verus!
