//! Input events, the append-only event log with per-consumer read cursors,
//! and the press/release direction accumulator.
use vstd::prelude::*;

verus! {

/// A discrete input event, as delivered by the input layer.
/// Mouse deltas are in milli-pixels.
pub enum InputEvent {
    ActionPressed(String),
    ActionReleased(String),
    MouseMoved { delta_x: i32, delta_y: i32 },
}

/// The locomotion actions that the controller reacts to.
#[derive(PartialEq, Eq, Structural, Clone, Copy, Debug)]
pub enum Action {
    Forward,
    Backward,
    Left,
    Right,
    Jump,
}

/// Which action, if any, an action name denotes.
pub open spec fn action_of(name: Seq<char>) -> Option<Action> {
    if name == "Forward"@ {
        Some(Action::Forward)
    } else if name == "Backward"@ {
        Some(Action::Backward)
    } else if name == "Left"@ {
        Some(Action::Left)
    } else if name == "Right"@ {
        Some(Action::Right)
    } else if name == "Jump"@ {
        Some(Action::Jump)
    } else {
        None
    }
}

fn same_text(name: &String, text: &str) -> (r: bool)
    ensures
        r == (name@ == text@),
{
    let owned = text.to_owned();
    name.eq(&owned)
}

/// Maps an action name to its action.
pub fn action_from_name(name: &String) -> (r: Option<Action>)
    ensures
        r == action_of(name@),
{
    if same_text(name, "Forward") {
        Some(Action::Forward)
    } else if same_text(name, "Backward") {
        Some(Action::Backward)
    } else if same_text(name, "Left") {
        Some(Action::Left)
    } else if same_text(name, "Right") {
        Some(Action::Right)
    } else if same_text(name, "Jump") {
        Some(Action::Jump)
    } else {
        None
    }
}

/// Persistent direction accumulator: horizontal `x` and `z`, vertical `y`.
/// Each held action contributes one unit to its axis.
#[derive(PartialEq, Eq, Structural, Clone, Copy, Debug)]
pub struct DirectionInput {
    pub x: i32,
    pub y: i32,
    pub z: i32,
}

/// The unit contribution `(x, y, z)` that pressing an action adds.
pub open spec fn contribution(a: Action) -> (int, int, int) {
    match a {
        Action::Forward => (0, 0, -1),
        Action::Backward => (0, 0, 1),
        Action::Right => (-1, 0, 0),
        Action::Left => (1, 0, 0),
        Action::Jump => (0, 1, 0),
    }
}

/// Clamps `v` into the range of `i32`.
pub open spec fn saturate(v: int) -> int {
    if v > i32::MAX {
        i32::MAX as int
    } else if v < i32::MIN {
        i32::MIN as int
    } else {
        v
    }
}

/// The accumulator after adding `sign` times the contribution of `a`
/// (saturating at the bounds of `i32`).
pub open spec fn shifted(d: DirectionInput, a: Action, sign: int) -> DirectionInput {
    let c = contribution(a);
    DirectionInput {
        x: saturate(d.x + sign * c.0) as i32,
        y: saturate(d.y + sign * c.1) as i32,
        z: saturate(d.z + sign * c.2) as i32,
    }
}

/// The accumulator after one event: a press adds the contribution of its
/// action, a release subtracts it; anything else leaves it unchanged.
pub open spec fn after_event(d: DirectionInput, e: InputEvent) -> DirectionInput {
    match e {
        InputEvent::ActionPressed(name) => match action_of(name@) {
            Some(a) => shifted(d, a, 1),
            None => d,
        },
        InputEvent::ActionReleased(name) => match action_of(name@) {
            Some(a) => shifted(d, a, -1),
            None => d,
        },
        InputEvent::MouseMoved { .. } => d,
    }
}

/// The accumulator after the events of `es`, in order.
pub open spec fn after_events(d: DirectionInput, es: Seq<InputEvent>) -> DirectionInput
    decreases es.len(),
{
    if es.len() == 0 {
        d
    } else {
        after_event(after_events(d, es.drop_last()), es.last())
    }
}

fn saturating_step(v: i32, delta: i32) -> (r: i32)
    requires
        -1 <= delta <= 1,
    ensures
        r == saturate(v + delta),
{
    let t: i64 = v as i64 + delta as i64;
    if t > i32::MAX as i64 {
        i32::MAX
    } else if t < i32::MIN as i64 {
        i32::MIN
    } else {
        t as i32
    }
}

impl DirectionInput {
    /// The accumulator at rest: nothing held.
    pub fn zero() -> (r: DirectionInput)
        ensures
            r == (DirectionInput { x: 0, y: 0, z: 0 }),
    {
        DirectionInput { x: 0, y: 0, z: 0 }
    }

    fn shift(&mut self, a: Action, sign: i32)
        requires
            sign == 1 || sign == -1,
        ensures
            *final(self) == shifted(*old(self), a, sign as int),
    {
        let (dx, dy, dz): (i32, i32, i32) = match a {
            Action::Forward => (0, 0, -1),
            Action::Backward => (0, 0, 1),
            Action::Right => (-1, 0, 0),
            Action::Left => (1, 0, 0),
            Action::Jump => (0, 1, 0),
        };
        self.x = saturating_step(self.x, sign * dx);
        self.y = saturating_step(self.y, sign * dy);
        self.z = saturating_step(self.z, sign * dz);
    }

    /// Applies one input event to the accumulator.
    pub fn apply_event(&mut self, e: &InputEvent)
        ensures
            *final(self) == after_event(*old(self), *e),
    {
        match e {
            InputEvent::ActionPressed(name) => {
                if let Some(a) = action_from_name(name) {
                    self.shift(a, 1);
                }
            },
            InputEvent::ActionReleased(name) => {
                if let Some(a) = action_from_name(name) {
                    self.shift(a, -1);
                }
            },
            InputEvent::MouseMoved { .. } => {},
        }
    }
}

/// An append-only log of input events. Consumers read it through their own
/// [`ReaderId`], so several of them observe the same events independently.
/// Positions are absolute: events that every reader has passed may be
/// discarded without moving any position.
pub struct EventLog {
    first: usize,
    events: Vec<InputEvent>,
    discarded: Ghost<Seq<InputEvent>>,
}

impl View for EventLog {
    type V = Seq<InputEvent>;

    /// Every event ever appended, discarded ones included.
    closed spec fn view(&self) -> Seq<InputEvent> {
        self.discarded@ + self.events@
    }
}

/// A consumer's read position in an [`EventLog`].
pub struct ReaderId {
    offset: usize,
}

impl ReaderId {
    /// The index of the first event that this reader has not read yet.
    pub closed spec fn pos(&self) -> nat {
        self.offset as nat
    }

    /// The index of the first event that this reader has not read yet.
    pub fn position(&self) -> (r: usize)
        ensures
            r == self.pos(),
    {
        self.offset
    }
}

impl EventLog {
    /// The log's internal consistency.
    pub closed spec fn wf(&self) -> bool {
        &&& self.discarded@.len() == self.first
        &&& self.first + self.events@.len() <= usize::MAX
    }

    /// The index of the oldest event still held.
    pub closed spec fn first_kept(&self) -> nat {
        self.first as nat
    }

    /// An empty log.
    pub fn new() -> (r: EventLog)
        ensures
            r.wf(),
            r@ == Seq::<InputEvent>::empty(),
            r.first_kept() == 0,
    {
        let r = EventLog { first: 0, events: Vec::new(), discarded: Ghost(Seq::empty()) };
        assert(r@ =~= Seq::<InputEvent>::empty());
        r
    }

    /// Appends an event at the end of the log.
    pub fn push(&mut self, e: InputEvent)
        requires
            old(self).wf(),
            old(self)@.len() < usize::MAX,
        ensures
            final(self).wf(),
            final(self)@ == old(self)@.push(e),
            final(self).first_kept() == old(self).first_kept(),
    {
        self.events.push(e);
        assert(self@ =~= old(self)@.push(e));
    }

    /// The number of events ever appended.
    pub fn len(&self) -> (r: usize)
        requires
            self.wf(),
        ensures
            r == self@.len(),
    {
        self.first + self.events.len()
    }

    /// The event at index `i`, which must not have been discarded.
    pub fn event(&self, i: usize) -> (r: &InputEvent)
        requires
            self.wf(),
            self.first_kept() <= i < self@.len(),
        ensures
            *r == self@[i as int],
    {
        &self.events[i - self.first]
    }

    /// A new reader, which will see the events appended from now on.
    pub fn register_reader(&self) -> (r: ReaderId)
        requires
            self.wf(),
        ensures
            r.pos() == self@.len(),
            self.first_kept() <= r.pos(),
    {
        ReaderId { offset: self.first + self.events.len() }
    }

    /// The unread range `[start, end)` of `reader`; the reader moves past it.
    pub fn read(&self, reader: &mut ReaderId) -> (r: (usize, usize))
        requires
            self.wf(),
            old(reader).pos() <= self@.len(),
        ensures
            r.0 == old(reader).pos(),
            r.1 == self@.len(),
            final(reader).pos() == self@.len(),
    {
        let start = reader.offset;
        let end = self.first + self.events.len();
        reader.offset = end;
        (start, end)
    }

    /// Drops the events before `pos`, the oldest position of a live reader,
    /// so that the log holds only what some reader has yet to read.
    pub fn discard_before(&mut self, pos: usize)
        requires
            old(self).wf(),
            old(self).first_kept() <= pos <= old(self)@.len(),
        ensures
            final(self).wf(),
            final(self)@ == old(self)@,
            final(self).first_kept() == pos,
    {
        let k: usize = pos - self.first;
        let kept = self.events.split_off(k);
        let ghost dropped = self.events@;
        self.events = kept;
        self.discarded = Ghost(self.discarded@ + dropped);
        self.first = pos;
        assert(self@ =~= old(self)@);
    }
}

/// Pressing then releasing the same action gives back exactly the accumulator
/// that was there before, whenever no axis sits at a bound of `i32`.
pub proof fn press_release_round_trip(d: DirectionInput, name: String)
    requires
        i32::MIN < d.x < i32::MAX,
        i32::MIN < d.y < i32::MAX,
        i32::MIN < d.z < i32::MAX,
    ensures
        after_event(
            after_event(d, InputEvent::ActionPressed(name)),
            InputEvent::ActionReleased(name),
        ) == d,
{
}

} // verus!
