use vstd::prelude::*;

verus! {

/// A cardinal swipe direction.
#[derive(Debug, Clone, Copy, PartialEq, Eq, Structural)]
pub enum Direction {
    Up,
    Left,
    Right,
    Down,
}

/// The number that stands for a direction when it travels as a plain value.
pub open spec fn direction_value(d: Direction) -> u8 {
    match d {
        Direction::Up => 0,
        Direction::Left => 1,
        Direction::Right => 2,
        Direction::Down => 3,
    }
}

impl Direction {
    /// The direction as a plain number (Up 0, Left 1, Right 2, Down 3).
    pub fn as_value(&self) -> (r: u8)
        ensures
            r == direction_value(*self),
    {
        match self {
            Direction::Up => 0,
            Direction::Left => 1,
            Direction::Right => 2,
            Direction::Down => 3,
        }
    }

    /// The direction that a plain number stands for, if any.
    pub fn from_value(v: u8) -> (r: Option<Direction>)
        ensures
            r matches Some(d) ==> direction_value(d) == v,
            r is None <==> v > 3,
    {
        match v {
            0 => Some(Direction::Up),
            1 => Some(Direction::Left),
            2 => Some(Direction::Right),
            3 => Some(Direction::Down),
            _ => None,
        }
    }
}

/// The thresholds of swipe classification. Offsets are measured in the
/// same unit as `min_distance` and `min_increment` (pixels by default).
#[derive(Debug, Clone, Copy, PartialEq, Eq, Structural)]
pub struct GestureConfig {
    /// An interaction is claimed as a swipe once its offset reaches this
    /// far along either axis.
    pub min_distance: u32,
    /// The tangent of the angle tolerance, as `tolerance_num / tolerance_den`:
    /// a movement resolves to a direction when it is no further than that
    /// angle from the direction's axis.
    pub tolerance_num: u32,
    pub tolerance_den: u32,
    /// A claimed swipe repeats each time it has moved this far (Euclidean)
    /// from where it last fired.
    pub min_increment: u32,
    /// Milliseconds after which a still unclaimed interaction is pressed.
    pub hold_term_ms: u64,
}

/// The smallest offset that claims a swipe, by default.
pub const SWIPE_MIN_DISTANCE: u32 = 3;

/// The default angle tolerance, 25 degrees, as a tangent: 0.4663.
pub const SWIPE_TOLERANCE_NUM: u32 = 4663;

pub const SWIPE_TOLERANCE_DEN: u32 = 10000;

/// The distance a swipe must move to repeat, by default.
pub const SWIPE_MIN_INCREMENT: u32 = 5;

/// How long a stationary interaction waits before it is held, by default.
pub const HOLD_TERM_MS: u64 = 500;

impl GestureConfig {
    /// The default thresholds.
    pub fn new() -> (r: GestureConfig)
        ensures
            r.min_distance == SWIPE_MIN_DISTANCE,
            r.tolerance_num == SWIPE_TOLERANCE_NUM,
            r.tolerance_den == SWIPE_TOLERANCE_DEN,
            r.min_increment == SWIPE_MIN_INCREMENT,
            r.hold_term_ms == HOLD_TERM_MS,
    {
        GestureConfig {
            min_distance: SWIPE_MIN_DISTANCE,
            tolerance_num: SWIPE_TOLERANCE_NUM,
            tolerance_den: SWIPE_TOLERANCE_DEN,
            min_increment: SWIPE_MIN_INCREMENT,
            hold_term_ms: HOLD_TERM_MS,
        }
    }
}

pub open spec fn abs(v: int) -> int {
    if v < 0 {
        -v
    } else {
        v
    }
}

/// A movement of `along` on an axis and `across` off it lies within the
/// angle tolerance of that axis, in its positive direction.
pub open spec fn within_tolerance(c: GestureConfig, along: int, across: int) -> bool {
    along > 0 && abs(across) * c.tolerance_den <= along * c.tolerance_num
}

/// The direction of a movement `(x, y)`, with `y` growing downwards: the
/// cardinal direction whose axis it lies within tolerance of, or none when
/// it is near no axis or, with a tolerance of 45 degrees or more, near two.
pub open spec fn direction_of(c: GestureConfig, x: int, y: int) -> Option<Direction> {
    let vertical = if within_tolerance(c, -y, x) {
        Some(Direction::Up)
    } else if within_tolerance(c, y, x) {
        Some(Direction::Down)
    } else {
        None::<Direction>
    };
    let horizontal = if within_tolerance(c, x, y) {
        Some(Direction::Right)
    } else if within_tolerance(c, -x, y) {
        Some(Direction::Left)
    } else {
        None::<Direction>
    };
    match (vertical, horizontal) {
        (Some(v), None) => Some(v),
        (None, Some(h)) => Some(h),
        _ => None,
    }
}

/// The movement `(x, y)` lies within the angle tolerance of the axis of
/// `d`, its boundary included.
pub open spec fn near_axis(c: GestureConfig, d: Direction, x: int, y: int) -> bool {
    match d {
        Direction::Up => within_tolerance(c, -y, x),
        Direction::Down => within_tolerance(c, y, x),
        Direction::Right => within_tolerance(c, x, y),
        Direction::Left => within_tolerance(c, -x, y),
    }
}

/// A movement goes to a direction exactly when it lies within the
/// tolerance of that direction's axis, boundary included, and of no other
/// axis: the boundary belongs to the axis, and a movement near two axes
/// goes to none.
pub proof fn lemma_direction_buckets(c: GestureConfig, x: int, y: int, d: Direction)
    ensures
        direction_of(c, x, y) == Some(d) <==> (near_axis(c, d, x, y) && forall|e: Direction|
            e != d ==> !#[trigger] near_axis(c, e, x, y)),
{
    if direction_of(c, x, y) == Some(d) {
        assert forall|e: Direction| e != d implies !#[trigger] near_axis(c, e, x, y) by {
            match e {
                Direction::Up => {},
                Direction::Down => {},
                Direction::Right => {},
                Direction::Left => {},
            }
        }
    }
    if near_axis(c, d, x, y) && forall|e: Direction| e != d ==> !#[trigger] near_axis(c, e, x, y) {
        assert(!near_axis(c, Direction::Up, x, y) || d == Direction::Up);
        assert(!near_axis(c, Direction::Down, x, y) || d == Direction::Down);
        assert(!near_axis(c, Direction::Right, x, y) || d == Direction::Right);
        assert(!near_axis(c, Direction::Left, x, y) || d == Direction::Left);
    }
}

/// An offset from where the interaction began claims a swipe.
pub open spec fn reaches_swipe(c: GestureConfig, x: int, y: int) -> bool {
    abs(x) >= c.min_distance || abs(y) >= c.min_distance
}

/// A claimed swipe has moved far enough from `(last_x, last_y)` to repeat.
pub open spec fn reaches_increment(c: GestureConfig, x: int, y: int, last_x: int, last_y: int) -> bool {
    (x - last_x) * (x - last_x) + (y - last_y) * (y - last_y) >= c.min_increment * c.min_increment
}

/// Largest magnitude of a difference of two `i32` values.
pub open spec fn delta_bound() -> int {
    0x1_0000_0000
}

proof fn lemma_product_bound(a: int, b: int)
    requires
        0 <= a <= delta_bound(),
        0 <= b <= delta_bound(),
    ensures
        0 <= a * b <= delta_bound() * delta_bound(),
{
    assert(0 <= a * b <= delta_bound() * delta_bound()) by (nonlinear_arith)
        requires
            0 <= a <= delta_bound(),
            0 <= b <= delta_bound(),
    ;
}

fn within(c: &GestureConfig, along: i64, across: i64) -> (r: bool)
    requires
        -delta_bound() <= along <= delta_bound(),
        -delta_bound() <= across <= delta_bound(),
    ensures
        r == within_tolerance(*c, along as int, across as int),
{
    if along <= 0 {
        return false;
    }
    let a: i64 = if across < 0 { -across } else { across };
    proof {
        lemma_product_bound(a as int, c.tolerance_den as int);
        lemma_product_bound(along as int, c.tolerance_num as int);
    }
    (a as u128) * (c.tolerance_den as u128) <= (along as u128) * (c.tolerance_num as u128)
}

/// The direction of the movement `(x, y)`.
pub fn direction(c: &GestureConfig, x: i64, y: i64) -> (r: Option<Direction>)
    requires
        -delta_bound() <= x <= delta_bound(),
        -delta_bound() <= y <= delta_bound(),
    ensures
        r == direction_of(*c, x as int, y as int),
{
    let vertical = if within(c, -y, x) {
        Some(Direction::Up)
    } else if within(c, y, x) {
        Some(Direction::Down)
    } else {
        None
    };
    let horizontal = if within(c, x, y) {
        Some(Direction::Right)
    } else if within(c, -x, y) {
        Some(Direction::Left)
    } else {
        None
    };
    match (vertical, horizontal) {
        (Some(v), None) => Some(v),
        (None, Some(h)) => Some(h),
        _ => None,
    }
}

/// Whether the offset `(x, y)` from the start of an interaction claims a
/// swipe, and its direction if it does.
pub fn did_swipe(c: &GestureConfig, x: i32, y: i32) -> (r: (bool, Option<Direction>))
    ensures
        r.0 == reaches_swipe(*c, x as int, y as int),
        r.1 == (if r.0 {
            direction_of(*c, x as int, y as int)
        } else {
            None
        }),
{
    let ax: i64 = if x < 0 { -(x as i64) } else { x as i64 };
    let ay: i64 = if y < 0 { -(y as i64) } else { y as i64 };
    let swiped = ax >= c.min_distance as i64 || ay >= c.min_distance as i64;
    if swiped {
        (true, direction(c, x as i64, y as i64))
    } else {
        (false, None)
    }
}

/// The squared Euclidean distance between two points.
pub fn distance_squared(x1: i32, y1: i32, x2: i32, y2: i32) -> (r: u128)
    ensures
        r == (x2 - x1) * (x2 - x1) + (y2 - y1) * (y2 - y1),
{
    let dx: i64 = x2 as i64 - x1 as i64;
    let dy: i64 = y2 as i64 - y1 as i64;
    let ax: u64 = if dx < 0 { (-dx) as u64 } else { dx as u64 };
    let ay: u64 = if dy < 0 { (-dy) as u64 } else { dy as u64 };
    proof {
        lemma_product_bound(ax as int, ax as int);
        lemma_product_bound(ay as int, ay as int);
        assert(ax * ax == dx * dx) by (nonlinear_arith)
            requires
                ax == abs(dx as int),
        ;
        assert(ay * ay == dy * dy) by (nonlinear_arith)
            requires
                ay == abs(dy as int),
        ;
    }
    (ax as u128) * (ax as u128) + (ay as u128) * (ay as u128)
}

/// Whether a claimed swipe that last fired at `last` has moved far enough
/// to `pos` to fire again, and the direction of that increment if so.
pub fn did_swipe_increment(c: &GestureConfig, pos: (i32, i32), last: (i32, i32)) -> (r: (
    bool,
    Option<Direction>,
))
    ensures
        r.0 == reaches_increment(*c, pos.0 as int, pos.1 as int, last.0 as int, last.1 as int),
        r.1 == (if r.0 {
            direction_of(*c, pos.0 - last.0, pos.1 - last.1)
        } else {
            None
        }),
{
    let (x, y) = pos;
    let (last_x, last_y) = last;
    let dist = distance_squared(last_x, last_y, x, y);
    proof {
        lemma_product_bound(c.min_increment as int, c.min_increment as int);
    }
    let inc = (c.min_increment as u128) * (c.min_increment as u128);
    if dist >= inc {
        let dx: i64 = x as i64 - last_x as i64;
        let dy: i64 = y as i64 - last_y as i64;
        (true, direction(c, dx, dy))
    } else {
        (false, None)
    }
}


/// Where one interaction stands.
#[derive(Debug, Clone, Copy, PartialEq, Eq, Structural)]
pub enum KeyState {
    /// No interaction.
    Idle,
    /// Begun, not yet classified.
    Unclaimed,
    /// Claimed as a tap or a hold.
    Pressed,
    /// Claimed as a swipe, which last fired at this offset.
    Swiping { x: i32, y: i32 },
}

impl KeyState {
    /// The interaction can still be claimed as a press.
    pub fn can_press(&self) -> (r: bool)
        ensures
            r == (*self == KeyState::Unclaimed),
    {
        matches!(self, KeyState::Unclaimed)
    }

    /// The interaction can still be claimed as a swipe.
    pub fn can_swipe(&self) -> (r: bool)
        ensures
            r == (*self == KeyState::Unclaimed),
    {
        matches!(self, KeyState::Unclaimed)
    }

    /// The offset at which a claimed swipe last fired.
    pub fn last_swipe_offset(&self) -> (r: Option<(i32, i32)>)
        ensures
            r == (match *self {
                KeyState::Swiping { x, y } => Some((x, y)),
                _ => None,
            }),
    {
        match *self {
            KeyState::Swiping { x, y } => Some((x, y)),
            _ => None,
        }
    }
}

/// A classified event of an interaction.
#[derive(Debug, Clone, Copy, PartialEq, Eq, Structural)]
pub enum GestureEvent {
    /// The interaction was claimed as a tap or a hold.
    TapPressed,
    /// The interaction was claimed as a swipe in a direction.
    SwipePressed(Direction),
    /// A claimed swipe moved on far enough to fire again.
    SwipeRepeated(Direction),
    /// The interaction ended.
    Released,
    /// Every move: the change since the last sample (`dy` positive upwards)
    /// and the offset from the start.
    FreeMove { dx: i64, dy: i64, x: i32, y: i32 },
}

/// Classifies one interaction on one key at a time: begin, moves, end.
///
/// A hold timer, run by the caller, races the swipe threshold: whichever
/// comes first claims the interaction.
#[derive(Debug, Clone, Copy)]
pub struct Recognizer {
    pub config: GestureConfig,
    pub state: KeyState,
    /// The offset of the last move sample.
    pub last_position: (i32, i32),
    /// Names the current interaction, so that a hold timer of an earlier
    /// one is told apart.
    pub interaction: u64,
}

/// The name of the interaction after `t`.
pub open spec fn next_interaction(t: u64) -> u64 {
    if t == u64::MAX {
        0
    } else {
        (t + 1) as u64
    }
}

/// The recognizer once an interaction has begun.
pub open spec fn begin_spec(r: Recognizer) -> Recognizer {
    Recognizer { state: KeyState::Unclaimed, interaction: next_interaction(r.interaction), ..r }
}

/// The hold timer of interaction `token` has fired.
pub open spec fn hold_spec(r: Recognizer, token: u64) -> (Recognizer, Option<GestureEvent>) {
    if token == r.interaction && r.state == KeyState::Unclaimed {
        (Recognizer { state: KeyState::Pressed, ..r }, Some(GestureEvent::TapPressed))
    } else {
        (r, None)
    }
}

/// A move sample at offset `(x, y)` from where the interaction began.
pub open spec fn move_spec(r: Recognizer, x: i32, y: i32) -> (Recognizer, Seq<GestureEvent>) {
    let free = GestureEvent::FreeMove {
        dx: (x - r.last_position.0) as i64,
        dy: (r.last_position.1 - y) as i64,
        x,
        y,
    };
    let moved = Recognizer { last_position: (x, y), ..r };
    if r.state == KeyState::Unclaimed && reaches_swipe(r.config, x as int, y as int) {
        let swiping = Recognizer { state: KeyState::Swiping { x, y }, ..moved };
        match direction_of(r.config, x as int, y as int) {
            Some(d) => (swiping, seq![free, GestureEvent::SwipePressed(d)]),
            None => (swiping, seq![free]),
        }
    } else {
        match r.state {
            KeyState::Swiping { x: lx, y: ly } => {
                if reaches_increment(r.config, x as int, y as int, lx as int, ly as int) {
                    let swiping = Recognizer { state: KeyState::Swiping { x, y }, ..moved };
                    match direction_of(r.config, x - lx, y - ly) {
                        Some(d) => (swiping, seq![free, GestureEvent::SwipeRepeated(d)]),
                        None => (swiping, seq![free]),
                    }
                } else {
                    (moved, seq![free])
                }
            },
            _ => (moved, seq![free]),
        }
    }
}

/// The interaction has ended.
pub open spec fn end_spec(r: Recognizer) -> (Recognizer, Seq<GestureEvent>) {
    let idle = Recognizer { state: KeyState::Idle, last_position: (0, 0), ..r };
    if r.state == KeyState::Unclaimed {
        (idle, seq![GestureEvent::TapPressed, GestureEvent::Released])
    } else {
        (idle, seq![GestureEvent::Released])
    }
}

impl Recognizer {
    /// An idle recognizer.
    pub open spec fn new_spec(config: GestureConfig) -> Recognizer {
        Recognizer { config, state: KeyState::Idle, last_position: (0, 0), interaction: 0 }
    }

    /// An idle recognizer.
    pub fn new(config: GestureConfig) -> (r: Recognizer)
        ensures
            r == Recognizer::new_spec(config),
    {
        Recognizer { config, state: KeyState::Idle, last_position: (0, 0), interaction: 0 }
    }

    /// Begins an interaction. The caller starts the hold timer with the
    /// returned name and hands that name back when the timer fires.
    pub fn begin(&mut self) -> (token: u64)
        ensures
            *final(self) == begin_spec(*old(self)),
            token == final(self).interaction,
    {
        self.state = KeyState::Unclaimed;
        self.interaction = if self.interaction == u64::MAX {
            0
        } else {
            self.interaction + 1
        };
        self.interaction
    }

    /// The hold timer of interaction `token` has fired: an interaction of
    /// that name that is still unclaimed is claimed as a press.
    pub fn hold_elapsed(&mut self, token: u64) -> (e: Option<GestureEvent>)
        ensures
            (*final(self), e) == hold_spec(*old(self), token),
    {
        if token == self.interaction && self.state.can_press() {
            self.state = KeyState::Pressed;
            Some(GestureEvent::TapPressed)
        } else {
            None
        }
    }

    /// A hold timer is still of use: the interaction is unclaimed.
    pub fn hold_pending(&self) -> (r: bool)
        ensures
            r == (self.state == KeyState::Unclaimed),
    {
        self.state.can_press()
    }

    /// A move sample at offset `(x, y)` from where the interaction began.
    /// Always reports the free movement; may claim or repeat a swipe.
    pub fn moved(&mut self, x: i32, y: i32) -> (events: Vec<GestureEvent>)
        ensures
            (*final(self), events@) == move_spec(*old(self), x, y),
    {
        let (last_x, last_y) = self.last_position;
        let delta_x: i64 = x as i64 - last_x as i64;
        let delta_y: i64 = last_y as i64 - y as i64;
        let mut events: Vec<GestureEvent> = Vec::new();
        events.push(GestureEvent::FreeMove { dx: delta_x, dy: delta_y, x, y });
        self.last_position = (x, y);
        let (swiped, dir) = did_swipe(&self.config, x, y);
        if swiped && self.state.can_swipe() {
            self.state = KeyState::Swiping { x, y };
            if let Some(d) = dir {
                events.push(GestureEvent::SwipePressed(d));
            }
        } else if let Some(last) = self.state.last_swipe_offset() {
            let (repeat, dir) = did_swipe_increment(&self.config, (x, y), last);
            if repeat {
                self.state = KeyState::Swiping { x, y };
                if let Some(d) = dir {
                    events.push(GestureEvent::SwipeRepeated(d));
                }
            }
        }
        proof {
            let (_, se) = move_spec(*old(self), x, y);
            assert(events@ =~= se);
        }
        events
    }

    /// Ends the interaction: an unclaimed one is a tap. The recognizer is
    /// idle afterwards, whatever came before.
    pub fn end(&mut self) -> (events: Vec<GestureEvent>)
        ensures
            (*final(self), events@) == end_spec(*old(self)),
    {
        let mut events: Vec<GestureEvent> = Vec::new();
        if self.state.can_press() {
            self.state = KeyState::Pressed;
            events.push(GestureEvent::TapPressed);
        }
        events.push(GestureEvent::Released);
        self.state = KeyState::Idle;
        self.last_position = (0, 0);
        proof {
            let (_, se) = end_spec(*old(self));
            assert(events@ =~= se);
        }
        events
    }
}


/// An optional event as a sequence of at most one.
pub open spec fn opt_events(e: Option<GestureEvent>) -> Seq<GestureEvent> {
    match e {
        Some(ev) => seq![ev],
        None => seq![],
    }
}

/// Hold timers fire with these names, in order.
pub open spec fn fire_holds(r: Recognizer, tokens: Seq<u64>) -> (Recognizer, Seq<GestureEvent>)
    decreases tokens.len(),
{
    if tokens.len() == 0 {
        (r, seq![])
    } else {
        let (r1, e) = hold_spec(r, tokens[0]);
        let (r2, es) = fire_holds(r1, tokens.subrange(1, tokens.len() as int));
        (r2, opt_events(e) + es)
    }
}

/// Move samples arrive, in order.
pub open spec fn run_moves(r: Recognizer, moves: Seq<(i32, i32)>) -> (Recognizer, Seq<GestureEvent>)
    decreases moves.len(),
{
    if moves.len() == 0 {
        (r, seq![])
    } else {
        let (r1, e) = move_spec(r, moves[0].0, moves[0].1);
        let (r2, es) = run_moves(r1, moves.subrange(1, moves.len() as int));
        (r2, e + es)
    }
}

proof fn lemma_fire_holds_shape(r: Recognizer, tokens: Seq<u64>)
    requires
        r.state == KeyState::Unclaimed || r.state == KeyState::Pressed,
    ensures
        ({
            let (r2, es) = fire_holds(r, tokens);
            &&& r2.state == KeyState::Unclaimed || r2.state == KeyState::Pressed
            &&& r.state == KeyState::Pressed ==> r2.state == KeyState::Pressed && es == Seq::<
                GestureEvent,
            >::empty()
            &&& r2.state == KeyState::Unclaimed ==> es == Seq::<GestureEvent>::empty()
            &&& (r.state == KeyState::Unclaimed && r2.state == KeyState::Pressed) ==> es == seq![
                GestureEvent::TapPressed,
            ]
        }),
    decreases tokens.len(),
{
    if tokens.len() > 0 {
        let (r1, e) = hold_spec(r, tokens[0]);
        lemma_fire_holds_shape(r1, tokens.subrange(1, tokens.len() as int));
        let (r2, es) = fire_holds(r1, tokens.subrange(1, tokens.len() as int));
        if r.state == KeyState::Unclaimed && r1.state == KeyState::Pressed {
            assert(opt_events(e) + es =~= seq![GestureEvent::TapPressed]);
        } else {
            assert(opt_events(e) + es =~= es);
        }
    }
}

/// An interaction without move samples is a tap: whatever hold timers
/// fire in it, of this interaction or of earlier ones, it gives exactly
/// one tap-pressed and then one released, and no swipe; the recognizer is
/// idle afterwards.
pub proof fn lemma_stationary_interaction_taps(r: Recognizer, tokens: Seq<u64>)
    ensures
        ({
            let (r1, held) = fire_holds(begin_spec(r), tokens);
            let (r2, ended) = end_spec(r1);
            &&& held + ended == seq![GestureEvent::TapPressed, GestureEvent::Released]
            &&& r2.state == KeyState::Idle
        }),
{
    let (r1, held) = fire_holds(begin_spec(r), tokens);
    lemma_fire_holds_shape(begin_spec(r), tokens);
    let (_, ended) = end_spec(r1);
    assert(held + ended =~= seq![GestureEvent::TapPressed, GestureEvent::Released]);
}

/// The event claims or repeats a swipe.
pub open spec fn is_swipe_event(e: GestureEvent) -> bool {
    e is SwipePressed || e is SwipeRepeated
}

/// Move samples that all stay short of the swipe threshold, in an
/// interaction not yet claimed as a swipe, never claim or repeat a swipe.
pub proof fn lemma_short_moves_never_swipe(r: Recognizer, moves: Seq<(i32, i32)>)
    requires
        !(r.state is Swiping),
        forall|i: int|
            0 <= i < moves.len() ==> !reaches_swipe(
                r.config,
                #[trigger] moves[i].0 as int,
                moves[i].1 as int,
            ),
    ensures
        ({
            let (r2, es) = run_moves(r, moves);
            &&& !(r2.state is Swiping)
            &&& forall|i: int| 0 <= i < es.len() ==> !is_swipe_event(#[trigger] es[i])
        }),
    decreases moves.len(),
{
    if moves.len() > 0 {
        let (r1, e) = move_spec(r, moves[0].0, moves[0].1);
        let rest = moves.subrange(1, moves.len() as int);
        assert forall|i: int| 0 <= i < rest.len() implies !reaches_swipe(
            r1.config,
            #[trigger] rest[i].0 as int,
            rest[i].1 as int,
        ) by {
            assert(rest[i] == moves[i + 1]);
        }
        lemma_short_moves_never_swipe(r1, rest);
        let (_, es) = run_moves(r1, rest);
        assert(!reaches_swipe(r.config, moves[0].0 as int, moves[0].1 as int));
        assert forall|i: int| 0 <= i < (e + es).len() implies !is_swipe_event(
            #[trigger] (e + es)[i],
        ) by {
            if i >= e.len() {
                assert((e + es)[i] == es[i - e.len()]);
            }
        }
    }
}

/// A move that reaches the swipe threshold straight to the right, in an
/// unclaimed interaction, claims a swipe to the right.
pub proof fn lemma_threshold_right_swipes_right(r: Recognizer, x: i32)
    requires
        r.state == KeyState::Unclaimed,
        x > 0,
        x >= r.config.min_distance,
    ensures
        move_spec(r, x, 0).1 == seq![
            GestureEvent::FreeMove {
                dx: (x - r.last_position.0) as i64,
                dy: (r.last_position.1 - 0) as i64,
                x,
                y: 0,
            },
            GestureEvent::SwipePressed(Direction::Right),
        ],
        move_spec(r, x, 0).0.state == (KeyState::Swiping { x, y: 0 }),
{
    assert(0 * r.config.tolerance_den <= x * r.config.tolerance_num) by (nonlinear_arith)
        requires
            x > 0,
            r.config.tolerance_num >= 0,
    ;
    assert(direction_of(r.config, x as int, 0) == Some(Direction::Right));
}

} // verus!
