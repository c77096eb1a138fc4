//! Grab gesture tracking: picks at most one acting input source per frame,
//! with hysteresis, and turns its motion into a drag offset.
use vstd::prelude::*;
use crate::solar_sailer::Mode;
use crate::vector::{Vec3i, POSITION_LIMIT};

verus! {

/// What kind of device an input sample comes from.
#[derive(Debug, Clone, Copy, PartialEq, Eq, Structural)]
pub enum SourceKind {
    Hand,
    Tip,
    /// A far-pointing ray; it never takes part in the grab gesture.
    Pointer,
}

/// The auxiliary signal that decides whether a source grabs.
#[derive(Debug, Clone, Copy, PartialEq, Eq, Structural)]
pub enum Signal {
    /// Grab strength or trigger value, in thousandths (0 to 1000).
    Strength(u32),
    /// Strength of a secondary precision grab, in thousandths.
    PrecisionStrength(u32),
    /// Thumb-tip to index-tip distance of a precision grab, in micrometres.
    Distance(u64),
}

/// One candidate input source as seen in one frame.
#[derive(Debug, Clone, Copy, PartialEq, Eq, Structural)]
pub struct InputSample {
    /// Identity of the source, stable across frames.
    pub id: u64,
    pub kind: SourceKind,
    /// Grab point in the stage frame, in micrometres.
    pub position: Vec3i,
    pub signal: Signal,
}

/// Engage and release thresholds on a strength signal, in thousandths.
#[derive(Debug, Clone, Copy, PartialEq, Eq, Structural)]
pub struct StrengthThresholds {
    pub engage: u32,
    pub release: u32,
}

/// Engage and release thresholds on a pinch distance, in micrometres.
#[derive(Debug, Clone, Copy, PartialEq, Eq, Structural)]
pub struct DistanceThresholds {
    pub engage: u64,
    pub release: u64,
}

/// The tuned constants of the grab heuristic.
#[derive(Debug, Clone, Copy, PartialEq, Eq, Structural)]
pub struct GrabConfig {
    pub hand: StrengthThresholds,
    pub tip: StrengthThresholds,
    pub precision: StrengthThresholds,
    pub pinch: DistanceThresholds,
}

impl GrabConfig {
    /// Engaging is strictly harder than staying engaged, for every signal.
    pub open spec fn wf(self) -> bool {
        &&& self.hand.engage > self.hand.release
        &&& self.tip.engage > self.tip.release
        &&& self.precision.engage > self.precision.release
        &&& self.pinch.engage < self.pinch.release
    }

    /// Hands and controllers engage above 0.9 and release below 0.75; a
    /// precision grab engages above 0.8 and releases below 0.65; a pinch
    /// engages under 3 cm and releases beyond 4.5 cm.
    pub fn standard() -> (r: GrabConfig)
        ensures
            r.wf(),
            r.hand == (StrengthThresholds { engage: 900, release: 750 }),
            r.tip == (StrengthThresholds { engage: 900, release: 750 }),
            r.precision == (StrengthThresholds { engage: 800, release: 650 }),
            r.pinch == (DistanceThresholds { engage: 30_000, release: 45_000 }),
    {
        GrabConfig {
            hand: StrengthThresholds { engage: 900, release: 750 },
            tip: StrengthThresholds { engage: 900, release: 750 },
            precision: StrengthThresholds { engage: 800, release: 650 },
            pinch: DistanceThresholds { engage: 30_000, release: 45_000 },
        }
    }
}

/// Whether a sample may take part in the grab gesture at all.
pub open spec fn eligible(s: InputSample) -> bool {
    !(s.kind is Pointer)
}

pub open spec fn strength_of(cfg: GrabConfig, kind: SourceKind) -> StrengthThresholds {
    if kind is Hand {
        cfg.hand
    } else {
        cfg.tip
    }
}

/// Whether an idle sample starts a grab.
pub open spec fn engages(cfg: GrabConfig, s: InputSample) -> bool {
    eligible(s) && match s.signal {
        Signal::Strength(v) => v > strength_of(cfg, s.kind).engage,
        Signal::PrecisionStrength(v) => v > cfg.precision.engage,
        Signal::Distance(d) => d < cfg.pinch.engage,
    }
}

/// Whether the acting sample keeps grabbing: it lets go only once its
/// signal falls below the release threshold (a pinch: once the distance
/// exceeds it).
pub open spec fn holds(cfg: GrabConfig, s: InputSample) -> bool {
    eligible(s) && match s.signal {
        Signal::Strength(v) => v >= strength_of(cfg, s.kind).release,
        Signal::PrecisionStrength(v) => v >= cfg.precision.release,
        Signal::Distance(d) => d <= cfg.pinch.release,
    }
}

/// Index of the first sample at or after `i` that engages.
pub open spec fn first_engaging(cfg: GrabConfig, s: Seq<InputSample>, i: int) -> Option<int>
    decreases s.len() - i,
{
    if i < 0 || i >= s.len() {
        None
    } else if engages(cfg, s[i]) {
        Some(i)
    } else {
        first_engaging(cfg, s, i + 1)
    }
}

/// Index of the first eligible sample at or after `i` from source `id`.
pub open spec fn find_source(s: Seq<InputSample>, id: u64, i: int) -> Option<int>
    decreases s.len() - i,
{
    if i < 0 || i >= s.len() {
        None
    } else if eligible(s[i]) && s[i].id == id {
        Some(i)
    } else {
        find_source(s, id, i + 1)
    }
}

/// Index of the sample that acts after a frame, given the acting source
/// before it: the actor stays while it holds, and only when there was none
/// may the first engaging sample become the actor.
pub open spec fn actor_index(cfg: GrabConfig, before: Option<u64>, s: Seq<InputSample>) -> Option<
    int,
> {
    match before {
        Some(a) => match find_source(s, a, 0) {
            Some(k) => if holds(cfg, s[k]) {
                Some(k)
            } else {
                None
            },
            None => None,
        },
        None => first_engaging(cfg, s, 0),
    }
}

/// The acting source after a frame.
pub open spec fn next_actor(cfg: GrabConfig, before: Option<u64>, s: Seq<InputSample>) -> Option<
    u64,
> {
    match actor_index(cfg, before, s) {
        Some(k) => Some(s[k].id),
        None => None,
    }
}

/// The eligible samples among the first `n` that are not from `actor`.
pub open spec fn hovering_prefix(s: Seq<InputSample>, actor: Option<u64>, n: int) -> Seq<
    InputSample,
>
    decreases n,
{
    if n <= 0 || n > s.len() {
        Seq::empty()
    } else {
        let rest = hovering_prefix(s, actor, n - 1);
        if eligible(s[n - 1]) && actor != Some(s[n - 1].id) {
            rest.push(s[n - 1])
        } else {
            rest
        }
    }
}

/// The eligible samples of a frame that are not the actor.
pub open spec fn hovering_of(s: Seq<InputSample>, actor: Option<u64>) -> Seq<InputSample> {
    hovering_prefix(s, actor, s.len() as int)
}

/// What changed about the actor in a frame.
#[derive(Debug, Clone, Copy, PartialEq, Eq, Structural)]
pub enum GrabEdge {
    /// No actor before or after.
    Idle,
    /// An actor appeared.
    Started,
    /// The same actor goes on.
    Acting,
    /// The actor let go.
    Stopped,
}

pub open spec fn edge_of(before: Option<u64>, after: Option<u64>) -> GrabEdge {
    match (before, after) {
        (None, None) => GrabEdge::Idle,
        (None, Some(_)) => GrabEdge::Started,
        (Some(_), Some(_)) => GrabEdge::Acting,
        (Some(_), None) => GrabEdge::Stopped,
    }
}

pub open spec fn positions_in_range(s: Seq<InputSample>) -> bool {
    forall|i: int| 0 <= i < s.len() ==> (#[trigger] s[i]).position.within(POSITION_LIMIT as int)
}

fn first_engaging_index(cfg: &GrabConfig, samples: &Vec<InputSample>) -> (r: Option<usize>)
    ensures
        match r {
            Some(k) => k < samples@.len() && first_engaging(*cfg, samples@, 0) == Some(k as int),
            None => first_engaging(*cfg, samples@, 0) == None::<int>,
        },
{
    let mut i: usize = 0;
    while i < samples.len()
        invariant
            i <= samples@.len(),
            first_engaging(*cfg, samples@, 0) == first_engaging(*cfg, samples@, i as int),
        decreases samples@.len() - i,
    {
        let s = samples[i];
        if sample_engages(cfg, &s) {
            return Some(i);
        }
        i = i + 1;
    }
    None
}

fn find_source_index(samples: &Vec<InputSample>, id: u64) -> (r: Option<usize>)
    ensures
        match r {
            Some(k) => k < samples@.len() && find_source(samples@, id, 0) == Some(k as int),
            None => find_source(samples@, id, 0) == None::<int>,
        },
{
    let mut i: usize = 0;
    while i < samples.len()
        invariant
            i <= samples@.len(),
            find_source(samples@, id, 0) == find_source(samples@, id, i as int),
        decreases samples@.len() - i,
    {
        let s = samples[i];
        if is_eligible(&s) && s.id == id {
            return Some(i);
        }
        i = i + 1;
    }
    None
}

fn is_eligible(s: &InputSample) -> (r: bool)
    ensures
        r == eligible(*s),
{
    match s.kind {
        SourceKind::Pointer => false,
        _ => true,
    }
}

fn strength_thresholds(cfg: &GrabConfig, kind: SourceKind) -> (r: StrengthThresholds)
    ensures
        r == strength_of(*cfg, kind),
{
    match kind {
        SourceKind::Hand => cfg.hand,
        _ => cfg.tip,
    }
}

/// Whether an idle sample starts a grab.
pub fn sample_engages(cfg: &GrabConfig, s: &InputSample) -> (r: bool)
    ensures
        r == engages(*cfg, *s),
{
    is_eligible(s) && match s.signal {
        Signal::Strength(v) => v > strength_thresholds(cfg, s.kind).engage,
        Signal::PrecisionStrength(v) => v > cfg.precision.engage,
        Signal::Distance(d) => d < cfg.pinch.engage,
    }
}

/// Whether the acting sample keeps grabbing.
pub fn sample_holds(cfg: &GrabConfig, s: &InputSample) -> (r: bool)
    ensures
        r == holds(*cfg, *s),
{
    is_eligible(s) && match s.signal {
        Signal::Strength(v) => v >= strength_thresholds(cfg, s.kind).release,
        Signal::PrecisionStrength(v) => v >= cfg.precision.release,
        Signal::Distance(d) => d <= cfg.pinch.release,
    }
}

fn hovering_samples(samples: &Vec<InputSample>, actor: Option<u64>) -> (r: Vec<InputSample>)
    ensures
        r@ == hovering_of(samples@, actor),
{
    let mut out: Vec<InputSample> = Vec::new();
    let mut i: usize = 0;
    while i < samples.len()
        invariant
            i <= samples@.len(),
            out@ == hovering_prefix(samples@, actor, i as int),
        decreases samples@.len() - i,
    {
        let s = samples[i];
        let not_actor = match actor {
            Some(a) => a != s.id,
            None => true,
        };
        if is_eligible(&s) && not_actor {
            out.push(s);
        }
        i = i + 1;
    }
    out
}


/// The drag offset of a frame, given the actor's position in the previous
/// frame and in this one: their difference, or nothing when either is
/// missing or they coincide.
pub open spec fn drag_offset(prev: Option<Vec3i>, current: Option<Vec3i>) -> Option<Vec3i> {
    match (prev, current) {
        (Some(p), Some(q)) => if p == q {
            None
        } else {
            Some(Vec3i { x: (q.x - p.x) as i64, y: (q.y - p.y) as i64, z: (q.z - p.z) as i64 })
        },
        _ => None,
    }
}

/// How a signifier is coloured.
#[derive(Debug, Clone, Copy, PartialEq, Eq, Structural)]
pub enum Tint {
    /// The source is grabbing.
    Grabbing,
    /// The source hovers while the play space itself is being moved.
    Offset,
    /// The source hovers.
    Plain,
}

/// A ring drawn around an input source to show that it can grab.
#[derive(Debug, Clone, Copy, PartialEq, Eq, Structural)]
pub struct Signifier {
    pub source: u64,
    pub kind: SourceKind,
    /// Ring radius in micrometres.
    pub radius: u64,
    pub tint: Tint,
}

pub open spec fn radius_of(kind: SourceKind) -> u64 {
    match kind {
        SourceKind::Hand => 100_000,
        SourceKind::Tip => 2_500,
        SourceKind::Pointer => 0,
    }
}

pub open spec fn tint_of(grabbing: bool, mode: Mode) -> Tint {
    if grabbing {
        Tint::Grabbing
    } else if mode is MonadoOffset {
        Tint::Offset
    } else {
        Tint::Plain
    }
}

pub open spec fn signifier_of(s: InputSample, grabbing: bool, mode: Mode) -> Signifier {
    Signifier { source: s.id, kind: s.kind, radius: radius_of(s.kind), tint: tint_of(grabbing, mode) }
}

/// One ring per hovering source, then one for the actor; none while
/// locomotion is disabled.
pub open spec fn signifiers_for(
    hovering: Seq<InputSample>,
    actor: Option<InputSample>,
    mode: Mode,
) -> Seq<Signifier> {
    if mode is Disabled {
        Seq::empty()
    } else {
        let rings = hovering.map_values(|s: InputSample| signifier_of(s, false, mode));
        match actor {
            Some(a) => rings.push(signifier_of(a, true, mode)),
            None => rings,
        }
    }
}

/// Grab-to-drag input: tracks the acting source and its previous position.
pub struct GrabInput {
    config: GrabConfig,
    actor: Option<InputSample>,
    hovering: Vec<InputSample>,
    edge: GrabEdge,
    prev_position: Option<Vec3i>,
}

impl GrabInput {
    pub closed spec fn config_view(&self) -> GrabConfig {
        self.config
    }

    /// The acting source's sample of the last frame.
    pub closed spec fn actor_view(&self) -> Option<InputSample> {
        self.actor
    }

    /// The eligible, non-acting samples of the last frame.
    pub closed spec fn hovering_view(&self) -> Seq<InputSample> {
        self.hovering@
    }

    pub closed spec fn edge_view(&self) -> GrabEdge {
        self.edge
    }

    /// The actor's position in the previous frame, that the drag offset is
    /// measured from.
    pub closed spec fn prev_position_view(&self) -> Option<Vec3i> {
        self.prev_position
    }

    pub open spec fn actor_id(&self) -> Option<u64> {
        match self.actor_view() {
            Some(s) => Some(s.id),
            None => None,
        }
    }

    pub open spec fn actor_position(&self) -> Option<Vec3i> {
        match self.actor_view() {
            Some(s) => Some(s.position),
            None => None,
        }
    }

    pub closed spec fn wf(&self) -> bool {
        &&& self.config.wf()
        &&& match self.actor {
            Some(s) => s.position.within(POSITION_LIMIT as int) && eligible(s),
            None => true,
        }
        &&& match self.prev_position {
            Some(p) => p.within(POSITION_LIMIT as int),
            None => true,
        }
        &&& forall|i: int|
            0 <= i < self.hovering@.len() ==> eligible(#[trigger] self.hovering@[i])
    }

    pub fn new(config: GrabConfig) -> (r: GrabInput)
        requires
            config.wf(),
        ensures
            r.wf(),
            r.config_view() == config,
            r.actor_view() == None::<InputSample>,
            r.hovering_view() == Seq::<InputSample>::empty(),
            r.edge_view() == GrabEdge::Idle,
            r.prev_position_view() == None::<Vec3i>,
    {
        GrabInput {
            config,
            actor: None,
            hovering: Vec::new(),
            edge: GrabEdge::Idle,
            prev_position: None,
        }
    }

    /// One frame of tracking from `self` to `next`: the actor stays while
    /// it holds, a new one may start only when there was none, and the
    /// previous position is left alone.
    pub open spec fn handled(self, next: GrabInput, samples: Seq<InputSample>) -> bool {
        &&& next.config_view() == self.config_view()
        &&& next.prev_position_view() == self.prev_position_view()
        &&& next.actor_view() == match actor_index(self.config_view(), self.actor_id(), samples) {
            Some(k) => Some(samples[k]),
            None => None,
        }
        &&& next.actor_id() == next_actor(self.config_view(), self.actor_id(), samples)
        &&& next.hovering_view() == hovering_of(samples, next.actor_id())
        &&& next.edge_view() == edge_of(self.actor_id(), next.actor_id())
    }

    /// One drag step from `self` to `next`, returning `r`.
    pub open spec fn wafted(self, next: GrabInput, r: Option<Vec3i>) -> bool {
        &&& r == drag_offset(self.prev_position_view(), self.actor_position())
        &&& next.prev_position_view() == self.actor_position()
        &&& next.config_view() == self.config_view()
        &&& next.actor_view() == self.actor_view()
        &&& next.hovering_view() == self.hovering_view()
        &&& next.edge_view() == self.edge_view()
    }

    /// Takes the samples of one frame and decides which source acts.
    pub fn handle_input(&mut self, samples: &Vec<InputSample>)
        requires
            old(self).wf(),
            positions_in_range(samples@),
        ensures
            final(self).wf(),
            old(self).handled(*final(self), samples@),
    {
        let before = match self.actor {
            Some(s) => Some(s.id),
            None => None,
        };
        let index = match before {
            Some(a) => match find_source_index(samples, a) {
                Some(k) => if sample_holds(&self.config, &samples[k]) {
                    Some(k)
                } else {
                    None
                },
                None => None,
            },
            None => first_engaging_index(&self.config, samples),
        };
        let after = match index {
            Some(k) => Some(samples[k]),
            None => None,
        };
        let after_id = match after {
            Some(s) => Some(s.id),
            None => None,
        };
        let hovering = hovering_samples(samples, after_id);
        proof {
            lemma_hovering_eligible(samples@, after_id, samples@.len() as int);
            lemma_first_engaging_range(self.config, samples@, 0);
            lemma_find_source_range(samples@, before.unwrap_or(0), 0);
        }
        self.edge = match (before, after_id) {
            (None, None) => GrabEdge::Idle,
            (None, Some(_)) => GrabEdge::Started,
            (Some(_), Some(_)) => GrabEdge::Acting,
            (Some(_), None) => GrabEdge::Stopped,
        };
        self.actor = after;
        self.hovering = hovering;
    }

    /// The drag offset of this frame, to be shaped and added to the
    /// velocity; `None` stands for a zero offset.
    pub fn waft(&mut self) -> (r: Option<Vec3i>)
        requires
            old(self).wf(),
        ensures
            final(self).wf(),
            old(self).wafted(*final(self), r),
    {
        let position = match self.actor {
            Some(s) => Some(s.position),
            None => None,
        };
        let offset = match (self.prev_position, position) {
            (Some(p), Some(q)) => {
                if p == q {
                    None
                } else {
                    Some(q.sub(&p))
                }
            },
            _ => None,
        };
        self.prev_position = position;
        offset
    }

    /// The rings to draw for the sources of the last frame.
    pub fn update_signifiers(&self, mode: Mode) -> (r: Vec<Signifier>)
        requires
            self.wf(),
        ensures
            r@ == signifiers_for(self.hovering_view(), self.actor_view(), mode),
    {
        let mut out: Vec<Signifier> = Vec::new();
        if let Mode::Disabled = mode {
            return out;
        }
        let mut i: usize = 0;
        while i < self.hovering.len()
            invariant
                self.wf(),
                i <= self.hovering@.len(),
                !(mode is Disabled),
                out@ == self.hovering@.take(i as int).map_values(
                    |s: InputSample| signifier_of(s, false, mode),
                ),
            decreases self.hovering@.len() - i,
        {
            let s = self.hovering[i];
            assert(eligible(self.hovering@[i as int]));
            out.push(generate_signifier(&s, false, mode));
            proof {
                assert(self.hovering@.take(i + 1) == self.hovering@.take(i as int).push(s));
            }
            i = i + 1;
        }
        proof {
            assert(self.hovering@.take(i as int) == self.hovering@);
        }
        if let Some(a) = self.actor {
            out.push(generate_signifier(&a, true, mode));
        }
        out
    }

    pub fn actor(&self) -> (r: Option<InputSample>)
        ensures
            r == self.actor_view(),
    {
        self.actor
    }

    pub fn hovering(&self) -> (r: &Vec<InputSample>)
        ensures
            r@ == self.hovering_view(),
    {
        &self.hovering
    }

    pub fn edge(&self) -> (r: GrabEdge)
        ensures
            r == self.edge_view(),
    {
        self.edge
    }
}

/// The ring drawn around one source.
pub fn generate_signifier(s: &InputSample, grabbing: bool, mode: Mode) -> (r: Signifier)
    requires
        !(s.kind is Pointer),
    ensures
        r == signifier_of(*s, grabbing, mode),
{
    let radius: u64 = match s.kind {
        SourceKind::Hand => 100_000,
        SourceKind::Tip => 2_500,
        SourceKind::Pointer => 0,
    };
    let tint = if grabbing {
        Tint::Grabbing
    } else if let Mode::MonadoOffset = mode {
        Tint::Offset
    } else {
        Tint::Plain
    };
    Signifier { source: s.id, kind: s.kind, radius, tint }
}

proof fn lemma_hovering_eligible(s: Seq<InputSample>, actor: Option<u64>, n: int)
    ensures
        forall|i: int|
            0 <= i < hovering_prefix(s, actor, n).len() ==> eligible(
                #[trigger] hovering_prefix(s, actor, n)[i],
            ),
    decreases n,
{
    if n > 0 && n <= s.len() {
        lemma_hovering_eligible(s, actor, n - 1);
        let rest = hovering_prefix(s, actor, n - 1);
        assert forall|i: int| 0 <= i < hovering_prefix(s, actor, n).len() implies eligible(
            #[trigger] hovering_prefix(s, actor, n)[i],
        ) by {
            if i < rest.len() {
                assert(hovering_prefix(s, actor, n)[i] == rest[i]);
            }
        }
    }
}

proof fn lemma_first_engaging_range(cfg: GrabConfig, s: Seq<InputSample>, i: int)
    ensures
        match first_engaging(cfg, s, i) {
            Some(k) => i <= k < s.len() && engages(cfg, s[k]),
            None => true,
        },
    decreases s.len() - i,
{
    if 0 <= i < s.len() && !engages(cfg, s[i]) {
        lemma_first_engaging_range(cfg, s, i + 1);
    }
}

proof fn lemma_find_source_range(s: Seq<InputSample>, id: u64, i: int)
    ensures
        match find_source(s, id, i) {
            Some(k) => i <= k < s.len() && eligible(s[k]) && s[k].id == id,
            None => true,
        },
    decreases s.len() - i,
{
    if 0 <= i < s.len() && !(eligible(s[i]) && s[i].id == id) {
        lemma_find_source_range(s, id, i + 1);
    }
}


/// A stylus input. It has no drag gesture yet: an `Input::Pen` is not well
/// formed, and no method of `Input` accepts it.
pub struct PenInput {}

/// The input method that drives locomotion.
pub enum Input {
    Grab(GrabInput),
    Pen(PenInput),
}

impl Input {
    pub open spec fn wf(&self) -> bool {
        match self {
            Input::Grab(g) => g.wf(),
            Input::Pen(_) => false,
        }
    }

    pub fn handle_input(&mut self, samples: &Vec<InputSample>)
        requires
            old(self).wf(),
            positions_in_range(samples@),
        ensures
            final(self).wf(),
            match (*old(self), *final(self)) {
                (Input::Grab(a), Input::Grab(b)) => a.handled(b, samples@),
                _ => false,
            },
    {
        match self {
            Input::Grab(grab_input) => grab_input.handle_input(samples),
            Input::Pen(_) => {},
        }
    }

    /// The drag offset of this frame; `None` stands for a zero offset.
    pub fn waft(&mut self) -> (r: Option<Vec3i>)
        requires
            old(self).wf(),
        ensures
            final(self).wf(),
            match (*old(self), *final(self)) {
                (Input::Grab(a), Input::Grab(b)) => a.wafted(b, r),
                _ => false,
            },
    {
        match self {
            Input::Grab(grab_input) => grab_input.waft(),
            Input::Pen(_) => None,
        }
    }

    pub fn update_signifiers(&self, mode: Mode) -> (r: Vec<Signifier>)
        requires
            self.wf(),
        ensures
            match self {
                Input::Grab(g) => r@ == signifiers_for(g.hovering_view(), g.actor_view(), mode),
                Input::Pen(_) => false,
            },
    {
        match self {
            Input::Grab(grab_input) => grab_input.update_signifiers(mode),
            Input::Pen(_) => Vec::new(),
        }
    }
}


/// The acting source after each frame of `frames`, from `before`.
pub open spec fn actor_after(cfg: GrabConfig, before: Option<u64>, frames: Seq<Seq<InputSample>>) -> Option<u64>
    decreases frames.len(),
{
    if frames.len() == 0 {
        before
    } else {
        next_actor(cfg, actor_after(cfg, before, frames.drop_last()), frames.last())
    }
}

/// Over any sequence of frames there is never more than one actor: after
/// each frame the actor is absent or one eligible source of that frame, and
/// no hovering source shares its identity.
pub proof fn lemma_single_actor(cfg: GrabConfig, before: Option<u64>, frames: Seq<Seq<InputSample>>)
    ensures
        forall|n: int|
            0 <= n < frames.len() ==> {
                let a = #[trigger] actor_after(cfg, before, frames.take(n + 1));
                &&& match a {
                    Some(id) => exists|k: int|
                        0 <= k < frames[n].len() && eligible(frames[n][k]) && frames[n][k].id == id,
                    None => true,
                }
                &&& forall|j: int|
                    0 <= j < hovering_of(frames[n], a).len() ==> Some(
                        (#[trigger] hovering_of(frames[n], a)[j]).id,
                    ) != a
            },
{
    assert forall|n: int| 0 <= n < frames.len() implies {
        let a = #[trigger] actor_after(cfg, before, frames.take(n + 1));
        &&& match a {
            Some(id) => exists|k: int|
                0 <= k < frames[n].len() && eligible(frames[n][k]) && frames[n][k].id == id,
            None => true,
        }
        &&& forall|j: int|
            0 <= j < hovering_of(frames[n], a).len() ==> Some(
                (#[trigger] hovering_of(frames[n], a)[j]).id,
            ) != a
    } by {
        let prefix = frames.take(n + 1);
        assert(prefix.last() == frames[n]);
        let prev = actor_after(cfg, before, prefix.drop_last());
        let s = frames[n];
        let a = actor_after(cfg, before, prefix);
        assert(a == next_actor(cfg, prev, s));
        lemma_first_engaging_range(cfg, s, 0);
        if let Some(p) = prev {
            lemma_find_source_range(s, p, 0);
        }
        match actor_index(cfg, prev, s) {
            Some(k) => {
                assert(0 <= k < s.len() && eligible(s[k]) && s[k].id == a.unwrap());
            },
            None => {},
        }
        lemma_hovering_excludes(s, a, s.len() as int);
    }
}

proof fn lemma_hovering_excludes(s: Seq<InputSample>, actor: Option<u64>, n: int)
    ensures
        forall|j: int|
            0 <= j < hovering_prefix(s, actor, n).len() ==> Some(
                (#[trigger] hovering_prefix(s, actor, n)[j]).id,
            ) != actor,
    decreases n,
{
    if n > 0 && n <= s.len() {
        lemma_hovering_excludes(s, actor, n - 1);
        let rest = hovering_prefix(s, actor, n - 1);
        assert forall|j: int| 0 <= j < hovering_prefix(s, actor, n).len() implies Some(
            (#[trigger] hovering_prefix(s, actor, n)[j]).id,
        ) != actor by {
            if j < rest.len() {
                assert(hovering_prefix(s, actor, n)[j] == rest[j]);
            }
        }
    }
}

/// Hysteresis: engaging is strictly harder than holding, and a frame in
/// which every eligible signal lies strictly between the two thresholds
/// neither starts nor stops a grab.
pub proof fn lemma_hysteresis(cfg: GrabConfig, before: Option<u64>, s: Seq<InputSample>)
    requires
        cfg.wf(),
        forall|i: int|
            0 <= i < s.len() && eligible(#[trigger] s[i]) ==> holds(cfg, s[i]) && !engages(cfg, s[i]),
        match before {
            Some(a) => find_source(s, a, 0).is_some(),
            None => true,
        },
    ensures
        cfg.hand.engage > cfg.hand.release,
        cfg.tip.engage > cfg.tip.release,
        cfg.precision.engage > cfg.precision.release,
        cfg.pinch.engage < cfg.pinch.release,
        next_actor(cfg, before, s) == before,
{
    match before {
        Some(a) => {
            lemma_find_source_range(s, a, 0);
        },
        None => {
            lemma_first_engaging_range(cfg, s, 0);
        },
    }
}

/// Once it acts, a source stays the actor while its signal holds, even
/// below the engage threshold.
pub proof fn lemma_actor_sticks(cfg: GrabConfig, a: u64, s: Seq<InputSample>, k: int)
    requires
        find_source(s, a, 0) == Some(k),
        holds(cfg, s[k]),
    ensures
        next_actor(cfg, Some(a), s) == Some(a),
{
    lemma_find_source_range(s, a, 0);
}

/// A source that has not moved yields exactly no offset.
pub proof fn lemma_still_source_no_offset(p: Vec3i)
    ensures
        drag_offset(Some(p), Some(p)) == None::<Vec3i>,
{
}

} // verus!
