//! The set of displays driven through the gamma-control protocol, kept as
//! plain values: each output's identifiers, ramp size and colour, and the
//! decisions taken on protocol events.

use vstd::prelude::*;
use crate::animation::{
    calculate_interval, clamp, spec_interval, ColorProperty, Interval,
};
use crate::color::{default_color, Color};

verus! {

/// Bytes per ramp entry: three 16-bit channels.
pub const RAMP_ENTRY_BYTES: u64 = 6;

/// One physical display.
#[derive(Clone, Debug)]
pub struct DisplayOutput {
    /// The registry name of the output global.
    pub registry_id: u32,
    /// The protocol id of the bound output object.
    pub output_id: u32,
    /// The protocol id of the output's gamma-control object.
    pub gamma_id: u32,
    /// The human-readable name, once announced.
    pub name: Option<String>,
    /// Entries per channel of the colour ramp; zero until announced.
    pub ramp_size: u32,
    /// The colour the output should show.
    pub color: Color,
    /// Whether `color` has not been uploaded yet.
    pub color_changed: bool,
}

/// A request handed to the protocol thread.
#[derive(Clone, Copy, Debug, PartialEq, Eq, Structural)]
pub enum WaylandRequest {
    /// Show this colour on every output at once.
    ChangeOutputColor(Color),
}

/// What the protocol thread must send to show an output's colour.
#[derive(Clone, Copy, Debug, PartialEq, Eq, Structural)]
pub struct RampUpload {
    pub registry_id: u32,
    pub gamma_id: u32,
    pub ramp_size: u32,
    /// Size of the shared-memory region: three 16-bit channels per entry.
    pub byte_len: u64,
    pub color: Color,
}

/// Why the engine cannot drive the displays.
#[derive(Clone, Copy, Debug, PartialEq, Eq, Structural)]
pub enum EngineError {
    /// The compositor offers no gamma-control manager.
    UnsupportedCompositor,
    /// The compositor announced no output.
    NoOutputFound,
}

/// How a transition moves one output's temperature and brightness.
#[derive(Clone, Copy, Debug, PartialEq, Eq, Structural)]
pub struct TransitionPlan {
    pub registry_id: u32,
    pub temperature: Interval,
    pub brightness: Interval,
}

/// Which identifier an event names an output by.
#[derive(Clone, Copy, Debug, PartialEq, Eq, Structural)]
pub enum OutputKey {
    Registry(u32),
    Output(u32),
    Gamma(u32),
}

pub open spec fn key_matches(o: DisplayOutput, key: OutputKey) -> bool {
    match key {
        OutputKey::Registry(id) => o.registry_id == id,
        OutputKey::Output(id) => o.output_id == id,
        OutputKey::Gamma(id) => o.gamma_id == id,
    }
}

pub open spec fn spec_tracks(s: Seq<DisplayOutput>, key: OutputKey) -> bool {
    exists|i: int| 0 <= i < s.len() && key_matches(#[trigger] s[i], key)
}

/// No two outputs share a registry name, an output object or a gamma object.
pub open spec fn ids_unique(s: Seq<DisplayOutput>) -> bool {
    forall|i: int, j: int|
        0 <= i < s.len() && 0 <= j < s.len() && i != j ==> {
            &&& (#[trigger] s[i]).registry_id != (#[trigger] s[j]).registry_id
            &&& s[i].output_id != s[j].output_id
            &&& s[i].gamma_id != s[j].gamma_id
        }
}

/// Whether a new output with these identifiers would clash with a tracked one.
pub open spec fn spec_conflicts(s: Seq<DisplayOutput>, registry_id: u32, output_id: u32, gamma_id: u32) -> bool {
    spec_tracks(s, OutputKey::Registry(registry_id)) || spec_tracks(s, OutputKey::Output(output_id))
        || spec_tracks(s, OutputKey::Gamma(gamma_id))
}

pub open spec fn new_output(registry_id: u32, output_id: u32, gamma_id: u32, color: Color) -> DisplayOutput {
    DisplayOutput {
        registry_id,
        output_id,
        gamma_id,
        name: None,
        ramp_size: 0,
        color,
        color_changed: true,
    }
}

/// The output after being asked to show `c`: marked for upload only if the colour changes.
pub open spec fn spec_set_color(o: DisplayOutput, c: Color) -> DisplayOutput {
    if o.color == c {
        o
    } else {
        DisplayOutput { color: c, color_changed: true, ..o }
    }
}

pub open spec fn sum_temperature(s: Seq<DisplayOutput>) -> int
    decreases s.len(),
{
    if s.len() == 0 {
        0
    } else {
        sum_temperature(s.drop_last()) + s.last().color.temperature
    }
}

pub open spec fn sum_gamma(s: Seq<DisplayOutput>) -> int
    decreases s.len(),
{
    if s.len() == 0 {
        0
    } else {
        sum_gamma(s.drop_last()) + s.last().color.gamma
    }
}

pub open spec fn sum_brightness(s: Seq<DisplayOutput>) -> int
    decreases s.len(),
{
    if s.len() == 0 {
        0
    } else {
        sum_brightness(s.drop_last()) + s.last().color.brightness
    }
}

/// The mean temperature, gamma and brightness of the outputs, inverted as
/// the first one is, or the default colour when there is none. Outputs that
/// all show one colour have that colour as their mean.
pub open spec fn spec_mean_color(s: Seq<DisplayOutput>) -> Color {
    if s.len() == 0 {
        default_color()
    } else {
        Color {
            temperature: (sum_temperature(s) / s.len() as int) as u16,
            gamma: (sum_gamma(s) / s.len() as int) as u32,
            brightness: (sum_brightness(s) / s.len() as int) as u32,
            inverted: s[0].color.inverted,
        }
    }
}

/// The colour with one property replaced.
pub open spec fn with_property(c: Color, property: ColorProperty, value: int) -> Color {
    match property {
        ColorProperty::Temperature => Color { temperature: value as u16, ..c },
        ColorProperty::Brightness => Color { brightness: value as u32, ..c },
    }
}

pub open spec fn property_max(property: ColorProperty) -> int {
    match property {
        ColorProperty::Temperature => u16::MAX as int,
        ColorProperty::Brightness => u32::MAX as int,
    }
}

/// The colour after adding `step` to a property, held inside the property's range.
pub open spec fn spec_stepped(c: Color, property: ColorProperty, step: int) -> Color {
    with_property(c, property, clamp(property.spec_value(c) + step, 0, property_max(property)))
}

pub open spec fn plan_for(o: DisplayOutput, target: Color, transition_ms: int) -> TransitionPlan {
    if transition_ms == 0 {
        TransitionPlan {
            registry_id: o.registry_id,
            temperature: Interval { count: 0, step: 0, wait_ms: 0 },
            brightness: Interval { count: 0, step: 0, wait_ms: 0 },
        }
    } else {
        TransitionPlan {
            registry_id: o.registry_id,
            temperature: spec_interval(
                target.temperature as int,
                o.color.temperature as int,
                ColorProperty::Temperature.spec_bound(),
                transition_ms,
            ),
            brightness: spec_interval(
                target.brightness as int,
                o.color.brightness as int,
                ColorProperty::Brightness.spec_bound(),
                transition_ms,
            ),
        }
    }
}

/// One plan per output whose colour differs from `target`, in order.
pub open spec fn spec_plans(s: Seq<DisplayOutput>, target: Color, transition_ms: int) -> Seq<TransitionPlan>
    decreases s.len(),
{
    if s.len() == 0 {
        Seq::empty()
    } else {
        let rest = spec_plans(s.drop_last(), target, transition_ms);
        if s.last().color == target {
            rest
        } else {
            rest.push(plan_for(s.last(), target, transition_ms))
        }
    }
}

pub open spec fn upload_due(o: DisplayOutput) -> bool {
    o.color_changed && o.ramp_size > 0
}

/// The registry names of the outputs whose colour is due for upload, in order.
pub open spec fn spec_pending(s: Seq<DisplayOutput>) -> Seq<u32>
    decreases s.len(),
{
    if s.len() == 0 {
        Seq::empty()
    } else {
        let rest = spec_pending(s.drop_last());
        if upload_due(s.last()) {
            rest.push(s.last().registry_id)
        } else {
            rest
        }
    }
}

proof fn lemma_unique_remove(s: Seq<DisplayOutput>, i: int, key: OutputKey)
    requires
        ids_unique(s),
        0 <= i < s.len(),
        key_matches(s[i], key),
    ensures
        ids_unique(s.remove(i)),
        !spec_tracks(s.remove(i), key),
{
    let t = s.remove(i);
    assert forall|a: int, b: int| 0 <= a < t.len() && 0 <= b < t.len() && a != b implies {
        &&& (#[trigger] t[a]).registry_id != (#[trigger] t[b]).registry_id
        &&& t[a].output_id != t[b].output_id
        &&& t[a].gamma_id != t[b].gamma_id
    } by {
        let oa = if a < i { a } else { a + 1 };
        let ob = if b < i { b } else { b + 1 };
        assert(t[a] == s[oa]);
        assert(t[b] == s[ob]);
    }
    if spec_tracks(t, key) {
        let a = choose|a: int| 0 <= a < t.len() && key_matches(#[trigger] t[a], key);
        let oa = if a < i { a } else { a + 1 };
        assert(t[a] == s[oa]);
        assert(s[oa] == s[oa]);
        assert(oa != i);
    }
}

proof fn lemma_unique_update(s: Seq<DisplayOutput>, i: int, o: DisplayOutput)
    requires
        ids_unique(s),
        0 <= i < s.len(),
        o.registry_id == s[i].registry_id,
        o.output_id == s[i].output_id,
        o.gamma_id == s[i].gamma_id,
    ensures
        ids_unique(s.update(i, o)),
{
    let t = s.update(i, o);
    assert forall|a: int, b: int| 0 <= a < t.len() && 0 <= b < t.len() && a != b implies {
        &&& (#[trigger] t[a]).registry_id != (#[trigger] t[b]).registry_id
        &&& t[a].output_id != t[b].output_id
        &&& t[a].gamma_id != t[b].gamma_id
    } by {
        assert(s[a] == s[a] && s[b] == s[b]);
    }
}

proof fn lemma_unique_push(s: Seq<DisplayOutput>, o: DisplayOutput)
    requires
        ids_unique(s),
        !spec_conflicts(s, o.registry_id, o.output_id, o.gamma_id),
    ensures
        ids_unique(s.push(o)),
{
    let t = s.push(o);
    assert forall|a: int, b: int| 0 <= a < t.len() && 0 <= b < t.len() && a != b implies {
        &&& (#[trigger] t[a]).registry_id != (#[trigger] t[b]).registry_id
        &&& t[a].output_id != t[b].output_id
        &&& t[a].gamma_id != t[b].gamma_id
    } by {
        if a < s.len() && b < s.len() {
            assert(t[a] == s[a] && t[b] == s[b]);
        } else if a < s.len() {
            assert(t[a] == s[a]);
            assert(key_matches(s[a], OutputKey::Registry(s[a].registry_id)));
            assert(key_matches(s[a], OutputKey::Output(s[a].output_id)));
            assert(key_matches(s[a], OutputKey::Gamma(s[a].gamma_id)));
        } else {
            assert(t[b] == s[b]);
            assert(key_matches(s[b], OutputKey::Registry(s[b].registry_id)));
            assert(key_matches(s[b], OutputKey::Output(s[b].output_id)));
            assert(key_matches(s[b], OutputKey::Gamma(s[b].gamma_id)));
        }
    }
}

/// The outputs after every one was asked to show `c`.
pub open spec fn spec_after_request(s: Seq<DisplayOutput>, c: Color) -> Seq<DisplayOutput> {
    Seq::new(s.len(), |i: int| spec_set_color(s[i], c))
}

proof fn lemma_plans_empty(s: Seq<DisplayOutput>, target: Color, transition_ms: int)
    requires
        forall|i: int| 0 <= i < s.len() ==> (#[trigger] s[i]).color == target,
    ensures
        spec_plans(s, target, transition_ms) == Seq::<TransitionPlan>::empty(),
    decreases s.len(),
{
    if s.len() > 0 {
        let rest = s.drop_last();
        assert forall|i: int| 0 <= i < rest.len() implies (#[trigger] rest[i]).color == target by {
            assert(rest[i] == s[i]);
        }
        lemma_plans_empty(rest, target, transition_ms);
        assert(s.last() == s[s.len() - 1]);
    }
}

/// A transition ends exactly on its target: whatever steps moved the
/// outputs meanwhile, once every output is asked to show the target, every
/// output's colour equals it, with no residue of the steps.
pub proof fn law_transition_converges(s: Seq<DisplayOutput>, target: Color)
    ensures
        spec_after_request(s, target).len() == s.len(),
        forall|i: int|
            0 <= i < s.len() ==> (#[trigger] spec_after_request(s, target)[i]).color == target,
{
}

/// Asking for the same colour twice does nothing the second time: no
/// output is planned for a transition and no output is changed or marked
/// for upload.
pub proof fn law_transition_idempotent(s: Seq<DisplayOutput>, target: Color, transition_ms: int)
    ensures
        spec_plans(spec_after_request(s, target), target, transition_ms) == Seq::<TransitionPlan>::empty(),
        spec_after_request(spec_after_request(s, target), target) == spec_after_request(s, target),
{
    let once = spec_after_request(s, target);
    assert forall|i: int| 0 <= i < once.len() implies (#[trigger] once[i]).color == target by {}
    lemma_plans_empty(once, target, transition_ms);
    assert(spec_after_request(once, target) =~= once);
}

proof fn lemma_pending_tracked(s: Seq<DisplayOutput>, registry_id: u32)
    requires
        spec_pending(s).contains(registry_id),
    ensures
        spec_tracks(s, OutputKey::Registry(registry_id)),
    decreases s.len(),
{
    let rest = s.drop_last();
    if upload_due(s.last()) && s.last().registry_id == registry_id {
        assert(key_matches(s[s.len() - 1], OutputKey::Registry(registry_id)));
    } else {
        if upload_due(s.last()) {
            let k = choose|k: int| 0 <= k < spec_pending(s).len() && spec_pending(s)[k] == registry_id;
            assert(spec_pending(s) == spec_pending(rest).push(s.last().registry_id));
            assert(spec_pending(rest)[k] == registry_id);
        }
        assert(spec_pending(rest).contains(registry_id));
        lemma_pending_tracked(rest, registry_id);
        let j = choose|j: int| 0 <= j < rest.len() && key_matches(#[trigger] rest[j], OutputKey::Registry(registry_id));
        assert(rest[j] == s[j]);
    }
}

/// Once an output is removed, after its global went away or its gamma
/// control failed (both leave the outputs less that one), it is no longer
/// tracked and no upload is due for it.
pub proof fn law_output_lifecycle(s: Seq<DisplayOutput>, i: int)
    requires
        ids_unique(s),
        0 <= i < s.len(),
    ensures
        !spec_tracks(s.remove(i), OutputKey::Registry(s[i].registry_id)),
        !spec_tracks(s.remove(i), OutputKey::Gamma(s[i].gamma_id)),
        !spec_pending(s.remove(i)).contains(s[i].registry_id),
{
    lemma_unique_remove(s, i, OutputKey::Registry(s[i].registry_id));
    lemma_unique_remove(s, i, OutputKey::Gamma(s[i].gamma_id));
    if spec_pending(s.remove(i)).contains(s[i].registry_id) {
        lemma_pending_tracked(s.remove(i), s[i].registry_id);
    }
}

proof fn lemma_sums_uniform(s: Seq<DisplayOutput>, c: Color)
    requires
        forall|i: int| 0 <= i < s.len() ==> (#[trigger] s[i]).color == c,
    ensures
        sum_temperature(s) == s.len() * c.temperature,
        sum_gamma(s) == s.len() * c.gamma,
        sum_brightness(s) == s.len() * c.brightness,
    decreases s.len(),
{
    if s.len() > 0 {
        let rest = s.drop_last();
        assert forall|i: int| 0 <= i < rest.len() implies (#[trigger] rest[i]).color == c by {
            assert(rest[i] == s[i]);
        }
        lemma_sums_uniform(rest, c);
        assert(s.last() == s[s.len() - 1]);
        assert(s.len() * c.temperature == rest.len() * c.temperature + c.temperature) by (nonlinear_arith)
            requires s.len() == rest.len() + 1;
        assert(s.len() * c.gamma == rest.len() * c.gamma + c.gamma) by (nonlinear_arith)
            requires s.len() == rest.len() + 1;
        assert(s.len() * c.brightness == rest.len() * c.brightness + c.brightness) by (nonlinear_arith)
            requires s.len() == rest.len() + 1;
    }
}

/// Outputs that all show one colour have exactly that colour as their mean,
/// so an output that appears then is seeded with the colour they converged to.
pub proof fn law_mean_of_converged(s: Seq<DisplayOutput>, c: Color)
    requires
        s.len() > 0,
        forall|i: int| 0 <= i < s.len() ==> (#[trigger] s[i]).color == c,
    ensures
        spec_mean_color(s) == c,
{
    lemma_sums_uniform(s, c);
    let n = s.len() as int;
    assert((n * c.temperature) / n == c.temperature as int) by (nonlinear_arith)
        requires n > 0;
    assert((n * c.gamma) / n == c.gamma as int) by (nonlinear_arith)
        requires n > 0;
    assert((n * c.brightness) / n == c.brightness as int) by (nonlinear_arith)
        requires n > 0;
    assert(s[0].color == c);
}

/// The outputs known to the protocol client.
pub struct WaylandState {
    outputs: Vec<DisplayOutput>,
}

impl View for WaylandState {
    type V = Seq<DisplayOutput>;

    closed spec fn view(&self) -> Seq<DisplayOutput> {
        self.outputs@
    }
}

impl WaylandState {
    pub open spec fn wf(&self) -> bool {
        ids_unique(self@)
    }

    /// An engine that tracks no output.
    pub fn new() -> (r: WaylandState)
        ensures
            r.wf(),
            r@ == Seq::<DisplayOutput>::empty(),
    {
        WaylandState { outputs: Vec::new() }
    }

    /// Whether the displays can be driven once the globals are enumerated:
    /// a gamma-control manager is needed first, then at least one output.
    pub fn ready(&self, has_gamma_manager: bool) -> (r: Result<(), EngineError>)
        ensures
            !has_gamma_manager ==> r == Err::<(), EngineError>(EngineError::UnsupportedCompositor),
            has_gamma_manager && self@.len() == 0 ==> r == Err::<(), EngineError>(EngineError::NoOutputFound),
            has_gamma_manager && self@.len() > 0 ==> r is Ok,
    {
        if !has_gamma_manager {
            Err(EngineError::UnsupportedCompositor)
        } else if self.outputs.len() == 0 {
            Err(EngineError::NoOutputFound)
        } else {
            Ok(())
        }
    }

    /// Number of tracked outputs.
    pub fn len(&self) -> (r: usize)
        ensures
            r == self@.len(),
    {
        self.outputs.len()
    }

    fn position(&self, key: OutputKey) -> (r: Option<usize>)
        ensures
            match r {
                Some(i) => i < self@.len() && key_matches(self@[i as int], key),
                None => !spec_tracks(self@, key),
            },
    {
        let mut i: usize = 0;
        while i < self.outputs.len()
            invariant
                i <= self@.len(),
                forall|k: int| 0 <= k < i ==> !key_matches(#[trigger] self@[k], key),
            decreases self@.len() - i,
        {
            let o = &self.outputs[i];
            let hit = match key {
                OutputKey::Registry(id) => o.registry_id == id,
                OutputKey::Output(id) => o.output_id == id,
                OutputKey::Gamma(id) => o.gamma_id == id,
            };
            if hit {
                return Some(i);
            }
            i += 1;
        }
        None
    }

    /// Starts tracking a newly announced output, seeded with the mean colour
    /// of the outputs already tracked so that it matches them. Identifiers
    /// already in use are refused and nothing changes.
    pub fn add_output(&mut self, registry_id: u32, output_id: u32, gamma_id: u32) -> (r: bool)
        requires
            old(self).wf(),
        ensures
            final(self).wf(),
            r == !spec_conflicts(old(self)@, registry_id, output_id, gamma_id),
            r ==> final(self)@ == old(self)@.push(
                new_output(registry_id, output_id, gamma_id, spec_mean_color(old(self)@)),
            ),
            !r ==> final(self)@ == old(self)@,
    {
        if self.position(OutputKey::Registry(registry_id)).is_some() || self.position(
            OutputKey::Output(output_id),
        ).is_some() || self.position(OutputKey::Gamma(gamma_id)).is_some() {
            return false;
        }
        let color = self.color();
        let output = DisplayOutput {
            registry_id,
            output_id,
            gamma_id,
            name: None,
            ramp_size: 0,
            color,
            color_changed: true,
        };
        proof {
            lemma_unique_push(self@, output);
        }
        self.outputs.push(output);
        true
    }

    fn remove_where(&mut self, key: OutputKey) -> (r: Option<DisplayOutput>)
        requires
            old(self).wf(),
        ensures
            final(self).wf(),
            !spec_tracks(final(self)@, key),
            !spec_tracks(old(self)@, key) ==> r is None && final(self)@ == old(self)@,
            spec_tracks(old(self)@, key) ==> exists|i: int|
                0 <= i < old(self)@.len() && key_matches(#[trigger] old(self)@[i], key) && r == Some(
                    old(self)@[i],
                ) && final(self)@ == old(self)@.remove(i),
    {
        match self.position(key) {
            Some(i) => {
                proof {
                    lemma_unique_remove(self@, i as int, key);
                }
                let o = self.outputs.remove(i);
                Some(o)
            },
            None => None,
        }
    }

    /// Handles the removal of a registry global: a tracked output with that
    /// name stops being tracked and is handed back for its protocol objects
    /// to be released.
    pub fn remove_global(&mut self, registry_id: u32) -> (r: Option<DisplayOutput>)
        requires
            old(self).wf(),
        ensures
            final(self).wf(),
            !spec_tracks(final(self)@, OutputKey::Registry(registry_id)),
            !spec_tracks(old(self)@, OutputKey::Registry(registry_id)) ==> r is None && final(self)@
                == old(self)@,
            spec_tracks(old(self)@, OutputKey::Registry(registry_id)) ==> exists|i: int|
                0 <= i < old(self)@.len() && (#[trigger] old(self)@[i]).registry_id == registry_id && r
                    == Some(old(self)@[i]) && final(self)@ == old(self)@.remove(i),
    {
        self.remove_where(OutputKey::Registry(registry_id))
    }

    /// Handles a gamma-control failure: the output that owns the gamma object
    /// stops being tracked and is handed back for its protocol objects to be
    /// released. It is not retried.
    pub fn gamma_failed(&mut self, gamma_id: u32) -> (r: Option<DisplayOutput>)
        requires
            old(self).wf(),
        ensures
            final(self).wf(),
            !spec_tracks(final(self)@, OutputKey::Gamma(gamma_id)),
            !spec_tracks(old(self)@, OutputKey::Gamma(gamma_id)) ==> r is None && final(self)@
                == old(self)@,
            spec_tracks(old(self)@, OutputKey::Gamma(gamma_id)) ==> exists|i: int|
                0 <= i < old(self)@.len() && (#[trigger] old(self)@[i]).gamma_id == gamma_id && r
                    == Some(old(self)@[i]) && final(self)@ == old(self)@.remove(i),
    {
        self.remove_where(OutputKey::Gamma(gamma_id))
    }

    /// Records the human-readable name announced for an output object.
    pub fn set_output_name(&mut self, output_id: u32, name: String) -> (r: bool)
        requires
            old(self).wf(),
        ensures
            final(self).wf(),
            r == spec_tracks(old(self)@, OutputKey::Output(output_id)),
            !r ==> final(self)@ == old(self)@,
            r ==> exists|i: int|
                0 <= i < old(self)@.len() && (#[trigger] old(self)@[i]).output_id == output_id
                    && final(self)@ == old(self)@.update(i, DisplayOutput { name: Some(name), ..old(self)@[i] }),
    {
        match self.position(OutputKey::Output(output_id)) {
            Some(i) => {
                proof {
                    lemma_unique_update(self@, i as int, DisplayOutput { name: Some(name), ..self@[i as int] });
                }
                self.outputs[i].name = Some(name);
                true
            },
            None => false,
        }
    }

    /// Records the ramp size announced for a gamma object. The first
    /// announcement marks the output's colour for upload, since uploads were
    /// skipped while the size was unknown.
    pub fn set_ramp_size(&mut self, gamma_id: u32, size: u32) -> (r: bool)
        requires
            old(self).wf(),
        ensures
            final(self).wf(),
            r == spec_tracks(old(self)@, OutputKey::Gamma(gamma_id)),
            !r ==> final(self)@ == old(self)@,
            r ==> exists|i: int|
                0 <= i < old(self)@.len() && (#[trigger] old(self)@[i]).gamma_id == gamma_id
                    && final(self)@ == old(self)@.update(
                    i,
                    DisplayOutput {
                        ramp_size: size,
                        color_changed: old(self)@[i].color_changed || old(self)@[i].ramp_size == 0,
                        ..old(self)@[i]
                    },
                ),
    {
        match self.position(OutputKey::Gamma(gamma_id)) {
            Some(i) => {
                let first = self.outputs[i].ramp_size == 0;
                proof {
                    lemma_unique_update(
                        self@,
                        i as int,
                        DisplayOutput {
                            ramp_size: size,
                            color_changed: self@[i as int].color_changed || first,
                            ..self@[i as int]
                        },
                    );
                }
                self.outputs[i].ramp_size = size;
                if first {
                    self.outputs[i].color_changed = true;
                }
                true
            },
            None => false,
        }
    }

    /// The mean temperature and brightness of all outputs, or the default
    /// colour when there is none.
    pub fn color(&self) -> (r: Color)
        ensures
            r == spec_mean_color(self@),
    {
        let n = self.outputs.len();
        if n == 0 {
            return Color::default();
        }
        let mut t: u128 = 0;
        let mut g: u128 = 0;
        let mut b: u128 = 0;
        let mut i: usize = 0;
        while i < n
            invariant
                n == self@.len(),
                i <= n,
                t == sum_temperature(self@.subrange(0, i as int)),
                b == sum_brightness(self@.subrange(0, i as int)),
                g == sum_gamma(self@.subrange(0, i as int)),
                t <= i * 65535,
                g <= i * 4294967295,
                b <= i * 4294967295,
            decreases n - i,
        {
            proof {
                assert(self@.subrange(0, i + 1).drop_last() == self@.subrange(0, i as int));
            }
            t = t + self.outputs[i].color.temperature as u128;
            b = b + self.outputs[i].color.brightness as u128;
            g = g + self.outputs[i].color.gamma as u128;
            i += 1;
        }
        proof {
            assert(self@.subrange(0, n as int) == self@);
            assert(t / (n as u128) <= 65535) by (nonlinear_arith)
                requires t <= n * 65535, n > 0;
            assert(b / (n as u128) <= 4294967295) by (nonlinear_arith)
                requires b <= n * 4294967295, n > 0;
            assert(g / (n as u128) <= 4294967295) by (nonlinear_arith)
                requires g <= n * 4294967295, n > 0;
        }
        Color {
            temperature: (t / n as u128) as u16,
            gamma: (g / n as u128) as u32,
            brightness: (b / n as u128) as u32,
            inverted: self.outputs[0].color.inverted,
        }
    }

    /// Whether some output's colour has not been uploaded yet.
    pub fn color_changed(&self) -> (r: bool)
        ensures
            r == exists|i: int| 0 <= i < self@.len() && (#[trigger] self@[i]).color_changed,
    {
        let mut i: usize = 0;
        while i < self.outputs.len()
            invariant
                i <= self@.len(),
                forall|k: int| 0 <= k < i ==> !(#[trigger] self@[k]).color_changed,
            decreases self@.len() - i,
        {
            if self.outputs[i].color_changed {
                return true;
            }
            i += 1;
        }
        false
    }

    /// The colour of a tracked output.
    pub fn output_color(&self, registry_id: u32) -> (r: Option<Color>)
        ensures
            !spec_tracks(self@, OutputKey::Registry(registry_id)) ==> r is None,
            spec_tracks(self@, OutputKey::Registry(registry_id)) ==> exists|i: int|
                0 <= i < self@.len() && (#[trigger] self@[i]).registry_id == registry_id && r == Some(
                    self@[i].color,
                ),
    {
        match self.position(OutputKey::Registry(registry_id)) {
            Some(i) => Some(self.outputs[i].color),
            None => None,
        }
    }

    /// Asks a tracked output to show `color`; it is marked for upload only if
    /// its colour changes.
    pub fn set_color(&mut self, registry_id: u32, color: Color) -> (r: bool)
        requires
            old(self).wf(),
        ensures
            final(self).wf(),
            r == spec_tracks(old(self)@, OutputKey::Registry(registry_id)),
            !r ==> final(self)@ == old(self)@,
            r ==> exists|i: int|
                0 <= i < old(self)@.len() && (#[trigger] old(self)@[i]).registry_id == registry_id
                    && final(self)@ == old(self)@.update(i, spec_set_color(old(self)@[i], color)),
    {
        match self.position(OutputKey::Registry(registry_id)) {
            Some(i) => {
                proof {
                    lemma_unique_update(self@, i as int, spec_set_color(self@[i as int], color));
                }
                if self.outputs[i].color != color {
                    self.outputs[i].color = color;
                    self.outputs[i].color_changed = true;
                }
                true
            },
            None => false,
        }
    }

    /// Adds `step` to one colour property of a tracked output, held inside
    /// the property's range; one animation tick.
    pub fn apply_step(&mut self, registry_id: u32, property: ColorProperty, step: i64) -> (r: bool)
        requires
            old(self).wf(),
        ensures
            final(self).wf(),
            r == spec_tracks(old(self)@, OutputKey::Registry(registry_id)),
            !r ==> final(self)@ == old(self)@,
            r ==> exists|i: int|
                0 <= i < old(self)@.len() && (#[trigger] old(self)@[i]).registry_id == registry_id
                    && final(self)@ == old(self)@.update(
                    i,
                    spec_set_color(old(self)@[i], spec_stepped(old(self)@[i].color, property, step as int)),
                ),
    {
        match self.position(OutputKey::Registry(registry_id)) {
            Some(i) => {
                let c = self.outputs[i].color;
                let v = property.value(&c) as i128 + step as i128;
                let stepped = match property {
                    ColorProperty::Temperature => {
                        let t: u16 = if v < 0 { 0 } else if v > 65535 { 65535 } else { v as u16 };
                        Color { temperature: t, ..c }
                    },
                    ColorProperty::Brightness => {
                        let b: u32 = if v < 0 { 0 } else if v > 4294967295 { 4294967295 } else { v as u32 };
                        Color { brightness: b, ..c }
                    },
                };
                self.set_color(registry_id, stepped)
            },
            None => false,
        }
    }

    /// Carries out a request: every output is asked to show the colour at
    /// once, which also ends a transition exactly on its target.
    pub fn process_request(&mut self, request: WaylandRequest)
        requires
            old(self).wf(),
        ensures
            final(self).wf(),
            match request {
                WaylandRequest::ChangeOutputColor(c) => {
                    &&& final(self)@.len() == old(self)@.len()
                    &&& forall|i: int|
                        0 <= i < old(self)@.len() ==> #[trigger] final(self)@[i] == spec_set_color(
                            old(self)@[i],
                            c,
                        )
                },
            },
    {
        let WaylandRequest::ChangeOutputColor(color) = request;
        let n = self.outputs.len();
        let mut i: usize = 0;
        while i < n
            invariant
                n == self@.len(),
                i <= n,
                self.wf(),
                forall|k: int| 0 <= k < i ==> #[trigger] self@[k] == spec_set_color(old(self)@[k], color),
                forall|k: int| i <= k < n ==> #[trigger] self@[k] == old(self)@[k],
            decreases n - i,
        {
            proof {
                lemma_unique_update(self@, i as int, spec_set_color(self@[i as int], color));
            }
            if self.outputs[i].color != color {
                self.outputs[i].color = color;
                self.outputs[i].color_changed = true;
            }
            i += 1;
        }
    }

    /// Plans a transition to `target` over `transition_ms` milliseconds: one
    /// plan per output whose colour differs, none for the others. A zero
    /// duration plans no intermediate step.
    pub fn plan_transition(&self, target: Color, transition_ms: u64) -> (r: Vec<TransitionPlan>)
        ensures
            r@ == spec_plans(self@, target, transition_ms as int),
    {
        let n = self.outputs.len();
        let mut plans: Vec<TransitionPlan> = Vec::new();
        let mut i: usize = 0;
        while i < n
            invariant
                n == self@.len(),
                i <= n,
                plans@ == spec_plans(self@.subrange(0, i as int), target, transition_ms as int),
            decreases n - i,
        {
            proof {
                assert(self@.subrange(0, i + 1).drop_last() == self@.subrange(0, i as int));
                assert(self@.subrange(0, i + 1).last() == self@[i as int]);
            }
            let o = &self.outputs[i];
            if o.color != target {
                let zero = Interval { count: 0, step: 0, wait_ms: 0 };
                let plan = if transition_ms == 0 {
                    TransitionPlan { registry_id: o.registry_id, temperature: zero, brightness: zero }
                } else {
                    TransitionPlan {
                        registry_id: o.registry_id,
                        temperature: calculate_interval(
                            target.temperature as i64,
                            o.color.temperature as i64,
                            ColorProperty::Temperature.bound(),
                            transition_ms,
                        ),
                        brightness: calculate_interval(
                            target.brightness as i64,
                            o.color.brightness as i64,
                            ColorProperty::Brightness.bound(),
                            transition_ms,
                        ),
                    }
                };
                plans.push(plan);
            }
            i += 1;
        }
        proof {
            assert(self@.subrange(0, n as int) == self@);
        }
        plans
    }

    /// The registry names of the outputs whose colour is due for upload: it
    /// changed since the last upload and the ramp size is known.
    pub fn pending_uploads(&self) -> (r: Vec<u32>)
        ensures
            r@ == spec_pending(self@),
    {
        let n = self.outputs.len();
        let mut ids: Vec<u32> = Vec::new();
        let mut i: usize = 0;
        while i < n
            invariant
                n == self@.len(),
                i <= n,
                ids@ == spec_pending(self@.subrange(0, i as int)),
            decreases n - i,
        {
            proof {
                assert(self@.subrange(0, i + 1).drop_last() == self@.subrange(0, i as int));
                assert(self@.subrange(0, i + 1).last() == self@[i as int]);
            }
            if self.outputs[i].color_changed && self.outputs[i].ramp_size > 0 {
                ids.push(self.outputs[i].registry_id);
            }
            i += 1;
        }
        proof {
            assert(self@.subrange(0, n as int) == self@);
        }
        ids
    }

    /// Takes the upload due for an output, if any, and marks its colour as
    /// shown. Nothing is due while the ramp size is unknown.
    pub fn take_upload(&mut self, registry_id: u32) -> (r: Option<RampUpload>)
        requires
            old(self).wf(),
        ensures
            final(self).wf(),
            r is None ==> final(self)@ == old(self)@,
            r is None ==> forall|i: int|
                0 <= i < old(self)@.len() && (#[trigger] old(self)@[i]).registry_id == registry_id
                    ==> !upload_due(old(self)@[i]),
            r is Some ==> exists|i: int|
                0 <= i < old(self)@.len() && (#[trigger] old(self)@[i]).registry_id == registry_id
                    && upload_due(old(self)@[i]) && final(self)@ == old(self)@.update(
                    i,
                    DisplayOutput { color_changed: false, ..old(self)@[i] },
                ) && r == Some(
                    RampUpload {
                        registry_id,
                        gamma_id: old(self)@[i].gamma_id,
                        ramp_size: old(self)@[i].ramp_size,
                        byte_len: (old(self)@[i].ramp_size * RAMP_ENTRY_BYTES) as u64,
                        color: old(self)@[i].color,
                    },
                ),
    {
        match self.position(OutputKey::Registry(registry_id)) {
            Some(i) => {
                if !(self.outputs[i].color_changed && self.outputs[i].ramp_size > 0) {
                    return None;
                }
                proof {
                    lemma_unique_update(self@, i as int, DisplayOutput { color_changed: false, ..self@[i as int] });
                }
                self.outputs[i].color_changed = false;
                let o = &self.outputs[i];
                Some(
                    RampUpload {
                        registry_id,
                        gamma_id: o.gamma_id,
                        ramp_size: o.ramp_size,
                        byte_len: o.ramp_size as u64 * RAMP_ENTRY_BYTES,
                        color: o.color,
                    },
                )
            },
            None => None,
        }
    }
}

} // verus!
