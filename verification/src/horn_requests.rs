use vstd::prelude::*;

verus! {

/// The behavior a horn activation asks for: a timed on/off pattern, or
/// sounding until a separate deactivation arrives.
#[derive(Clone, Copy, PartialEq, Eq, Structural, Debug)]
pub enum HornMode {
    Sequenced,
    Continuous,
}

/// One on/off segment of a sequenced pattern, in milliseconds.
#[derive(Clone, Copy, PartialEq, Eq, Structural, Debug)]
pub struct HornCycle {
    pub on_time: u32,
    pub off_time: u32,
}

/// An ordered run of horn cycles, executed in listed order by the remote
/// horn service.
#[derive(Clone, PartialEq, Eq, Debug)]
pub struct HornSequence {
    pub horn_cycles: Vec<HornCycle>,
}

/// A request to activate the horn with a given mode and cycle pattern.
#[derive(Clone, PartialEq, Eq, Debug)]
pub struct ActivateHornRequest {
    pub mode: HornMode,
    pub command: Vec<HornSequence>,
}

/// The response the horn service sends back for an activation; its content
/// is logged only, never interpreted, so the model carries nothing.
#[derive(Clone, Copy, PartialEq, Eq, Structural, Debug)]
pub struct ActivateHornResponse {}

/// A request to deactivate the horn; it carries no parameters and is
/// idempotent.
#[derive(Clone, Copy, PartialEq, Eq, Structural, Debug)]
pub struct DeactivateHornRequest {}

/// The two canned activation patterns a caller can pick without assembling
/// a request by hand.
#[derive(Clone, Copy, PartialEq, Eq, Structural, Debug)]
pub enum PrebuiltHornRequests {
    Sequenced,
    Continuous,
}

/// A cycle is meaningful only when both of its durations are positive.
pub open spec fn valid_cycle(c: HornCycle) -> bool {
    c.on_time > 0 && c.off_time > 0
}

impl HornSequence {
    pub open spec fn view(&self) -> Seq<HornCycle> {
        self.horn_cycles@
    }
}

impl ActivateHornRequest {
    /// The cycle lists of the request's sequences, in order.
    pub open spec fn cycles(self) -> Seq<Seq<HornCycle>> {
        self.command@.map_values(|s: HornSequence| s.horn_cycles@)
    }

    /// The invariant the builders establish: a continuous request carries no
    /// cycles, a sequenced request carries at least one cycle and only
    /// cycles with positive durations.
    pub open spec fn is_well_formed(self) -> bool {
        match self.mode {
            HornMode::Continuous => forall|i: int|
                0 <= i < self.cycles().len() ==> (#[trigger] self.cycles()[i]).len() == 0,
            HornMode::Sequenced => {
                &&& exists|i: int|
                    0 <= i < self.cycles().len() && (#[trigger] self.cycles()[i]).len() > 0
                &&& forall|i: int, j: int|
                    0 <= i < self.cycles().len() && 0 <= j < (#[trigger] self.cycles()[i]).len()
                        ==> valid_cycle(#[trigger] self.cycles()[i][j])
            },
        }
    }
}

/// The canonical four-cycle pattern sent for a sequenced activation.
pub open spec fn sequenced_pattern() -> Seq<HornCycle> {
    seq![
        HornCycle { on_time: 100, off_time: 100 },
        HornCycle { on_time: 200, off_time: 300 },
        HornCycle { on_time: 100, off_time: 200 },
        HornCycle { on_time: 10000, off_time: 500 },
    ]
}

/// The mode each canned request carries.
pub open spec fn spec_prebuilt_mode(t: PrebuiltHornRequests) -> HornMode {
    match t {
        PrebuiltHornRequests::Sequenced => HornMode::Sequenced,
        PrebuiltHornRequests::Continuous => HornMode::Continuous,
    }
}

/// The cycle lists each canned request carries: one sequence holding the
/// canonical pattern, or one sequence holding no cycles.
pub open spec fn spec_prebuilt_cycles(t: PrebuiltHornRequests) -> Seq<Seq<HornCycle>> {
    match t {
        PrebuiltHornRequests::Sequenced => seq![sequenced_pattern()],
        PrebuiltHornRequests::Continuous => seq![Seq::<HornCycle>::empty()],
    }
}

/// Picks one of the canned activation requests.
pub fn get_prebuilt_activation_request(request_type: PrebuiltHornRequests) -> (r:
    ActivateHornRequest)
    ensures
        r.is_well_formed(),
        r.mode == spec_prebuilt_mode(request_type),
        r.cycles() == spec_prebuilt_cycles(request_type),
{
    match request_type {
        PrebuiltHornRequests::Sequenced => create_sequenced_horn_request(),
        PrebuiltHornRequests::Continuous => create_continuous_horn_request(),
    }
}

/// Builds the activation request that commands the horn to cycle through the
/// canonical sequence of on/off durations (milliseconds):
///   1. on: 100, off: 100
///   2. on: 200, off: 300
///   3. on: 100, off: 200
///   4. on: 10000, off: 500
pub fn create_sequenced_horn_request() -> (r: ActivateHornRequest)
    ensures
        r.mode == HornMode::Sequenced,
        r.cycles() =~= seq![sequenced_pattern()],
        r.is_well_formed(),
{
    let mut horn_cycles: Vec<HornCycle> = Vec::new();
    horn_cycles.push(HornCycle { on_time: 100, off_time: 100 });
    horn_cycles.push(HornCycle { on_time: 200, off_time: 300 });
    horn_cycles.push(HornCycle { on_time: 100, off_time: 200 });
    horn_cycles.push(HornCycle { on_time: 10000, off_time: 500 });
    let mut command: Vec<HornSequence> = Vec::new();
    command.push(HornSequence { horn_cycles });
    let r = ActivateHornRequest { mode: HornMode::Sequenced, command };
    proof {
        assert(r.cycles() =~~= seq![sequenced_pattern()]);
        assert(r.cycles()[0].len() > 0);
    }
    r
}

/// Builds the activation request that commands the horn to sound continuously
/// until deactivated by a separate request; its single sequence carries no
/// cycles.
pub fn create_continuous_horn_request() -> (r: ActivateHornRequest)
    ensures
        r.mode == HornMode::Continuous,
        r.cycles() =~= seq![Seq::<HornCycle>::empty()],
        r.is_well_formed(),
{
    let horn_cycles: Vec<HornCycle> = Vec::new();
    let mut command: Vec<HornSequence> = Vec::new();
    command.push(HornSequence { horn_cycles });
    let r = ActivateHornRequest { mode: HornMode::Continuous, command };
    proof {
        assert(r.cycles() =~~= seq![Seq::<HornCycle>::empty()]);
    }
    r
}

/// General constructor for callers needing a pattern outside the two canned
/// ones. The mode/cycle combination is the caller's responsibility: no
/// validation is applied here.
pub fn create_custom_activation_request(mode: HornMode, command: Vec<HornSequence>) -> (r:
    ActivateHornRequest)
    ensures
        r.mode == mode,
        r.command == command,
{
    ActivateHornRequest { mode, command }
}

/// Builds the parameterless request that deactivates the horn. Every call
/// returns the same (empty) value.
pub fn create_deactivate_horn_request() -> (r: DeactivateHornRequest)
    ensures
        r == (DeactivateHornRequest {  }),
{
    DeactivateHornRequest {  }
}

/// Deactivation requests are referentially consistent: the request carries
/// nothing, so any two of them (in particular, those of any two calls of
/// `create_deactivate_horn_request`) are equal.
pub proof fn lemma_deactivation_requests_equal(a: DeactivateHornRequest, b: DeactivateHornRequest)
    ensures
        a == b,
{
}

} // verus!
