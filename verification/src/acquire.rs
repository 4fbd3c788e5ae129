//! Acquisition of a session: the search for an adapter that gives a device,
//! and the search for an output that a duplication can be bound to.
//!
//! Both searches are run by the caller, which asks the system and reports
//! each answer; the search says what to ask next and when it is over.

use crate::utils::{
    get_hardware_adapter_desc, describes, is_software_adapter, spec_is_software,
    NativeAdapterDesc,
};
use crate::{AcquireError, DesktopRect, OutputDuplication};
use vstd::prelude::*;

verus! {

/// Feature level 11.0 of the device.
pub const FEATURE_LEVEL_11_0: i32 = 0xb000;

/// Feature level 11.1 of the device.
pub const FEATURE_LEVEL_11_1: i32 = 0xb100;

/// The creation flag that makes a device work with surfaces whose pixels are
/// blue, green, red and alpha.
pub const CREATE_DEVICE_BGRA_SUPPORT: u32 = 0x20;

/// What is asked for when a device is created on an adapter.
#[derive(Clone, Copy, Debug, PartialEq, Eq, Structural)]
pub struct DeviceRequest {
    /// The feature level that is preferred.
    pub preferred_level: i32,
    /// The feature level that will do where the preferred one is not to be
    /// had.
    pub fallback_level: i32,
    /// The creation flags.
    pub flags: u32,
}

/// The request that every search makes of an adapter: feature level 11.1
/// before 11.0, and support for BGRA surfaces.
pub open spec fn spec_device_request() -> DeviceRequest {
    DeviceRequest {
        preferred_level: FEATURE_LEVEL_11_1,
        fallback_level: FEATURE_LEVEL_11_0,
        flags: CREATE_DEVICE_BGRA_SUPPORT,
    }
}

/// What to ask for when a search says `CreateDevice`: the highest feature
/// level first, and support for BGRA surfaces.
pub fn device_request() -> (request: DeviceRequest)
    ensures
        request == spec_device_request(),
        request.preferred_level > request.fallback_level,
        request.flags == CREATE_DEVICE_BGRA_SUPPORT,
{
    DeviceRequest {
        preferred_level: FEATURE_LEVEL_11_1,
        fallback_level: FEATURE_LEVEL_11_0,
        flags: CREATE_DEVICE_BGRA_SUPPORT,
    }
}

/// What a search for a device is waiting for.
#[derive(Clone, Copy, Debug, PartialEq, Eq, Structural)]
pub enum SearchStage {
    /// The description of the adapter at the index.
    Describing,
    /// The creation of a device on the adapter at the index.
    Creating,
    /// Nothing: the search is over.
    Finished,
}

/// How far a search for a device has come.
#[derive(Clone, Copy, Debug, PartialEq, Eq, Structural)]
pub struct SearchState {
    /// Number of adapters that the enumeration gave.
    pub count: u32,
    /// The adapter that is being looked at.
    pub index: u32,
    /// An adapter that renders in hardware was seen.
    pub any_candidate: bool,
    pub stage: SearchStage,
}

impl SearchState {
    /// While the search goes on, the index is that of an adapter.
    pub open spec fn wf(self) -> bool {
        &&& self.index <= self.count
        &&& !(self.stage is Finished) ==> self.index < self.count
    }

    /// How many more answers the search can take, at most.
    pub open spec fn steps_left(self) -> nat {
        match self.stage {
            SearchStage::Describing => (2 * (self.count - self.index)) as nat,
            SearchStage::Creating => (2 * (self.count - self.index) - 1) as nat,
            SearchStage::Finished => 0,
        }
    }
}

/// What the caller of a search for a device is to do next.
#[derive(Clone, Copy, Debug, PartialEq, Eq, Structural)]
pub enum SearchAction {
    /// Ask the system for the description of the adapter at `index`.
    Describe { index: u32 },
    /// Create a device on the adapter at `index`, asking for what
    /// `device_request` says.
    CreateDevice { index: u32 },
    /// The search is over: the device created on the adapter at `index` is
    /// the one to use.
    Found { index: u32 },
    /// The search is over without a device.
    Failed { error: AcquireError },
    /// The answer fits no question that is open; nothing has changed.
    Rejected,
}

/// The search as it stands when the adapters before `index` are done with:
/// it goes on with the adapter at `index`, or fails if there is none, with
/// `DeviceCreationFailed` where a candidate was seen and `AdapterNotFound`
/// where none was.
pub open spec fn search_from(count: u32, index: int, any_candidate: bool) -> (
    SearchState,
    SearchAction,
) {
    if 0 <= index < count {
        (
            SearchState {
                count,
                index: index as u32,
                any_candidate,
                stage: SearchStage::Describing,
            },
            SearchAction::Describe { index: index as u32 },
        )
    } else {
        (
            SearchState { count, index: count, any_candidate, stage: SearchStage::Finished },
            SearchAction::Failed {
                error: if any_candidate {
                    AcquireError::DeviceCreationFailed
                } else {
                    AcquireError::AdapterNotFound
                },
            },
        )
    }
}

/// The search for the first usable adapter among `count` begins.
pub open spec fn spec_init_adaptor(count: u32) -> (SearchState, SearchAction) {
    search_from(count, 0, false)
}

/// The search for a device on the one adapter that was asked for by its
/// logical identifier begins: with the creation of the device where the
/// system knows the adapter, and not at all where it does not.
pub open spec fn spec_init_adaptor_by_luid(found: bool) -> (SearchState, SearchAction) {
    if found {
        (
            SearchState { count: 1, index: 0, any_candidate: true, stage: SearchStage::Creating },
            SearchAction::CreateDevice { index: 0 },
        )
    } else {
        (
            SearchState { count: 0, index: 0, any_candidate: false, stage: SearchStage::Finished },
            SearchAction::Failed { error: AcquireError::AdapterNotFound },
        )
    }
}

/// The system described the adapter at the index, or failed to. Without a
/// description the enumeration is broken and the search fails. A software
/// adapter is passed over. Any other adapter is a candidate, and a device is
/// created on it.
pub open spec fn spec_described(s: SearchState, native: Option<NativeAdapterDesc>) -> (
    SearchState,
    SearchAction,
) {
    if !(s.stage is Describing) {
        (s, SearchAction::Rejected)
    } else {
        match native {
            None => (
                SearchState { stage: SearchStage::Finished, ..s },
                SearchAction::Failed { error: AcquireError::AdapterNotFound },
            ),
            Some(n) => if spec_is_software(n.vendor_id, n.device_id, n.flags) {
                search_from(s.count, s.index + 1, s.any_candidate)
            } else {
                (
                    SearchState { any_candidate: true, stage: SearchStage::Creating, ..s },
                    SearchAction::CreateDevice { index: s.index },
                )
            },
        }
    }
}

/// The creation of a device on the adapter at the index succeeded, which
/// ends the search, or failed, which leads to the next adapter.
pub open spec fn spec_device_created(s: SearchState, created: bool) -> (SearchState, SearchAction) {
    if !(s.stage is Creating) {
        (s, SearchAction::Rejected)
    } else if created {
        (SearchState { stage: SearchStage::Finished, ..s }, SearchAction::Found { index: s.index })
    } else {
        search_from(s.count, s.index + 1, true)
    }
}

/// A search for an adapter that gives a device.
#[derive(Debug)]
pub struct DeviceSearch {
    state: SearchState,
}

impl View for DeviceSearch {
    type V = SearchState;

    closed spec fn view(&self) -> SearchState {
        self.state
    }
}

fn do_search_from(count: u32, index: u32, any_candidate: bool) -> (next: (
    SearchState,
    SearchAction,
))
    requires
        index <= count,
    ensures
        next == search_from(count, index as int, any_candidate),
        next.0.wf(),
{
    if index < count {
        (
            SearchState { count, index, any_candidate, stage: SearchStage::Describing },
            SearchAction::Describe { index },
        )
    } else {
        let error = if any_candidate {
            AcquireError::DeviceCreationFailed
        } else {
            AcquireError::AdapterNotFound
        };
        (
            SearchState { count, index: count, any_candidate, stage: SearchStage::Finished },
            SearchAction::Failed { error },
        )
    }
}

/// Begins the search for the first adapter, in the order of the
/// enumeration, that renders in hardware and gives a device. `adapter_count`
/// is the number of adapters that the enumeration gave; zero where the
/// enumeration itself failed.
pub fn init_adaptor(adapter_count: u32) -> (begun: (DeviceSearch, SearchAction))
    ensures
        (begun.0@, begun.1) == spec_init_adaptor(adapter_count),
        begun.0@.wf(),
{
    let (state, action) = do_search_from(adapter_count, 0, false);
    (DeviceSearch { state }, action)
}

/// Begins the search for a device on the adapter that was asked for by its
/// logical identifier; `found` says whether the system knows that adapter.
pub fn init_adaptor_by_luid(found: bool) -> (begun: (DeviceSearch, SearchAction))
    ensures
        (begun.0@, begun.1) == spec_init_adaptor_by_luid(found),
        begun.0@.wf(),
{
    if found {
        (
            DeviceSearch {
                state: SearchState {
                    count: 1,
                    index: 0,
                    any_candidate: true,
                    stage: SearchStage::Creating,
                },
            },
            SearchAction::CreateDevice { index: 0 },
        )
    } else {
        (
            DeviceSearch {
                state: SearchState {
                    count: 0,
                    index: 0,
                    any_candidate: false,
                    stage: SearchStage::Finished,
                },
            },
            SearchAction::Failed { error: AcquireError::AdapterNotFound },
        )
    }
}

impl DeviceSearch {
    #[verifier::type_invariant]
    spec fn inv(self) -> bool {
        self.state.wf()
    }

    /// Takes the description of the adapter that was asked about, `None`
    /// where the system gave none, and says how the search goes on.
    pub fn described(&mut self, native: Option<&NativeAdapterDesc>) -> (action: SearchAction)
        ensures
            (final(self)@, action) == spec_described(
                old(self)@,
                match native {
                    Some(n) => Some(*n),
                    None => None,
                },
            ),
            old(self)@.wf(),
            final(self)@.wf(),
    {
        proof {
            use_type_invariant(&*self);
        }
        let s = self.state;
        let (next, action) = match s.stage {
            SearchStage::Describing => match native {
                None => (
                    SearchState { stage: SearchStage::Finished, ..s },
                    SearchAction::Failed { error: AcquireError::AdapterNotFound },
                ),
                Some(n) => {
                    if is_software_adapter(n.vendor_id, n.device_id, n.flags) {
                        do_search_from(s.count, s.index + 1, s.any_candidate)
                    } else {
                        (
                            SearchState { any_candidate: true, stage: SearchStage::Creating, ..s },
                            SearchAction::CreateDevice { index: s.index },
                        )
                    }
                },
            },
            _ => (s, SearchAction::Rejected),
        };
        self.state = next;
        action
    }

    /// Takes what the creation of a device on the adapter came to, and says
    /// how the search goes on.
    pub fn device_created(&mut self, created: bool) -> (action: SearchAction)
        ensures
            (final(self)@, action) == spec_device_created(old(self)@, created),
            old(self)@.wf(),
            final(self)@.wf(),
    {
        proof {
            use_type_invariant(&*self);
        }
        let s = self.state;
        let (next, action) = match s.stage {
            SearchStage::Creating => {
                if created {
                    (
                        SearchState { stage: SearchStage::Finished, ..s },
                        SearchAction::Found { index: s.index },
                    )
                } else {
                    do_search_from(s.count, s.index + 1, true)
                }
            },
            _ => (s, SearchAction::Rejected),
        };
        self.state = next;
        action
    }

    /// How far the search has come.
    pub fn state(&self) -> (state: SearchState)
        ensures
            state == self@,
            state.wf(),
    {
        proof {
            use_type_invariant(self);
        }
        self.state
    }
}

/// How one adapter answers a search: what the system reports of it, if
/// anything, and whether it gives a device.
pub struct AdapterProbe {
    pub native: Option<NativeAdapterDesc>,
    pub creates_device: bool,
}

impl AdapterProbe {
    /// The adapter renders in hardware.
    pub open spec fn is_candidate(self) -> bool {
        self.native matches Some(n) && !spec_is_software(n.vendor_id, n.device_id, n.flags)
    }

    /// The adapter renders in hardware and gives a device.
    pub open spec fn usable(self) -> bool {
        self.is_candidate() && self.creates_device
    }
}

/// The adapter that a search chooses when the adapters answer as `world`
/// says and those before `from` are done with: the first from there on that
/// is usable, unless the description of an adapter before it fails.
pub open spec fn chosen_adapter(world: Seq<AdapterProbe>, from: int, any_candidate: bool) -> Result<
    int,
    AcquireError,
>
    decreases world.len() - from,
{
    if from < 0 || from >= world.len() {
        Err(
            if any_candidate {
                AcquireError::DeviceCreationFailed
            } else {
                AcquireError::AdapterNotFound
            },
        )
    } else if world[from].native is None {
        Err(AcquireError::AdapterNotFound)
    } else if world[from].usable() {
        Ok(from)
    } else {
        chosen_adapter(world, from + 1, any_candidate || world[from].is_candidate())
    }
}

/// Where a search that stands at `(s, a)` ends when the adapters answer as
/// `world` says.
pub open spec fn search_outcome(s: SearchState, a: SearchAction, world: Seq<AdapterProbe>)
    -> Result<int, AcquireError> {
    match a {
        SearchAction::Describe { index } => chosen_adapter(world, index as int, s.any_candidate),
        SearchAction::CreateDevice { index } => if world[index as int].creates_device {
            Ok(index as int)
        } else {
            chosen_adapter(world, index + 1, true)
        },
        SearchAction::Found { index } => Ok(index as int),
        SearchAction::Failed { error } => Err(error),
        SearchAction::Rejected => Err(AcquireError::AdapterNotFound),
    }
}

/// A search among the adapters of `world` begins with the outcome
/// `chosen_adapter(world, 0, false)` before it.
pub proof fn lemma_search_begins(world: Seq<AdapterProbe>)
    requires
        world.len() <= u32::MAX,
    ensures
        ({
            let (s, a) = spec_init_adaptor(world.len() as u32);
            search_outcome(s, a, world) == chosen_adapter(world, 0, false)
        }),
{
}

/// Every answer that the adapters of `world` give keeps the outcome of the
/// search and brings the search nearer to its end. So the search ends with
/// `Found` for the adapter that `chosen_adapter` names, or with the error
/// that it names.
pub proof fn lemma_search_follows(s: SearchState, a: SearchAction, world: Seq<AdapterProbe>)
    requires
        s.wf(),
        world.len() == s.count,
        (s.stage is Describing && a == (SearchAction::Describe { index: s.index })) || (s.stage
            is Creating && a == (SearchAction::CreateDevice { index: s.index })
            && s.any_candidate && world[s.index as int].is_candidate()),
    ensures
        ({
            let answer = world[s.index as int];
            let (n, b) = if s.stage is Describing {
                spec_described(s, answer.native)
            } else {
                spec_device_created(s, answer.creates_device)
            };
            &&& n.wf()
            &&& n.count == s.count
            &&& search_outcome(n, b, world) == search_outcome(s, a, world)
            &&& n.steps_left() < s.steps_left()
            &&& b is Describe ==> n.stage is Describing && b->Describe_index == n.index
            &&& b is CreateDevice ==> n.stage is Creating && b->CreateDevice_index == n.index
                && n.any_candidate && world[n.index as int].is_candidate()
            &&& b is Found || b is Failed <==> n.stage is Finished
            &&& !(b is Rejected)
        }),
{
    reveal_with_fuel(chosen_adapter, 3);
}

/// The first usable adapter wins: where the adapters before `k` were all
/// described and each is a software adapter or refuses a device, and the
/// adapter at `k` is usable, the search chooses `k`.
pub proof fn lemma_first_usable_wins(world: Seq<AdapterProbe>, k: int)
    requires
        0 <= k < world.len(),
        forall|j: int| 0 <= j < k ==> (#[trigger] world[j]).native is Some && !world[j].usable(),
        world[k].usable(),
    ensures
        chosen_adapter(world, 0, false) == Ok::<int, AcquireError>(k),
{
    lemma_chosen_from(world, 0, k, false);
}

proof fn lemma_chosen_from(world: Seq<AdapterProbe>, from: int, k: int, any_candidate: bool)
    requires
        0 <= from <= k < world.len(),
        forall|j: int| from <= j < k ==> (#[trigger] world[j]).native is Some && !world[j].usable(),
        world[k].usable(),
    ensures
        chosen_adapter(world, from, any_candidate) == Ok::<int, AcquireError>(k),
    decreases k - from,
{
    if from < k {
        assert(world[from].native is Some && !world[from].usable());
        lemma_chosen_from(world, from + 1, k, any_candidate || world[from].is_candidate());
    }
}

/// Where every adapter was described and none is usable, the search fails:
/// with `AdapterNotFound` if none renders in hardware, which includes the
/// case of no adapter at all, and with `DeviceCreationFailed` otherwise.
pub proof fn lemma_no_usable_adapter(world: Seq<AdapterProbe>)
    requires
        forall|j: int| 0 <= j < world.len() ==> (#[trigger] world[j]).native is Some && !world[j].usable(),
    ensures
        chosen_adapter(world, 0, false) == Err::<int, AcquireError>(
            if exists|j: int| 0 <= j < world.len() && (#[trigger] world[j]).is_candidate() {
                AcquireError::DeviceCreationFailed
            } else {
                AcquireError::AdapterNotFound
            },
        ),
{
    lemma_none_from(world, 0, false);
}

proof fn lemma_none_from(world: Seq<AdapterProbe>, from: int, any_candidate: bool)
    requires
        0 <= from <= world.len(),
        forall|j: int| 0 <= j < world.len() ==> (#[trigger] world[j]).native is Some && !world[j].usable(),
        any_candidate <==> exists|j: int| 0 <= j < from && (#[trigger] world[j]).is_candidate(),
    ensures
        chosen_adapter(world, from, any_candidate) == Err::<int, AcquireError>(
            if exists|j: int| 0 <= j < world.len() && (#[trigger] world[j]).is_candidate() {
                AcquireError::DeviceCreationFailed
            } else {
                AcquireError::AdapterNotFound
            },
        ),
    decreases world.len() - from,
{
    if from < world.len() {
        assert(world[from].native is Some && !world[from].usable());
        let next = any_candidate || world[from].is_candidate();
        if next {
            if any_candidate {
                let j = choose|j: int| 0 <= j < from && (#[trigger] world[j]).is_candidate();
                assert(0 <= j < from + 1 && world[j].is_candidate());
            } else {
                assert(0 <= from < from + 1 && world[from].is_candidate());
            }
        } else {
            assert forall|j: int| 0 <= j < from + 1 implies !(#[trigger] world[j]).is_candidate() by {
                if j < from {
                    assert(!any_candidate);
                }
            }
        }
        lemma_none_from(world, from + 1, next);
    } else {
        if any_candidate {
            let j = choose|j: int| 0 <= j < from && (#[trigger] world[j]).is_candidate();
            assert(0 <= j < world.len() && world[j].is_candidate());
        }
    }
}

/// Where the system fails to describe the adapter at `k`, and no adapter
/// before it is usable, the search fails with `AdapterNotFound`.
pub proof fn lemma_broken_enumeration(world: Seq<AdapterProbe>, k: int)
    requires
        0 <= k < world.len(),
        forall|j: int| 0 <= j < k ==> (#[trigger] world[j]).native is Some && !world[j].usable(),
        world[k].native is None,
    ensures
        chosen_adapter(world, 0, false) == Err::<int, AcquireError>(AcquireError::AdapterNotFound),
{
    lemma_broken_from(world, 0, k, false);
}

proof fn lemma_broken_from(world: Seq<AdapterProbe>, from: int, k: int, any_candidate: bool)
    requires
        0 <= from <= k < world.len(),
        forall|j: int| from <= j < k ==> (#[trigger] world[j]).native is Some && !world[j].usable(),
        world[k].native is None,
    ensures
        chosen_adapter(world, from, any_candidate) == Err::<int, AcquireError>(
            AcquireError::AdapterNotFound,
        ),
    decreases k - from,
{
    if from < k {
        assert(world[from].native is Some && !world[from].usable());
        lemma_broken_from(world, from + 1, k, any_candidate || world[from].is_candidate());
    }
}

/// The duplication that a binding to an output gives: the output covers
/// `rect`, and the system reports `native` of the adapter.
pub open spec fn binds(d: OutputDuplication, rect: DesktopRect, native: NativeAdapterDesc) -> bool {
    &&& d.dimensions().0 == rect.spec_width()
    &&& d.dimensions().1 == rect.spec_height()
    &&& describes(d.adapter(), 0, native)
    &&& d.adapter().wf()
    &&& d.wf()
}

/// Records a binding to the output that covers `rect` on the desktop, on
/// the adapter of which the system reports `native`. There is no record
/// where the rectangle is degenerate or the system reported nothing of the
/// adapter; the binding is then of no use and is to be dropped.
pub fn bind_output(rect: DesktopRect, native: Option<&NativeAdapterDesc>) -> (bound: Option<
    OutputDuplication,
>)
    ensures
        bound is Some <==> rect.covers_pixels() && native is Some,
        bound matches Some(d) ==> binds(d, rect, *native->Some_0),
{
    match get_hardware_adapter_desc(native) {
        Some(adapter_desc) => OutputDuplication::from_desktop_coordinates(rect, adapter_desc),
        None => None,
    }
}

/// How far a search for an output has come.
#[derive(Clone, Copy, Debug, PartialEq, Eq, Structural)]
pub struct OutputSearchState {
    /// The output that was asked for, counted from zero.
    pub monitor_index: u32,
    /// The output that is being tried.
    pub index: u32,
    /// The search is over.
    pub finished: bool,
}

impl OutputSearchState {
    /// The outputs that are tried are those up to the one asked for.
    pub open spec fn wf(self) -> bool {
        self.index <= self.monitor_index
    }

    /// How many more answers the search can take, at most.
    pub open spec fn steps_left(self) -> nat {
        if self.finished {
            0
        } else {
            (self.monitor_index - self.index + 1) as nat
        }
    }
}

/// What the caller of a search for an output is to do next.
#[derive(Debug, PartialEq, Eq)]
pub enum OutputAction {
    /// Try to bind a duplication to the output at `output_index`, and where
    /// that succeeds, record it with `bind_output`.
    Probe { output_index: u32 },
    /// The search is over: this duplication, bound to the output at
    /// `output_index`, is the one to use.
    Bound { duplication: OutputDuplication, output_index: u32 },
    /// The search is over without a duplication.
    Failed { error: AcquireError },
    /// The answer fits no question that is open; nothing has changed.
    Rejected,
}

/// The search for an output begins: with the first output where the output
/// asked for exists, and not at all where it does not.
pub open spec fn spec_acquire_duplication(output_count: u32, monitor_index: u32) -> (
    OutputSearchState,
    OutputAction,
) {
    if monitor_index < output_count {
        (
            OutputSearchState { monitor_index, index: 0, finished: false },
            OutputAction::Probe { output_index: 0 },
        )
    } else {
        (
            OutputSearchState { monitor_index, index: 0, finished: true },
            OutputAction::Failed { error: AcquireError::DuplicationUnavailable },
        )
    }
}

/// The output at the index was tried. A binding ends the search. Without
/// one the next output is tried, up to the output that was asked for; after
/// that the search fails.
pub open spec fn spec_probed(s: OutputSearchState, bound: Option<OutputDuplication>) -> (
    OutputSearchState,
    OutputAction,
) {
    if s.finished {
        (s, OutputAction::Rejected)
    } else {
        match bound {
            Some(duplication) => (
                OutputSearchState { finished: true, ..s },
                OutputAction::Bound { duplication, output_index: s.index },
            ),
            None => if s.index < s.monitor_index {
                (
                    OutputSearchState { index: (s.index + 1) as u32, ..s },
                    OutputAction::Probe { output_index: (s.index + 1) as u32 },
                )
            } else {
                (
                    OutputSearchState { finished: true, ..s },
                    OutputAction::Failed { error: AcquireError::DuplicationUnavailable },
                )
            },
        }
    }
}

/// A search for an output to bind a duplication to.
#[derive(Debug)]
pub struct DuplicationSearch {
    state: OutputSearchState,
}

impl View for DuplicationSearch {
    type V = OutputSearchState;

    closed spec fn view(&self) -> OutputSearchState {
        self.state
    }
}

/// Begins the search for a duplication on the outputs of one adapter, from
/// output zero up to and including the output `monitor_index`; the first
/// output that can be bound wins. `output_count` is the number of outputs
/// that the adapter has. An index beyond them fails at once.
pub fn acquire_duplication(output_count: u32, monitor_index: u32) -> (begun: (
    DuplicationSearch,
    OutputAction,
))
    ensures
        (begun.0@, begun.1) == spec_acquire_duplication(output_count, monitor_index),
        begun.0@.wf(),
        begun.1 is Failed <==> monitor_index >= output_count,
{
    if monitor_index < output_count {
        (
            DuplicationSearch {
                state: OutputSearchState { monitor_index, index: 0, finished: false },
            },
            OutputAction::Probe { output_index: 0 },
        )
    } else {
        (
            DuplicationSearch {
                state: OutputSearchState { monitor_index, index: 0, finished: true },
            },
            OutputAction::Failed { error: AcquireError::DuplicationUnavailable },
        )
    }
}

impl DuplicationSearch {
    #[verifier::type_invariant]
    spec fn inv(self) -> bool {
        self.state.wf()
    }

    /// Takes what the attempt on the output came to, the record of the
    /// binding or `None`, and says how the search goes on.
    pub fn probed(&mut self, bound: Option<OutputDuplication>) -> (action: OutputAction)
        ensures
            (final(self)@, action) == spec_probed(old(self)@, bound),
            old(self)@.wf(),
            final(self)@.wf(),
    {
        proof {
            use_type_invariant(&*self);
        }
        let s = self.state;
        if s.finished {
            return OutputAction::Rejected;
        }
        let (next, action) = match bound {
            Some(duplication) => (
                OutputSearchState { finished: true, ..s },
                OutputAction::Bound { duplication, output_index: s.index },
            ),
            None => {
                if s.index < s.monitor_index {
                    (
                        OutputSearchState { index: s.index + 1, ..s },
                        OutputAction::Probe { output_index: s.index + 1 },
                    )
                } else {
                    (
                        OutputSearchState { finished: true, ..s },
                        OutputAction::Failed { error: AcquireError::DuplicationUnavailable },
                    )
                }
            },
        };
        self.state = next;
        action
    }

    /// How far the search has come.
    pub fn state(&self) -> (state: OutputSearchState)
        ensures
            state == self@,
            state.wf(),
    {
        proof {
            use_type_invariant(self);
        }
        self.state
    }
}

/// The output that a search binds when the attempt on output `i` gives
/// `world[i]` and the outputs before `from` have failed: the first from
/// there up to `monitor_index` that gives a binding.
pub open spec fn chosen_output(
    world: Seq<Option<OutputDuplication>>,
    monitor_index: int,
    from: int,
) -> Option<int>
    decreases monitor_index - from + 1,
{
    if from < 0 || from > monitor_index || monitor_index >= world.len() {
        None
    } else if world[from] is Some {
        Some(from)
    } else {
        chosen_output(world, monitor_index, from + 1)
    }
}

/// Where a search for an output that stands at `(s, a)` ends when the
/// outputs answer as `world` says.
pub open spec fn output_outcome(
    s: OutputSearchState,
    a: OutputAction,
    world: Seq<Option<OutputDuplication>>,
) -> Option<int> {
    match a {
        OutputAction::Probe { output_index } => chosen_output(
            world,
            s.monitor_index as int,
            output_index as int,
        ),
        OutputAction::Bound { output_index, .. } => Some(output_index as int),
        OutputAction::Failed { .. } => None,
        OutputAction::Rejected => None,
    }
}

/// A search among the outputs of `world` begins with the outcome
/// `chosen_output(world, monitor_index, 0)` before it.
pub proof fn lemma_output_search_begins(world: Seq<Option<OutputDuplication>>, monitor_index: u32)
    requires
        world.len() <= u32::MAX,
    ensures
        ({
            let (s, a) = spec_acquire_duplication(world.len() as u32, monitor_index);
            &&& output_outcome(s, a, world) == chosen_output(world, monitor_index as int, 0)
            &&& a is Failed <==> monitor_index >= world.len()
            &&& a is Failed ==> a->error == AcquireError::DuplicationUnavailable
        }),
{
}

/// Every answer that the outputs of `world` give keeps the outcome of the
/// search and brings the search nearer to its end; a binding that ends the
/// search is the one that the output gave, and a failure is
/// `DuplicationUnavailable`.
pub proof fn lemma_output_search_follows(
    s: OutputSearchState,
    world: Seq<Option<OutputDuplication>>,
)
    requires
        s.wf(),
        !s.finished,
        s.monitor_index < world.len(),
    ensures
        ({
            let a = OutputAction::Probe { output_index: s.index };
            let (n, b) = spec_probed(s, world[s.index as int]);
            &&& n.wf()
            &&& n.monitor_index == s.monitor_index
            &&& output_outcome(n, b, world) == output_outcome(s, a, world)
            &&& n.steps_left() < s.steps_left()
            &&& b is Probe ==> !n.finished && b->Probe_output_index == n.index
            &&& b is Bound ==> Some(b->duplication) == world[b->Bound_output_index as int]
            &&& b is Failed ==> b->error == AcquireError::DuplicationUnavailable
            &&& b is Bound || b is Failed <==> n.finished
            &&& !(b is Rejected)
        }),
{
    reveal_with_fuel(chosen_output, 3);
}

/// The search binds output `k` exactly where `k` is the first output that
/// gives a binding, among the outputs up to the one asked for, and the one
/// asked for exists.
pub proof fn lemma_first_output_wins(
    world: Seq<Option<OutputDuplication>>,
    monitor_index: int,
    k: int,
)
    requires
        0 <= k <= monitor_index < world.len(),
        forall|j: int| 0 <= j < k ==> (#[trigger] world[j]) is None,
        world[k] is Some,
    ensures
        chosen_output(world, monitor_index, 0) == Some(k),
{
    lemma_output_from(world, monitor_index, 0, k);
}

proof fn lemma_output_from(
    world: Seq<Option<OutputDuplication>>,
    monitor_index: int,
    from: int,
    k: int,
)
    requires
        0 <= from <= k <= monitor_index < world.len(),
        forall|j: int| from <= j < k ==> (#[trigger] world[j]) is None,
        world[k] is Some,
    ensures
        chosen_output(world, monitor_index, from) == Some(k),
    decreases k - from,
{
    if from < k {
        assert(world[from] is None);
        lemma_output_from(world, monitor_index, from + 1, k);
    }
}

/// The search binds nothing where the output asked for does not exist, and
/// where no output up to it gives a binding.
pub proof fn lemma_no_output(world: Seq<Option<OutputDuplication>>, monitor_index: int)
    requires
        0 <= monitor_index,
        monitor_index >= world.len() || forall|j: int|
            0 <= j <= monitor_index ==> (#[trigger] world[j]) is None,
    ensures
        chosen_output(world, monitor_index, 0) is None,
{
    if monitor_index < world.len() {
        lemma_no_output_from(world, monitor_index, 0);
    }
}

proof fn lemma_no_output_from(world: Seq<Option<OutputDuplication>>, monitor_index: int, from: int)
    requires
        0 <= from,
        monitor_index < world.len(),
        forall|j: int| 0 <= j <= monitor_index ==> (#[trigger] world[j]) is None,
    ensures
        chosen_output(world, monitor_index, from) is None,
    decreases monitor_index - from + 1,
{
    if from <= monitor_index {
        assert(world[from] is None);
        lemma_no_output_from(world, monitor_index, from + 1);
    }
}

} // verus!
