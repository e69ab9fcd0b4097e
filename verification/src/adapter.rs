//! Choosing the physical adapter and queue family a device is built on.
//!
//! The harness enumerates the adapters and reports each one as a plain
//! profile; the selection policy itself — which adapters qualify and which
//! of the qualifying ones wins — lives here.

use vstd::prelude::*;

verus! {

/// The broad class of a physical adapter.
#[derive(Clone, Copy, PartialEq, Eq, Structural, Debug)]
pub enum DeviceKind {
    DiscreteGpu,
    IntegratedGpu,
    VirtualGpu,
    Cpu,
    Other,
}

/// Selection preference: a smaller rank is a better adapter.
pub open spec fn spec_device_rank(kind: DeviceKind) -> u32 {
    match kind {
        DeviceKind::DiscreteGpu => 0,
        DeviceKind::IntegratedGpu => 1,
        DeviceKind::VirtualGpu => 2,
        DeviceKind::Cpu => 3,
        DeviceKind::Other => 4,
    }
}

pub fn device_rank(kind: DeviceKind) -> (r: u32)
    ensures
        r == spec_device_rank(kind),
{
    match kind {
        DeviceKind::DiscreteGpu => 0,
        DeviceKind::IntegratedGpu => 1,
        DeviceKind::VirtualGpu => 2,
        DeviceKind::Cpu => 3,
        DeviceKind::Other => 4,
    }
}

/// An adapter's reported interface version.
#[derive(Clone, Copy, PartialEq, Eq, Structural, Debug)]
pub struct ApiVersion {
    pub major: u32,
    pub minor: u32,
}

impl ApiVersion {
    /// Dynamic rendering is part of the interface from version 1.3 on.
    pub open spec fn spec_has_native_dynamic_rendering(self) -> bool {
        self.major > 1 || (self.major == 1 && self.minor >= 3)
    }

    pub fn has_native_dynamic_rendering(&self) -> (r: bool)
        ensures
            r == self.spec_has_native_dynamic_rendering(),
    {
        self.major > 1 || (self.major == 1 && self.minor >= 3)
    }
}

/// Whether the device must be built with the dynamic-rendering extension
/// enabled: only adapters below version 1.3 need it as an extension.
pub fn needs_dynamic_rendering_extension(version: ApiVersion) -> (r: bool)
    ensures
        r == !version.spec_has_native_dynamic_rendering(),
{
    !version.has_native_dynamic_rendering()
}

/// One queue family of an adapter, as far as selection cares: whether it can
/// run graphics work and whether it can present to the window's surface.
#[derive(Clone, Copy, PartialEq, Eq, Structural, Debug)]
pub struct QueueFamily {
    pub supports_graphics: bool,
    pub supports_surface: bool,
}

impl QueueFamily {
    /// A family the renderer can use must both draw and present.
    pub open spec fn spec_usable(self) -> bool {
        self.supports_graphics && self.supports_surface
    }
}

/// A physical adapter, as the harness reports it.
pub struct AdapterProfile {
    pub api_version: ApiVersion,
    /// The adapter offers dynamic rendering as an extension.
    pub has_dynamic_rendering_extension: bool,
    /// The adapter offers the swapchain extension.
    pub has_swapchain_extension: bool,
    pub kind: DeviceKind,
    pub queue_families: Vec<QueueFamily>,
}

impl AdapterProfile {
    /// Whether any queue family of this adapter is usable.
    pub open spec fn spec_has_usable_family(self) -> bool {
        exists|i: int|
            0 <= i < self.queue_families@.len() && self.queue_families@[i].spec_usable()
    }

    /// An adapter qualifies when it offers dynamic rendering (natively or as
    /// an extension), can drive a swapchain, and has a usable queue family.
    pub open spec fn spec_eligible(self) -> bool {
        &&& (self.api_version.spec_has_native_dynamic_rendering()
            || self.has_dynamic_rendering_extension)
        &&& self.has_swapchain_extension
        &&& self.spec_has_usable_family()
    }
}

/// The position of the first usable queue family, if the adapter has one.
pub fn find_queue_family(families: &Vec<QueueFamily>) -> (r: Option<usize>)
    ensures
        match r {
            Option::Some(q) => q < families@.len() && families@[q as int].spec_usable()
                && forall|k: int| 0 <= k < q ==> !families@[k].spec_usable(),
            Option::None => forall|k: int|
                0 <= k < families@.len() ==> !families@[k].spec_usable(),
        },
{
    let mut i: usize = 0;
    while i < families.len()
        invariant
            0 <= i <= families@.len(),
            forall|k: int| 0 <= k < i ==> !families@[k].spec_usable(),
        decreases families@.len() - i,
    {
        let f = families[i];
        if f.supports_graphics && f.supports_surface {
            return Option::Some(i);
        }
        i = i + 1;
    }
    Option::None
}

/// Whether this adapter qualifies at all.
pub fn adapter_eligible(adapter: &AdapterProfile) -> (r: bool)
    ensures
        r == adapter.spec_eligible(),
{
    if !(adapter.api_version.has_native_dynamic_rendering()
        || adapter.has_dynamic_rendering_extension) {
        return false;
    }
    if !adapter.has_swapchain_extension {
        return false;
    }
    match find_queue_family(&adapter.queue_families) {
        Option::Some(_) => true,
        Option::None => false,
    }
}

/// Picks the adapter a device is built on: among the qualifying adapters,
/// the one with the best (smallest) device rank, and of equally ranked ones
/// the first in enumeration order; paired with the position of its first
/// usable queue family. `None` exactly when no adapter qualifies.
pub fn select_adapter(adapters: &Vec<AdapterProfile>) -> (r: Option<(usize, usize)>)
    ensures
        r is Some <==> exists|i: int|
            0 <= i < adapters@.len() && (#[trigger] adapters@[i]).spec_eligible(),
        r matches Option::Some((i, q)) ==> {
            &&& i < adapters@.len()
            &&& adapters@[i as int].spec_eligible()
            &&& q < adapters@[i as int].queue_families@.len()
            &&& adapters@[i as int].queue_families@[q as int].spec_usable()
            &&& forall|k: int|
                0 <= k < q ==> !adapters@[i as int].queue_families@[k].spec_usable()
            &&& forall|j: int|
                0 <= j < adapters@.len() && (#[trigger] adapters@[j]).spec_eligible()
                    ==> spec_device_rank(adapters@[i as int].kind) <= spec_device_rank(
                    adapters@[j].kind,
                )
            &&& forall|j: int|
                0 <= j < i && (#[trigger] adapters@[j]).spec_eligible() ==> spec_device_rank(
                    adapters@[j].kind,
                ) > spec_device_rank(adapters@[i as int].kind)
        },
{
    let mut best: Option<(usize, usize)> = Option::None;
    let mut best_rank: u32 = 0;
    let mut i: usize = 0;
    while i < adapters.len()
        invariant
            0 <= i <= adapters@.len(),
            match best {
                Option::None => forall|k: int|
                    0 <= k < i ==> !(#[trigger] adapters@[k]).spec_eligible(),
                Option::Some((bi, bq)) => {
                    &&& bi < i
                    &&& adapters@[bi as int].spec_eligible()
                    &&& best_rank == spec_device_rank(adapters@[bi as int].kind)
                    &&& bq < adapters@[bi as int].queue_families@.len()
                    &&& adapters@[bi as int].queue_families@[bq as int].spec_usable()
                    &&& forall|k: int|
                        0 <= k < bq ==> !adapters@[bi as int].queue_families@[k].spec_usable()
                    &&& forall|k: int|
                        0 <= k < i && (#[trigger] adapters@[k]).spec_eligible() ==> best_rank
                            <= spec_device_rank(adapters@[k].kind)
                    &&& forall|k: int|
                        0 <= k < bi && (#[trigger] adapters@[k]).spec_eligible()
                            ==> spec_device_rank(adapters@[k].kind) > best_rank
                },
            },
        decreases adapters@.len() - i,
    {
        let a = &adapters[i];
        if adapter_eligible(a) {
            let rank = device_rank(a.kind);
            let better = match best {
                Option::Some(_) => rank < best_rank,
                Option::None => true,
            };
            if better {
                match find_queue_family(&a.queue_families) {
                    Option::Some(q) => {
                        best = Option::Some((i, q));
                        best_rank = rank;
                    },
                    Option::None => {
                        proof {
                            assert(false);
                        }
                    },
                }
            }
        }
        i = i + 1;
    }
    best
}

} // verus!
