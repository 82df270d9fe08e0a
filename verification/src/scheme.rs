//! Bind group schemes: a layout declared once, and bind groups made to fit it.

use vstd::prelude::*;
use crate::layout::{BindGroupLayoutEntry, LayoutDescriptor};
use crate::region::ConstructionError;
use crate::resource::{compatible, is_compatible, BindGroupEntry, Resource};

verus! {

/// Why a list of resources does not fit a scheme.
#[derive(Clone, Copy, Debug, PartialEq, Eq, Structural)]
pub enum BindError {
    /// The scheme has `expected` slots and `found` resources were offered.
    CountMismatch { expected: usize, found: usize },
    /// The resource at `index` cannot fill the slot at `index`; those before it can.
    CapabilityMismatch { index: usize },
}

/// Whether no slot of `descriptors` before `end` asks for bindings of no bytes.
pub open spec fn sized_before(descriptors: Seq<LayoutDescriptor>, end: int) -> bool {
    forall|i: int| 0 <= i < end ==> !(#[trigger] descriptors[i]).ty.spec_is_zero_sized()
}

/// Whether the slot at `i` has the index of one declared before it.
pub open spec fn repeats_slot(descriptors: Seq<LayoutDescriptor>, i: int) -> bool {
    exists|j: int| 0 <= j < i && (#[trigger] descriptors[j]).slot == descriptors[i].slot
}

/// Whether no slot of `descriptors` before `end` has the index of one declared before it.
pub open spec fn distinct_before(descriptors: Seq<LayoutDescriptor>, end: int) -> bool {
    forall|i: int| 0 <= i < end ==> !#[trigger] repeats_slot(descriptors, i)
}

/// Whether a backend can lay `descriptors` out: every buffer slot asks for at least
/// one byte, and no slot index is declared twice.
pub open spec fn accepted(descriptors: Seq<LayoutDescriptor>) -> bool {
    &&& sized_before(descriptors, descriptors.len() as int)
    &&& distinct_before(descriptors, descriptors.len() as int)
}

/// Whether the resources before `end` fill the slots at their places.
pub open spec fn fits_before(
    descriptors: Seq<LayoutDescriptor>,
    resources: Seq<Resource>,
    end: int,
) -> bool {
    forall|i: int| 0 <= i < end ==> compatible((#[trigger] descriptors[i]).ty, resources[i])
}

/// Whether `resources` fills the slots of `descriptors`, one for one and in order.
pub open spec fn fits(descriptors: Seq<LayoutDescriptor>, resources: Seq<Resource>) -> bool {
    &&& resources.len() == descriptors.len()
    &&& fits_before(descriptors, resources, descriptors.len() as int)
}

/// The entries of the bind group that binds `resources` to the slots of `descriptors`.
pub open spec fn bound_entries(
    descriptors: Seq<LayoutDescriptor>,
    resources: Seq<Resource>,
) -> Seq<BindGroupEntry> {
    Seq::new(
        descriptors.len(),
        |i: int| BindGroupEntry { binding: descriptors[i].slot, resource: resources[i].spec_binding() },
    )
}

/// The backend layout entries that declare the slots of `descriptors`.
pub open spec fn backend_entries(descriptors: Seq<LayoutDescriptor>) -> Seq<BindGroupLayoutEntry> {
    Seq::new(descriptors.len(), |i: int| descriptors[i].spec_to_backend_entry())
}

/// A list of resources in which one is of another category than its slot fits no scheme.
pub proof fn lemma_category_mismatch_rejected(
    descriptors: Seq<LayoutDescriptor>,
    resources: Seq<Resource>,
    i: int,
)
    requires
        0 <= i < descriptors.len(),
        i < resources.len(),
        !resources[i].spec_satisfies(descriptors[i].ty.spec_category()),
    ensures
        !fits(descriptors, resources),
{
    if fits(descriptors, resources) {
        assert(compatible(descriptors[i].ty, resources[i]));
    }
}

/// A copy of `descriptors`.
pub(crate) fn copy_descriptors(descriptors: &Vec<LayoutDescriptor>) -> (copy: Vec<LayoutDescriptor>)
    ensures
        copy@ == descriptors@,
{
    let mut copy: Vec<LayoutDescriptor> = Vec::new();
    let mut i: usize = 0;
    while i < descriptors.len()
        invariant
            i <= descriptors.len(),
            copy@ == descriptors@.take(i as int),
        decreases descriptors.len() - i,
    {
        copy.push(descriptors[i]);
        i += 1;
        assert(copy@ =~= descriptors@.take(i as int));
    }
    assert(descriptors@.take(descriptors.len() as int) =~= descriptors@);
    copy
}

/// What tells the bind groups of one scheme from those of another: the name of the
/// scheme and its slots.
pub ghost struct SchemeKey {
    pub id: u64,
    pub slots: Seq<LayoutDescriptor>,
}

/// The layout of one bind group, and the maker of bind groups that fit it.
pub struct BindGroupScheme {
    id: u64,
    descriptors: Vec<LayoutDescriptor>,
}

/// A bind group: resources bound to the slots of the scheme it was made by.
pub struct BindingInstance {
    scheme: u64,
    layout: Vec<LayoutDescriptor>,
    entries: Vec<BindGroupEntry>,
}

impl BindGroupScheme {
    /// The name of the scheme, by which its bind groups are told from those of others.
    pub closed spec fn spec_id(&self) -> u64 {
        self.id
    }

    /// The slots of the scheme, in the order in which they were declared.
    pub closed spec fn spec_descriptors(&self) -> Seq<LayoutDescriptor> {
        self.descriptors@
    }

    /// What tells the bind groups of this scheme from those of another.
    pub open spec fn spec_key(&self) -> SchemeKey {
        SchemeKey { id: self.spec_id(), slots: self.spec_descriptors() }
    }

    /// A backend can lay the scheme out.
    pub open spec fn wf(&self) -> bool {
        accepted(self.spec_descriptors())
    }

    #[verifier::type_invariant]
    spec fn inv(&self) -> bool {
        self.wf()
    }

    /// The scheme named `id` of the slots `descriptors`, unless one of them asks for
    /// bindings of no bytes or declares a slot index again.  The error names the first
    /// such slot.
    pub fn new(id: u64, descriptors: Vec<LayoutDescriptor>) -> (r: Result<
        Self,
        ConstructionError,
    >)
        ensures
            r is Ok <==> accepted(descriptors@),
            match r {
                Ok(scheme) => {
                    &&& accepted(descriptors@)
                    &&& scheme.wf()
                    &&& scheme.spec_id() == id
                    &&& scheme.spec_descriptors() == descriptors@
                },
                Err(ConstructionError::ZeroSizedBinding { index }) => {
                    &&& index < descriptors@.len()
                    &&& descriptors@[index as int].ty.spec_is_zero_sized()
                    &&& sized_before(descriptors@, index as int)
                    &&& distinct_before(descriptors@, index as int)
                },
                Err(ConstructionError::DuplicateSlot { index }) => {
                    &&& index < descriptors@.len()
                    &&& repeats_slot(descriptors@, index as int)
                    &&& !descriptors@[index as int].ty.spec_is_zero_sized()
                    &&& sized_before(descriptors@, index as int)
                    &&& distinct_before(descriptors@, index as int)
                },
                Err(ConstructionError::ZeroSizedElement) => false,
            },
    {
        let mut i: usize = 0;
        while i < descriptors.len()
            invariant
                i <= descriptors.len(),
                sized_before(descriptors@, i as int),
                distinct_before(descriptors@, i as int),
            decreases descriptors.len() - i,
        {
            if descriptors[i].ty.is_zero_sized() {
                return Err(ConstructionError::ZeroSizedBinding { index: i });
            }
            let mut j: usize = 0;
            while j < i
                invariant
                    j <= i < descriptors.len(),
                    !descriptors@[i as int].ty.spec_is_zero_sized(),
                    sized_before(descriptors@, i as int),
                    distinct_before(descriptors@, i as int),
                    forall|k: int| 0 <= k < j ==> (#[trigger] descriptors@[k]).slot != descriptors@[i as int].slot,
                decreases i - j,
            {
                if descriptors[j].slot == descriptors[i].slot {
                    assert(repeats_slot(descriptors@, i as int)) by {
                        assert(descriptors@[j as int].slot == descriptors@[i as int].slot);
                    }
                    return Err(ConstructionError::DuplicateSlot { index: i });
                }
                j += 1;
            }
            assert(!repeats_slot(descriptors@, i as int));
            i += 1;
        }
        Ok(BindGroupScheme { id, descriptors })
    }

    /// The name of the scheme.
    pub fn id(&self) -> (id: u64)
        ensures
            id == self.spec_id(),
    {
        self.id
    }

    /// The slots of the scheme, in the order in which they were declared.
    pub fn descriptors(&self) -> (d: &Vec<LayoutDescriptor>)
        ensures
            d@ == self.spec_descriptors(),
    {
        &self.descriptors
    }

    /// The backend layout of the scheme: one entry for each slot, in order.
    pub fn layout(&self) -> (entries: Vec<BindGroupLayoutEntry>)
        ensures
            entries@ == backend_entries(self.spec_descriptors()),
    {
        let mut entries: Vec<BindGroupLayoutEntry> = Vec::new();
        let mut i: usize = 0;
        while i < self.descriptors.len()
            invariant
                i <= self.descriptors.len(),
                entries@.len() == i,
                forall|k: int| 0 <= k < i ==> #[trigger] entries@[k] == self.descriptors@[k].spec_to_backend_entry(),
            decreases self.descriptors.len() - i,
        {
            entries.push(self.descriptors[i].to_backend_entry());
            i += 1;
        }
        assert(entries@ =~= backend_entries(self.spec_descriptors()));
        entries
    }

    /// The bind group that binds `resources` to the slots of the scheme, one for one and
    /// in order, if there are as many resources as slots and each can fill its slot.
    /// Otherwise the error says how the counts differ, or names the first resource that
    /// cannot fill its slot.
    pub fn bind(&self, resources: &Vec<Resource>) -> (r: Result<BindingInstance, BindError>)
        ensures
            r is Ok <==> fits(self.spec_descriptors(), resources@),
            match r {
                Ok(instance) => {
                    &&& fits(self.spec_descriptors(), resources@)
                    &&& instance.spec_scheme() == self.spec_id()
                    &&& instance.spec_layout() == self.spec_descriptors()
                    &&& instance.spec_entries() == bound_entries(self.spec_descriptors(), resources@)
                },
                Err(BindError::CountMismatch { expected, found }) => {
                    &&& resources@.len() != self.spec_descriptors().len()
                    &&& expected == self.spec_descriptors().len()
                    &&& found == resources@.len()
                },
                Err(BindError::CapabilityMismatch { index }) => {
                    &&& resources@.len() == self.spec_descriptors().len()
                    &&& index < resources@.len()
                    &&& !compatible(self.spec_descriptors()[index as int].ty, resources@[index as int])
                    &&& fits_before(self.spec_descriptors(), resources@, index as int)
                },
            },
    {
        if resources.len() != self.descriptors.len() {
            return Err(
                BindError::CountMismatch { expected: self.descriptors.len(), found: resources.len() },
            );
        }
        let mut entries: Vec<BindGroupEntry> = Vec::new();
        let mut i: usize = 0;
        while i < self.descriptors.len()
            invariant
                i <= self.descriptors.len(),
                resources@.len() == self.descriptors@.len(),
                fits_before(self.descriptors@, resources@, i as int),
                entries@.len() == i,
                forall|k: int| 0 <= k < i ==> #[trigger] entries@[k] == (BindGroupEntry {
                    binding: self.descriptors@[k].slot,
                    resource: resources@[k].spec_binding(),
                }),
            decreases self.descriptors.len() - i,
        {
            if !is_compatible(self.descriptors[i].ty, resources[i]) {
                return Err(BindError::CapabilityMismatch { index: i });
            }
            entries.push(
                BindGroupEntry { binding: self.descriptors[i].slot, resource: resources[i].binding() },
            );
            i += 1;
        }
        assert(entries@ =~= bound_entries(self.spec_descriptors(), resources@));
        Ok(BindingInstance { scheme: self.id, layout: copy_descriptors(&self.descriptors), entries })
    }
}

impl BindingInstance {
    /// The name of the scheme that made the bind group.
    pub closed spec fn spec_scheme(&self) -> u64 {
        self.scheme
    }

    /// The slots of the scheme that made the bind group.
    pub closed spec fn spec_layout(&self) -> Seq<LayoutDescriptor> {
        self.layout@
    }

    /// What tells the scheme that made the bind group from another.
    pub open spec fn spec_key(&self) -> SchemeKey {
        SchemeKey { id: self.spec_scheme(), slots: self.spec_layout() }
    }

    /// The entries of the bind group, one for each slot, in order.
    pub closed spec fn spec_entries(&self) -> Seq<BindGroupEntry> {
        self.entries@
    }

    /// The name of the scheme that made the bind group.
    pub fn scheme(&self) -> (id: u64)
        ensures
            id == self.spec_scheme(),
    {
        self.scheme
    }

    /// The slots of the scheme that made the bind group.
    pub fn layout(&self) -> (l: &Vec<LayoutDescriptor>)
        ensures
            l@ == self.spec_layout(),
    {
        &self.layout
    }

    /// The entries of the bind group, one for each slot, in order.
    pub fn entries(&self) -> (e: &Vec<BindGroupEntry>)
        ensures
            e@ == self.spec_entries(),
    {
        &self.entries
    }
}

} // verus!
