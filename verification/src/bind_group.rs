//! Bind groups declared by a value: a layout once, and groups made from data of one type.

use vstd::prelude::*;
use crate::layout::BindGroupLayoutEntry;
use crate::resource::BindGroupEntry;

verus! {

/// What the backend needs to make a bind group.
#[derive(Debug)]
pub struct BindGroupDescriptor {
    pub label: String,
    pub layout: Vec<BindGroupLayoutEntry>,
    pub entries: Vec<BindGroupEntry>,
}

/// The declaration of a bind group layout.
pub trait TypedBindGroupInit: Clone + Copy {
    /// The label of the layout.
    spec fn spec_label(&self) -> Seq<char>;

    /// The entries of the layout.
    spec fn spec_entries(&self) -> Seq<BindGroupLayoutEntry>;

    /// The label of the layout.
    fn label(&self) -> (label: &'static str)
        ensures
            label@ == self.spec_label(),
    ;

    /// The entries of the layout.
    fn entries(&self) -> (entries: Vec<BindGroupLayoutEntry>)
        ensures
            entries@ == self.spec_entries(),
    ;
}

/// A bind group layout as it was declared.
pub struct BindGroupData {
    label: &'static str,
    entries: Vec<BindGroupLayoutEntry>,
}

/// A copy of `entries`.
fn copy_entries(entries: &Vec<BindGroupLayoutEntry>) -> (copy: Vec<BindGroupLayoutEntry>)
    ensures
        copy@ == entries@,
{
    let mut copy: Vec<BindGroupLayoutEntry> = Vec::new();
    let mut i: usize = 0;
    while i < entries.len()
        invariant
            i <= entries.len(),
            copy@ == entries@.take(i as int),
        decreases entries.len() - i,
    {
        copy.push(entries[i]);
        i += 1;
        assert(copy@ =~= entries@.take(i as int));
    }
    assert(entries@.take(entries.len() as int) =~= entries@);
    copy
}

impl BindGroupData {
    /// The label of the layout.
    pub closed spec fn spec_label(&self) -> Seq<char> {
        self.label@
    }

    /// The entries of the layout.
    pub closed spec fn spec_layout(&self) -> Seq<BindGroupLayoutEntry> {
        self.entries@
    }

    /// The layout that `init` declares.
    pub fn from_init<Init: TypedBindGroupInit>(init: Init) -> (data: Self)
        ensures
            data.spec_label() == init.spec_label(),
            data.spec_layout() == init.spec_entries(),
    {
        let entries = init.entries();
        BindGroupData { label: init.label(), entries }
    }

    /// The label of the layout.
    pub fn label(&self) -> (label: &'static str)
        ensures
            label@ == self.spec_label(),
    {
        self.label
    }

    /// The entries of the layout.
    pub fn layout(&self) -> (layout: &Vec<BindGroupLayoutEntry>)
        ensures
            layout@ == self.spec_layout(),
    {
        &self.entries
    }
}

/// What a maker of bind groups has to say of itself: where its layout is kept, and which
/// entries and which label data of type `Data` gives.
pub trait TypedBindGroupGenInner<Init: TypedBindGroupInit, Data>: Sized {
    /// The layout that the maker keeps.
    spec fn spec_bind_group_data(&self) -> BindGroupData;

    /// The label of the bind group made from `data`.
    spec fn spec_label(data: &Data) -> Seq<char>;

    /// The entries of the bind group made from `data`.
    spec fn spec_entries_from_data(&self, data: &Data) -> Seq<BindGroupEntry>;

    /// The label of the bind group made from `data`.
    fn label(data: &Data) -> (label: &str)
        ensures
            label@ == Self::spec_label(data),
    ;

    /// The maker that keeps the layout `data`.
    fn from_bind_group_data(init: Init, data: BindGroupData) -> (maker: Self)
        ensures
            maker.spec_bind_group_data() == data,
    ;

    /// The layout that the maker keeps.
    fn bind_group_data(&self) -> (data: &BindGroupData)
        ensures
            *data == self.spec_bind_group_data(),
    ;

    /// The entries of the bind group made from `data`.
    fn entries_from_data(&self, data: &Data) -> (entries: Vec<BindGroupEntry>)
        ensures
            entries@ == self.spec_entries_from_data(data),
    ;
}

/// A maker of bind groups from data of type `Data`, against the layout that a value
/// of type `Init` declares.
pub trait TypedBindGroupGen<Init: TypedBindGroupInit, Data>: Sized {
    /// The entries of the layout that the maker keeps.
    spec fn spec_layout(&self) -> Seq<BindGroupLayoutEntry>;

    /// The label of the layout that the maker keeps.
    spec fn spec_layout_label(&self) -> Seq<char>;

    /// The label of the bind group made from `data`.
    spec fn spec_group_label(data: &Data) -> Seq<char>;

    /// The entries of the bind group made from `data`.
    spec fn spec_group_entries(&self, data: &Data) -> Seq<BindGroupEntry>;

    /// The maker of the layout that `init` declares.
    fn new(init: Init) -> (maker: Self)
        ensures
            maker.spec_layout_label() == init.spec_label(),
            maker.spec_layout() == init.spec_entries(),
    ;

    /// What the backend needs to make the bind group of `data`: the label and the
    /// entries that `data` gives, against the layout that the maker keeps.
    fn create(&self, data: &Data) -> (group: BindGroupDescriptor)
        ensures
            group.label@ == Self::spec_group_label(data),
            group.layout@ == self.spec_layout(),
            group.entries@ == self.spec_group_entries(data),
    ;

    /// The entries of the layout that the maker keeps.
    fn layout(&self) -> (layout: &Vec<BindGroupLayoutEntry>)
        ensures
            layout@ == self.spec_layout(),
    ;
}

impl<Init: TypedBindGroupInit, Data, T: TypedBindGroupGenInner<Init, Data>> TypedBindGroupGen<
    Init,
    Data,
> for T {
    open spec fn spec_layout(&self) -> Seq<BindGroupLayoutEntry> {
        self.spec_bind_group_data().spec_layout()
    }

    open spec fn spec_layout_label(&self) -> Seq<char> {
        self.spec_bind_group_data().spec_label()
    }

    open spec fn spec_group_label(data: &Data) -> Seq<char> {
        <T as TypedBindGroupGenInner<Init, Data>>::spec_label(data)
    }

    open spec fn spec_group_entries(&self, data: &Data) -> Seq<BindGroupEntry> {
        self.spec_entries_from_data(data)
    }

    fn create(&self, data: &Data) -> (group: BindGroupDescriptor) {
        let bind_group_data = self.bind_group_data();
        BindGroupDescriptor {
            label: Self::label(data).to_owned(),
            layout: copy_entries(bind_group_data.layout()),
            entries: self.entries_from_data(data),
        }
    }

    fn new(init: Init) -> (maker: Self) {
        Self::from_bind_group_data(init, BindGroupData::from_init(init))
    }

    fn layout(&self) -> (layout: &Vec<BindGroupLayoutEntry>) {
        self.bind_group_data().layout()
    }
}

} // verus!
