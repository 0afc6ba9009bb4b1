//! Item-type codes and the gatherable items the log reveals.

use vstd::prelude::*;

verus! {

/// The game's internal item-type byte.
#[derive(Debug, Clone, Copy, PartialEq, Eq, Hash, PartialOrd, Ord, Structural)]
pub enum ItemIdentifier {
    ID,
    PD,
    Cell,
    FogTurbine,
    Neonate,
    Cryo,
    GLP1,
    OSIP,
    Datasphere,
    PlantSample,
    HiSec,
    MWP,
    DataCubeR8,
    DataCube,
    GLP2,
    Cargo,
    Unknown(u8),
}

/// The identifier that the build gives to a code, if it names one.
pub open spec fn identifier_of_code(code: u8) -> Option<ItemIdentifier> {
    if code == 128 {
        Some(ItemIdentifier::ID)
    } else if code == 129 {
        Some(ItemIdentifier::PD)
    } else if code == 131 {
        Some(ItemIdentifier::Cell)
    } else if code == 133 {
        Some(ItemIdentifier::FogTurbine)
    } else if code == 137 {
        Some(ItemIdentifier::Neonate)
    } else if code == 148 {
        Some(ItemIdentifier::Cryo)
    } else if code == 149 {
        Some(ItemIdentifier::GLP1)
    } else if code == 150 {
        Some(ItemIdentifier::OSIP)
    } else if code == 151 {
        Some(ItemIdentifier::Datasphere)
    } else if code == 153 {
        Some(ItemIdentifier::PlantSample)
    } else if code == 154 {
        Some(ItemIdentifier::HiSec)
    } else if code == 164 {
        Some(ItemIdentifier::MWP)
    } else if code == 165 {
        Some(ItemIdentifier::DataCubeR8)
    } else if code == 168 {
        Some(ItemIdentifier::DataCube)
    } else if code == 169 {
        Some(ItemIdentifier::GLP2)
    } else if code == 176 {
        Some(ItemIdentifier::Cargo)
    } else {
        None
    }
}

/// The canonical identifier of a code: the two data-cube codes are one
/// item, and a code the build does not name is kept as `Unknown`.
pub open spec fn classified(code: u8) -> ItemIdentifier {
    match identifier_of_code(code) {
        Some(ItemIdentifier::DataCubeR8) => ItemIdentifier::DataCube,
        Some(id) => id,
        None => ItemIdentifier::Unknown(code),
    }
}

/// Items that a container carries with a seed.
pub open spec fn is_seeded_container(id: ItemIdentifier) -> bool {
    match id {
        ItemIdentifier::ID | ItemIdentifier::PD | ItemIdentifier::GLP1 | ItemIdentifier::OSIP
        | ItemIdentifier::PlantSample | ItemIdentifier::DataCube | ItemIdentifier::GLP2 => true,
        _ => false,
    }
}

impl ItemIdentifier {
    /// The identifier that the build gives to a code, if it names one.
    pub fn from_repr(code: u8) -> (r: Option<ItemIdentifier>)
        ensures
            r == identifier_of_code(code),
    {
        match code {
            128 => Some(ItemIdentifier::ID),
            129 => Some(ItemIdentifier::PD),
            131 => Some(ItemIdentifier::Cell),
            133 => Some(ItemIdentifier::FogTurbine),
            137 => Some(ItemIdentifier::Neonate),
            148 => Some(ItemIdentifier::Cryo),
            149 => Some(ItemIdentifier::GLP1),
            150 => Some(ItemIdentifier::OSIP),
            151 => Some(ItemIdentifier::Datasphere),
            153 => Some(ItemIdentifier::PlantSample),
            154 => Some(ItemIdentifier::HiSec),
            164 => Some(ItemIdentifier::MWP),
            165 => Some(ItemIdentifier::DataCubeR8),
            168 => Some(ItemIdentifier::DataCube),
            169 => Some(ItemIdentifier::GLP2),
            176 => Some(ItemIdentifier::Cargo),
            _ => None,
        }
    }

    /// The canonical identifier of a code (both data-cube codes give
    /// `DataCube`; an unnamed code gives `Unknown(code)`).
    pub fn classify(code: u8) -> (r: ItemIdentifier)
        ensures
            r == classified(code),
            r != ItemIdentifier::DataCubeR8,
    {
        match ItemIdentifier::from_repr(code) {
            Some(ItemIdentifier::DataCubeR8) => ItemIdentifier::DataCube,
            Some(id) => id,
            None => ItemIdentifier::Unknown(code),
        }
    }

    /// Whether items of this kind are carried in a container with a seed.
    pub fn is_seeded_container(&self) -> (r: bool)
        ensures
            r == is_seeded_container(*self),
    {
        match self {
            ItemIdentifier::ID | ItemIdentifier::PD | ItemIdentifier::GLP1 | ItemIdentifier::OSIP
            | ItemIdentifier::PlantSample | ItemIdentifier::DataCube | ItemIdentifier::GLP2 => true,
            _ => false,
        }
    }
}

/// A placeable, collectible object whose location the log reveals.
///
/// Keys, bulkhead keys and HSUs have no item code; seeded items name their
/// container and seed.
#[derive(Debug, Clone, PartialEq, Eq, PartialOrd, Ord, Hash)]
pub enum GatherItem {
    /// Name, dimension, zone alias, correlation id
    Key(String, String, u32, u32),
    /// Name
    BulkheadKey(String),
    /// Area id
    HSU(u32),
    /// Name, item index, index
    Generator(String, u8, u8),
    /// Container, seed
    ID(String, u32),
    /// Container, seed
    PD(String, u32),
    /// Spawn zone index
    Cell(u8),
    /// Name
    FogTurbine(String),
    /// Name
    Neonate(String),
    /// Name
    Cryo(String),
    /// Container, seed
    GLP1(String, u32),
    /// Container, seed
    OSIP(String, u32),
    /// Spawn zone index
    Datasphere(u8),
    /// Container, seed
    PlantSample(String, u32),
    /// Name
    HiSec(String),
    /// Container, seed
    DataCube(String, u32),
    /// Container, seed
    GLP2(String, u32),
    /// Name
    Cargo(String),
    /// A container whose item kind could not be told, and its seed
    Seeded(String, u32),
}

/// A `GatherItem` with its texts as character sequences.
pub enum GatherItemView {
    Key(Seq<char>, Seq<char>, u32, u32),
    BulkheadKey(Seq<char>),
    HSU(u32),
    Generator(Seq<char>, u8, u8),
    ID(Seq<char>, u32),
    PD(Seq<char>, u32),
    Cell(u8),
    FogTurbine(Seq<char>),
    Neonate(Seq<char>),
    Cryo(Seq<char>),
    GLP1(Seq<char>, u32),
    OSIP(Seq<char>, u32),
    Datasphere(u8),
    PlantSample(Seq<char>, u32),
    HiSec(Seq<char>),
    DataCube(Seq<char>, u32),
    GLP2(Seq<char>, u32),
    Cargo(Seq<char>),
    Seeded(Seq<char>, u32),
}

impl View for GatherItem {
    type V = GatherItemView;

    open spec fn view(&self) -> GatherItemView {
        match self {
            GatherItem::Key(n, d, z, ri) => GatherItemView::Key(n@, d@, *z, *ri),
            GatherItem::BulkheadKey(n) => GatherItemView::BulkheadKey(n@),
            GatherItem::HSU(a) => GatherItemView::HSU(*a),
            GatherItem::Generator(n, a, b) => GatherItemView::Generator(n@, *a, *b),
            GatherItem::ID(c, s) => GatherItemView::ID(c@, *s),
            GatherItem::PD(c, s) => GatherItemView::PD(c@, *s),
            GatherItem::Cell(i) => GatherItemView::Cell(*i),
            GatherItem::FogTurbine(n) => GatherItemView::FogTurbine(n@),
            GatherItem::Neonate(n) => GatherItemView::Neonate(n@),
            GatherItem::Cryo(n) => GatherItemView::Cryo(n@),
            GatherItem::GLP1(c, s) => GatherItemView::GLP1(c@, *s),
            GatherItem::OSIP(c, s) => GatherItemView::OSIP(c@, *s),
            GatherItem::Datasphere(i) => GatherItemView::Datasphere(*i),
            GatherItem::PlantSample(c, s) => GatherItemView::PlantSample(c@, *s),
            GatherItem::HiSec(n) => GatherItemView::HiSec(n@),
            GatherItem::DataCube(c, s) => GatherItemView::DataCube(c@, *s),
            GatherItem::GLP2(c, s) => GatherItemView::GLP2(c@, *s),
            GatherItem::Cargo(n) => GatherItemView::Cargo(n@),
            GatherItem::Seeded(c, s) => GatherItemView::Seeded(c@, *s),
        }
    }
}

/// The item that a container with a seed holds, given what kind it was
/// classified as; a kind that is not carried with a seed gives `Seeded`.
pub open spec fn seeded_item(id: ItemIdentifier, container: Seq<char>, seed: u32) -> GatherItemView {
    match id {
        ItemIdentifier::ID => GatherItemView::ID(container, seed),
        ItemIdentifier::PD => GatherItemView::PD(container, seed),
        ItemIdentifier::GLP1 => GatherItemView::GLP1(container, seed),
        ItemIdentifier::OSIP => GatherItemView::OSIP(container, seed),
        ItemIdentifier::PlantSample => GatherItemView::PlantSample(container, seed),
        ItemIdentifier::DataCube | ItemIdentifier::DataCubeR8 => GatherItemView::DataCube(
            container,
            seed,
        ),
        ItemIdentifier::GLP2 => GatherItemView::GLP2(container, seed),
        _ => GatherItemView::Seeded(container, seed),
    }
}

impl GatherItem {
    /// The item that a container with a seed holds, given its kind.
    pub fn seeded(id: ItemIdentifier, container: String, seed: u32) -> (r: GatherItem)
        ensures
            r@ == seeded_item(id, container@, seed),
    {
        match id {
            ItemIdentifier::ID => GatherItem::ID(container, seed),
            ItemIdentifier::PD => GatherItem::PD(container, seed),
            ItemIdentifier::GLP1 => GatherItem::GLP1(container, seed),
            ItemIdentifier::OSIP => GatherItem::OSIP(container, seed),
            ItemIdentifier::PlantSample => GatherItem::PlantSample(container, seed),
            ItemIdentifier::DataCube | ItemIdentifier::DataCubeR8 => GatherItem::DataCube(
                container,
                seed,
            ),
            ItemIdentifier::GLP2 => GatherItem::GLP2(container, seed),
            _ => GatherItem::Seeded(container, seed),
        }
    }
}

/// The order in which seeded items were announced during distribution.
///
/// The log does not link a distribution-phase announcement to the container
/// that later carries the item; pairing them in order of appearance is a
/// best-effort heuristic, kept behind this type so that a stronger
/// correlation can replace it.
pub struct SeededQueue {
    items: Vec<ItemIdentifier>,
    next: usize,
}

impl View for SeededQueue {
    type V = Seq<ItemIdentifier>;

    /// The announced kinds not yet paired with a container, oldest first.
    closed spec fn view(&self) -> Seq<ItemIdentifier> {
        self.items@.subrange(self.next as int, self.items@.len() as int)
    }
}

impl SeededQueue {
    pub closed spec fn wf(&self) -> bool {
        self.next <= self.items@.len()
    }

    pub fn new() -> (r: SeededQueue)
        ensures
            r.wf(),
            r@ == Seq::<ItemIdentifier>::empty(),
    {
        SeededQueue { items: Vec::new(), next: 0 }
    }

    /// Classifies an announced item code and queues it when its kind is
    /// carried with a seed.
    pub fn offer(&mut self, code: u8)
        requires
            old(self).wf(),
        ensures
            final(self).wf(),
            final(self)@ == if is_seeded_container(classified(code)) {
                old(self)@.push(classified(code))
            } else {
                old(self)@
            },
    {
        let id = ItemIdentifier::classify(code);
        if id.is_seeded_container() {
            self.items.push(id);
            assert(self@ =~= old(self)@.push(id));
        }
    }

    /// The item in the next container with a seed: typed by the oldest
    /// queued kind, or `Seeded` once the queue is empty.
    pub fn classify_next(&mut self, container: String, seed: u32) -> (r: GatherItem)
        requires
            old(self).wf(),
        ensures
            final(self).wf(),
            old(self)@.len() == 0 ==> final(self)@ == old(self)@ && r@ == GatherItemView::Seeded(
                container@,
                seed,
            ),
            old(self)@.len() > 0 ==> final(self)@ == old(self)@.drop_first() && r@ == seeded_item(
                old(self)@[0],
                container@,
                seed,
            ),
    {
        if self.next < self.items.len() {
            let id = self.items[self.next];
            self.next = self.next + 1;
            assert(self@ =~= old(self)@.drop_first());
            GatherItem::seeded(id, container, seed)
        } else {
            GatherItem::Seeded(container, seed)
        }
    }
}

} // verus!
