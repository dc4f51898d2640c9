use vstd::prelude::*;
use vstd::multiset::Multiset;
use crate::classify::{classify, is_device, is_device_name, is_hub, is_hub_name, kind_of, NodeKind};
use crate::descriptor::{DeviceDescriptor, InterfaceDescriptor};
use crate::error::UsbError;
use crate::path::{joined, OwnedPath};

verus! {

/// What one read of a directory stream gave, told apart at the stream.
pub enum ReadOutcome {
    /// The name of the next entry, copied out of the stream's buffer.
    Entry(Vec<u8>),
    /// No entries are left.
    End,
    /// The read failed with this OS code.
    Failed(i32),
}

/// Makes the answer of the directory read primitive explicit. `entry` is the
/// copied name of the entry it returned, or `None` when it returned none;
/// `code` is the OS error code as it stood right after the call, having been
/// cleared to zero right before it. No entry and a zero code is the end of
/// the stream; no entry and any other code is a failure.
pub fn read_outcome(entry: Option<Vec<u8>>, code: i32) -> (r: ReadOutcome)
    ensures
        match entry {
            Some(n) => r == ReadOutcome::Entry(n),
            None => if code == 0 {
                r == ReadOutcome::End
            } else {
                r == ReadOutcome::Failed(code)
            },
        },
{
    match entry {
        Some(n) => ReadOutcome::Entry(n),
        None => if code == 0 {
            ReadOutcome::End
        } else {
            ReadOutcome::Failed(code)
        },
    }
}

/// Which entries a listing keeps.
#[derive(Clone, Copy, Debug, PartialEq, Eq, Structural)]
pub enum Selection {
    /// Names that meet the hub rule.
    Hubs,
    /// Names that meet the device rule.
    Devices,
    /// Names classified as a hub or as a device.
    Any,
}

/// Whether a listing with `sel` keeps the entry `name`.
pub open spec fn selects(sel: Selection, name: Seq<u8>) -> bool {
    match sel {
        Selection::Hubs => is_hub(name),
        Selection::Devices => is_device(name),
        Selection::Any => kind_of(name) != NodeKind::Other,
    }
}

/// The names that a listing with `sel` keeps out of `names`, in their order.
pub open spec fn selected(sel: Selection, names: Seq<Seq<u8>>) -> Seq<Seq<u8>>
    decreases names.len(),
{
    if names.len() == 0 {
        Seq::empty()
    } else {
        let rest = selected(sel, names.drop_last());
        if selects(sel, names.last()) {
            rest.push(names.last())
        } else {
            rest
        }
    }
}

/// Reading one more name extends what a listing keeps by that name when it
/// is kept, and leaves it as it was otherwise.
pub proof fn lemma_selected_push(sel: Selection, names: Seq<Seq<u8>>, name: Seq<u8>)
    ensures
        selected(sel, names.push(name)) == if selects(sel, name) {
            selected(sel, names).push(name)
        } else {
            selected(sel, names)
        },
{
    assert(names.push(name).drop_last() =~= names);
}

/// Whatever names a directory holds, a listing keeps each name that its rule
/// selects exactly as many times as the directory holds it, and no other name:
/// nothing is counted twice and nothing is left out.
pub proof fn lemma_selected_counts(sel: Selection, names: Seq<Seq<u8>>, name: Seq<u8>)
    ensures
        selected(sel, names).to_multiset().count(name) == if selects(sel, name) {
            names.to_multiset().count(name)
        } else {
            0
        },
    decreases names.len(),
{
    broadcast use vstd::seq_lib::group_to_multiset_ensures;

    if names.len() == 0 {
        assert(names.to_multiset() =~= Multiset::empty());
        assert(selected(sel, names).to_multiset() =~= Multiset::empty());
    } else {
        let init = names.drop_last();
        let last = names.last();
        assert(init.push(last) =~= names);
        lemma_selected_counts(sel, init, name);
        lemma_selected_push(sel, init, last);
    }
}

/// The names a listing keeps do not depend on the order in which the
/// directory hands its entries out: two orders of the same entries keep the
/// same names, as many times each.
pub proof fn lemma_selected_ignores_order(sel: Selection, a: Seq<Seq<u8>>, b: Seq<Seq<u8>>)
    requires
        a.to_multiset() == b.to_multiset(),
    ensures
        selected(sel, a).to_multiset() == selected(sel, b).to_multiset(),
{
    assert forall|name: Seq<u8>|
        #[trigger] selected(sel, a).to_multiset().count(name) == selected(sel, b).to_multiset().count(
            name,
        ) by {
        lemma_selected_counts(sel, a, name);
        lemma_selected_counts(sel, b, name);
    }
    assert(selected(sel, a).to_multiset() =~= selected(sel, b).to_multiset());
}

fn keeps(sel: Selection, name: &[u8]) -> (r: bool)
    ensures
        r == selects(sel, name@),
{
    match sel {
        Selection::Hubs => is_hub_name(name),
        Selection::Devices => is_device_name(name),
        Selection::Any => match classify(name) {
            NodeKind::Other => false,
            _ => true,
        },
    }
}

/// One step of a listing.
pub enum Step<T> {
    /// The entry read was not kept; read again.
    Skip,
    /// The entry read was kept.
    Item(T),
    /// The listing is over.
    End,
    /// Reading failed; the listing is over.
    Error(UsbError),
}

/// The state of one pass over one directory: what it keeps, what it has
/// read, and whether it is over.
struct Scan {
    root: OwnedPath,
    done: bool,
    seen: Ghost<Seq<Seq<u8>>>,
}

/// What a scan made of one read.
enum Taken {
    Skip,
    Kept(Vec<u8>),
    End,
    Error(UsbError),
}

impl Scan {
    fn new(root: OwnedPath) -> (r: Scan)
        ensures
            r.root@ == root@,
            !r.done,
            r.seen@ == Seq::<Seq<u8>>::empty(),
    {
        Scan { root, done: false, seen: Ghost(Seq::empty()) }
    }

    fn take(&mut self, selection: Selection, outcome: ReadOutcome) -> (r: Taken)
        ensures
            final(self).root@ == old(self).root@,
            old(self).done ==> r is End && final(self).done && final(self).seen@ == old(self).seen@,
            !old(self).done ==> match outcome {
                ReadOutcome::Entry(n) => {
                    &&& final(self).seen@ == old(self).seen@.push(n@)
                    &&& !final(self).done
                    &&& if selects(selection, n@) {
                        r == Taken::Kept(n)
                    } else {
                        r is Skip
                    }
                },
                ReadOutcome::End => {
                    &&& r is End
                    &&& final(self).done
                    &&& final(self).seen@ == old(self).seen@
                },
                ReadOutcome::Failed(c) => {
                    &&& r == Taken::Error(UsbError::Read(c))
                    &&& final(self).done
                    &&& final(self).seen@ == old(self).seen@
                },
            },
    {
        if self.done {
            return Taken::End;
        }
        match outcome {
            ReadOutcome::Entry(n) => {
                self.seen = Ghost(self.seen@.push(n@));
                if keeps(selection, n.as_slice()) {
                    Taken::Kept(n)
                } else {
                    Taken::Skip
                }
            },
            ReadOutcome::End => {
                self.done = true;
                Taken::End
            },
            ReadOutcome::Failed(c) => {
                self.done = true;
                Taken::Error(UsbError::Read(c))
            },
        }
    }
}

/// A hub of the bus: root hub or external hub, named after the hub rule.
pub struct Hub {
    name: OwnedPath,
}

impl Hub {
    /// The entry name of the hub, such as `usb1`.
    pub closed spec fn name_view(&self) -> Seq<u8> {
        self.name@
    }

    /// The entry name of the hub.
    pub fn name(&self) -> (r: &OwnedPath)
        ensures
            r@ == self.name_view(),
    {
        &self.name
    }
}

/// A node found in a directory listing: its entry name, and its path, which
/// is the listed directory's path joined to the name.
pub struct Device {
    name: OwnedPath,
    path: OwnedPath,
}

impl Device {
    /// The entry name of the node, such as `1-1:1.0`.
    pub closed spec fn name_view(&self) -> Seq<u8> {
        self.name@
    }

    /// The path of the node.
    pub closed spec fn path_view(&self) -> Seq<u8> {
        self.path@
    }

    /// The entry name of the node.
    pub fn name(&self) -> (r: &OwnedPath)
        ensures
            r@ == self.name_view(),
    {
        &self.name
    }

    /// The path of the node.
    pub fn path(&self) -> (r: &OwnedPath)
        ensures
            r@ == self.path_view(),
    {
        &self.path
    }

    /// The device descriptor of this node, from the bytes read out of its
    /// descriptor file: `ShortRead` when they are fewer than the record.
    pub fn device_descriptor(&self, record: &[u8]) -> (r: Result<DeviceDescriptor, UsbError>)
        ensures
            r == DeviceDescriptor::decode_spec(record@),
    {
        DeviceDescriptor::decode(record)
    }

    /// The active interface descriptor of this node, from the bytes read out
    /// of its descriptor file: `ShortRead` when they are fewer than the record.
    pub fn interface_descriptor(&self, record: &[u8]) -> (r: Result<InterfaceDescriptor, UsbError>)
        ensures
            r == InterfaceDescriptor::decode_spec(record@),
    {
        InterfaceDescriptor::decode(record)
    }
}

/// A listing of the hubs in one directory, one read at a time.
pub struct Hubs {
    scan: Scan,
}

impl Hubs {
    /// Which names the listing keeps.
    pub open spec fn kept(&self) -> Selection {
        Selection::Hubs
    }

    /// The entry names read so far.
    pub closed spec fn seen(&self) -> Seq<Seq<u8>> {
        self.scan.seen@
    }

    /// Whether the listing is over.
    pub closed spec fn is_done(&self) -> bool {
        self.scan.done
    }

    /// The names of the items handed out so far: the kept names among those
    /// read, in the order read.
    pub open spec fn found(&self) -> Seq<Seq<u8>> {
        selected(self.kept(), self.seen())
    }

    /// The path of the directory listed.
    pub closed spec fn root_view(&self) -> Seq<u8> {
        self.scan.root@
    }

    /// The directory to open and read for this listing.
    pub fn root(&self) -> (r: &OwnedPath)
        ensures
            r@ == self.root_view(),
    {
        &self.scan.root
    }

    /// Whether the listing is over; no more reads are to be made then.
    pub fn done(&self) -> (r: bool)
        ensures
            r == self.is_done(),
    {
        self.scan.done
    }

    /// Takes the outcome of one read of the directory. A kept name becomes a
    /// hub that owns a copy of it; the end of the stream ends the listing; a
    /// failed read gives one error and ends the listing. Once the listing is
    /// over, every outcome gives `End`.
    pub fn advance(&mut self, outcome: ReadOutcome) -> (r: Step<Hub>)
        ensures
            final(self).root_view() == old(self).root_view(),
            final(self).found() == if r is Item {
                old(self).found().push(r->Item_0.name_view())
            } else {
                old(self).found()
            },
            old(self).is_done() ==> r is End && final(self).is_done()
                && final(self).seen() == old(self).seen(),
            !old(self).is_done() ==> match outcome {
                ReadOutcome::Entry(n) => {
                    &&& final(self).seen() == old(self).seen().push(n@)
                    &&& !final(self).is_done()
                    &&& if is_hub(n@) {
                        r is Item && r->Item_0.name_view() == n@
                    } else {
                        r is Skip
                    }
                },
                ReadOutcome::End => {
                    &&& r is End
                    &&& final(self).is_done()
                    &&& final(self).seen() == old(self).seen()
                },
                ReadOutcome::Failed(c) => {
                    &&& r is Error && r->Error_0 == UsbError::Read(c)
                    &&& final(self).is_done()
                    &&& final(self).seen() == old(self).seen()
                },
            },
    {
        if let ReadOutcome::Entry(n) = &outcome {
            proof {
                lemma_selected_push(self.kept(), self.seen(), n@);
            }
        }
        match self.scan.take(Selection::Hubs, outcome) {
            Taken::Skip => Step::Skip,
            Taken::Kept(n) => Step::Item(Hub { name: OwnedPath::duplicate(n.as_slice()) }),
            Taken::End => Step::End,
            Taken::Error(e) => Step::Error(e),
        }
    }
}

/// A listing of the device nodes in one directory, one read at a time.
pub struct Devices {
    scan: Scan,
    selection: Selection,
}

impl Devices {
    /// The entry names read so far.
    pub closed spec fn seen(&self) -> Seq<Seq<u8>> {
        self.scan.seen@
    }

    /// Whether the listing is over.
    pub closed spec fn is_done(&self) -> bool {
        self.scan.done
    }

    /// The names of the items handed out so far: the kept names among those
    /// read, in the order read.
    pub open spec fn found(&self) -> Seq<Seq<u8>> {
        selected(self.kept(), self.seen())
    }

    /// The path of the directory listed.
    pub closed spec fn root_view(&self) -> Seq<u8> {
        self.scan.root@
    }

    /// Which names the listing keeps.
    pub closed spec fn kept(&self) -> Selection {
        self.selection
    }

    /// The directory to open and read for this listing.
    pub fn root(&self) -> (r: &OwnedPath)
        ensures
            r@ == self.root_view(),
    {
        &self.scan.root
    }

    /// Whether the listing is over; no more reads are to be made then.
    pub fn done(&self) -> (r: bool)
        ensures
            r == self.is_done(),
    {
        self.scan.done
    }

    /// Takes the outcome of one read of the directory. A kept name becomes a
    /// device that owns a copy of the name and of the joined path; the end of
    /// the stream ends the listing; a failed read gives one error and ends the
    /// listing. Once the listing is over, every outcome gives `End`.
    pub fn advance(&mut self, outcome: ReadOutcome) -> (r: Step<Device>)
        ensures
            final(self).root_view() == old(self).root_view(),
            final(self).kept() == old(self).kept(),
            final(self).found() == if r is Item {
                old(self).found().push(r->Item_0.name_view())
            } else {
                old(self).found()
            },
            old(self).is_done() ==> r is End && final(self).is_done()
                && final(self).seen() == old(self).seen(),
            !old(self).is_done() ==> match outcome {
                ReadOutcome::Entry(n) => {
                    &&& final(self).seen() == old(self).seen().push(n@)
                    &&& !final(self).is_done()
                    &&& if selects(old(self).kept(), n@) {
                        &&& r is Item
                        &&& r->Item_0.name_view() == n@
                        &&& r->Item_0.path_view() == joined(old(self).root_view(), n@)
                    } else {
                        r is Skip
                    }
                },
                ReadOutcome::End => {
                    &&& r is End
                    &&& final(self).is_done()
                    &&& final(self).seen() == old(self).seen()
                },
                ReadOutcome::Failed(c) => {
                    &&& r is Error && r->Error_0 == UsbError::Read(c)
                    &&& final(self).is_done()
                    &&& final(self).seen() == old(self).seen()
                },
            },
    {
        if let ReadOutcome::Entry(n) = &outcome {
            proof {
                lemma_selected_push(self.kept(), self.seen(), n@);
            }
        }
        match self.scan.take(self.selection, outcome) {
            Taken::Skip => Step::Skip,
            Taken::Kept(n) => {
                let path = OwnedPath::compose(&self.scan.root, n.as_slice());
                Step::Item(Device { name: OwnedPath::duplicate(n.as_slice()), path })
            },
            Taken::End => Step::End,
            Taken::Error(e) => Step::Error(e),
        }
    }
}

/// A fresh listing of the hubs in the directory `root`. It carries nothing
/// over from any earlier listing: nothing read, not over.
pub fn list_hubs(root: OwnedPath) -> (r: Hubs)
    ensures
        r.root_view() == root@,
        r.seen() == Seq::<Seq<u8>>::empty(),
        !r.is_done(),
{
    Hubs { scan: Scan::new(root) }
}

/// A fresh listing of the device nodes in the directory `root`, the bus root
/// or a hub's directory. It carries nothing over from any earlier listing.
pub fn list_devices(root: OwnedPath) -> (r: Devices)
    ensures
        r.root_view() == root@,
        r.kept() == Selection::Devices,
        r.seen() == Seq::<Seq<u8>>::empty(),
        !r.is_done(),
{
    Devices { scan: Scan::new(root), selection: Selection::Devices }
}

/// A fresh listing of every hub and device node in the directory `root`,
/// each name classified hub rule first.
pub fn devices(root: OwnedPath) -> (r: Devices)
    ensures
        r.root_view() == root@,
        r.kept() == Selection::Any,
        r.seen() == Seq::<Seq<u8>>::empty(),
        !r.is_done(),
{
    Devices { scan: Scan::new(root), selection: Selection::Any }
}

} // verus!
