use vstd::prelude::*;

verus! {

/// ASCII `u`.
pub const LETTER_U: u8 = 117;

/// ASCII `s`.
pub const LETTER_S: u8 = 115;

/// ASCII `b`.
pub const LETTER_B: u8 = 98;

/// ASCII `:`, which separates a device node's port chain from its
/// configuration and interface numbers.
pub const COLON: u8 = 58;

/// A name denotes a hub when its first three bytes are `usb`.
pub open spec fn is_hub(name: Seq<u8>) -> bool {
    name.len() >= 3 && name[0] == LETTER_U && name[1] == LETTER_S && name[2] == LETTER_B
}

/// A name denotes a device interface node when it holds a `:` byte.
pub open spec fn is_device(name: Seq<u8>) -> bool {
    exists|i: int| 0 <= i < name.len() && name[i] == COLON
}

/// Whether `name` follows the hub naming rule.
pub fn is_hub_name(name: &[u8]) -> (r: bool)
    ensures
        r == is_hub(name@),
{
    name.len() >= 3 && name[0] == LETTER_U && name[1] == LETTER_S && name[2] == LETTER_B
}

/// Whether `name` follows the device naming rule.
pub fn is_device_name(name: &[u8]) -> (r: bool)
    ensures
        r == is_device(name@),
{
    let mut i: usize = 0;
    while i < name.len()
        invariant
            0 <= i <= name@.len(),
            forall|j: int| 0 <= j < i ==> name@[j] != COLON,
        decreases name@.len() - i,
    {
        if name[i] == COLON {
            return true;
        }
        i = i + 1;
    }
    false
}

/// What an entry of the bus directory stands for.
#[derive(Clone, Copy, Debug, PartialEq, Eq, Structural)]
pub enum NodeKind {
    Hub,
    Device,
    Other,
}

/// One classification of a name: the hub rule is tried first, then the device
/// rule; a name that meets neither is `Other`.
pub open spec fn kind_of(name: Seq<u8>) -> NodeKind {
    if is_hub(name) {
        NodeKind::Hub
    } else if is_device(name) {
        NodeKind::Device
    } else {
        NodeKind::Other
    }
}

/// Classifies a directory entry name, hub rule first.
pub fn classify(name: &[u8]) -> (r: NodeKind)
    ensures
        r == kind_of(name@),
{
    if is_hub_name(name) {
        NodeKind::Hub
    } else if is_device_name(name) {
        NodeKind::Device
    } else {
        NodeKind::Other
    }
}

/// A name is classified as a hub exactly when it meets the hub rule, as a
/// device exactly when it meets the device rule and not the hub rule, and is
/// skipped exactly when it meets neither rule.
pub proof fn lemma_classification(name: Seq<u8>)
    ensures
        (kind_of(name) == NodeKind::Hub) <==> is_hub(name),
        (kind_of(name) == NodeKind::Device) <==> (is_device(name) && !is_hub(name)),
        (kind_of(name) == NodeKind::Other) <==> (!is_device(name) && !is_hub(name)),
{
}

} // verus!
