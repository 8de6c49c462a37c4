//! Which foreground applications the device is captured for.

use vstd::prelude::*;
use vstd::string::StringSliceAdditionalSpecFns;

verus! {

/// The allow-list: identifier prefixes of the applications the device is
/// captured for, as bytes, in the order in which they are tried.
pub open spec fn target_bundle_ids() -> Seq<Seq<u8>> {
    seq![
        "com.figma.Desktop".spec_bytes(),
        "com.google.Chrome".spec_bytes(),
        "com.apple.Safari".spec_bytes(),
        "org.mozilla.firefox".spec_bytes(),
        "company.thebrowser.Browser".spec_bytes(),
        "com.microsoft.edgemac".spec_bytes(),
        "com.brave.Browser".spec_bytes(),
        "com.operasoftware.Opera".spec_bytes(),
        "com.vivaldi.Vivaldi".spec_bytes(),
        "org.chromium.Chromium".spec_bytes(),
    ]
}

/// An identifier is allowed when some entry of the allow-list is a prefix
/// of it, byte for byte.
pub open spec fn is_allowed(bundle_id: Seq<u8>) -> bool {
    exists|i: int|
        0 <= i < target_bundle_ids().len() && (#[trigger] target_bundle_ids()[i]).is_prefix_of(
            bundle_id,
        )
}

/// The allow-list as values.
pub fn allow_list() -> (list: Vec<&'static str>)
    ensures
        list@.len() == target_bundle_ids().len(),
        forall|i: int|
            0 <= i < list@.len() ==> (#[trigger] list@[i]).spec_bytes() == target_bundle_ids()[i],
{
    vec![
        "com.figma.Desktop",
        "com.google.Chrome",
        "com.apple.Safari",
        "org.mozilla.firefox",
        "company.thebrowser.Browser",
        "com.microsoft.edgemac",
        "com.brave.Browser",
        "com.operasoftware.Opera",
        "com.vivaldi.Vivaldi",
        "org.chromium.Chromium",
    ]
}

/// Whether `bytes` begins with `prefix`.
pub fn starts_with(bytes: &[u8], prefix: &[u8]) -> (r: bool)
    ensures
        r == prefix@.is_prefix_of(bytes@),
{
    if prefix.len() > bytes.len() {
        return false;
    }
    let mut i: usize = 0;
    while i < prefix.len()
        invariant
            0 <= i <= prefix@.len() <= bytes@.len(),
            forall|j: int| 0 <= j < i ==> prefix@[j] == bytes@[j],
        decreases prefix@.len() - i,
    {
        if prefix[i] != bytes[i] {
            assert(prefix@[i as int] != bytes@.subrange(0, prefix@.len() as int)[i as int]);
            return false;
        }
        i += 1;
    }
    assert(prefix@ =~= bytes@.subrange(0, prefix@.len() as int));
    true
}

/// Whether the frontmost application is one the device is captured for.
/// `bundle_id` is its identifier, `None` where there is no frontmost
/// application or it has no identifier.
pub fn is_target_app_frontmost(bundle_id: Option<&[u8]>) -> (r: bool)
    ensures
        r == (bundle_id is Some && is_allowed((bundle_id->0)@)),
{
    let bid = match bundle_id {
        Some(b) => b,
        None => {
            return false;
        },
    };
    let list = allow_list();
    let mut i: usize = 0;
    while i < list.len()
        invariant
            bundle_id == Some(bid),
            0 <= i <= list@.len(),
            list@.len() == target_bundle_ids().len(),
            forall|j: int|
                0 <= j < list@.len() ==> (#[trigger] list@[j]).spec_bytes()
                    == target_bundle_ids()[j],
            forall|j: int| 0 <= j < i ==> !(#[trigger] target_bundle_ids()[j]).is_prefix_of(bid@),
        decreases list@.len() - i,
    {
        let entry: &[u8] = list[i].as_bytes();
        assert(entry@ == target_bundle_ids()[i as int]);
        if starts_with(bid, entry) {
            assert(target_bundle_ids()[i as int].is_prefix_of(bid@));
            return true;
        }
        i += 1;
    }
    false
}

} // verus!
