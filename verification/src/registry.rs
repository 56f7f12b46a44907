//! Installed-capability enumeration results and the selection filter.

use vstd::prelude::*;
use crate::params::tag_spec;

verus! {

/// One installed engine as the plugin host reports it: its capability tag
/// and the filesystem path it can be loaded from. Discovered, never
/// constructed by this layer.
#[derive(Debug)]
pub struct PluginCapability {
    pub tag: String,
    pub path: String,
}

/// The first index of `caps` whose tag is the one implied by `sizeshift`,
/// if any. Selection takes the first match in whatever order the plugin
/// host reported; the discovery order itself is unspecified.
pub open spec fn first_match(caps: Seq<PluginCapability>, sizeshift: nat) -> Option<int>
    decreases caps.len(),
{
    if caps.len() == 0 {
        None
    } else if caps[0].tag@ == tag_spec(sizeshift) {
        Some(0)
    } else {
        match first_match(caps.drop_first(), sizeshift) {
            Some(i) => Some(i + 1),
            None => None,
        }
    }
}

/// What `first_match` says, spelled out: the returned index is the least
/// matching one, and `None` means no entry matches.
pub proof fn lemma_first_match(caps: Seq<PluginCapability>, sizeshift: nat)
    ensures
        match first_match(caps, sizeshift) {
            Some(i) => 0 <= i < caps.len() && caps[i].tag@ == tag_spec(sizeshift) && (forall|j: int|
                0 <= j < i ==> caps[j].tag@ != tag_spec(sizeshift)),
            None => forall|j: int| 0 <= j < caps.len() ==> caps[j].tag@ != tag_spec(sizeshift),
        },
    decreases caps.len(),
{
    if caps.len() > 0 && caps[0].tag@ != tag_spec(sizeshift) {
        let rest = caps.drop_first();
        lemma_first_match(rest, sizeshift);
        match first_match(rest, sizeshift) {
            Some(i) => {
                assert(caps[i + 1].tag@ == tag_spec(sizeshift)) by {
                    assert(rest[i] == caps[i + 1]);
                }
                assert forall|j: int| 0 <= j < i + 1 implies caps[j].tag@ != tag_spec(
                    sizeshift,
                ) by {
                    if j > 0 {
                        assert(rest[j - 1] == caps[j]);
                    }
                }
            },
            None => {
                assert forall|j: int| 0 <= j < caps.len() implies caps[j].tag@ != tag_spec(
                    sizeshift,
                ) by {
                    if j > 0 {
                        assert(rest[j - 1] == caps[j]);
                    }
                }
            },
        }
    }
}

/// Selects the capability that will serve `sizeshift`: the first entry whose
/// tag equals the implied tag, or `None` when no entry matches.
pub fn select_capability(caps: &Vec<PluginCapability>, sizeshift: u32) -> (r: Option<usize>)
    ensures
        match r {
            Some(i) => first_match(caps@, sizeshift as nat) == Some(i as int),
            None => first_match(caps@, sizeshift as nat) is None,
        },
{
    let tag = crate::params::capability_tag(sizeshift);
    let mut i: usize = 0;
    while i < caps.len()
        invariant
            i <= caps@.len(),
            tag@ == tag_spec(sizeshift as nat),
            forall|j: int| 0 <= j < i ==> caps@[j].tag@ != tag_spec(sizeshift as nat),
        decreases caps@.len() - i,
    {
        if caps[i].tag.eq(&tag) {
            proof {
                lemma_first_match(caps@, sizeshift as nat);
            }
            return Some(i);
        }
        i = i + 1;
    }
    proof {
        lemma_first_match(caps@, sizeshift as nat);
    }
    None
}

} // verus!
