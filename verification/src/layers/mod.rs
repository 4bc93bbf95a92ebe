//! The eleven access-control layers, each a type implementing
//! [`crate::engine::Layer`], and the chain they run in.

pub mod acl;
pub mod attrs;
pub mod caps;
pub mod container;
pub mod dac;
pub mod existence;
pub mod mac;
pub mod macos;
pub mod mount;
pub mod netfs;
pub mod traverse;

use vstd::prelude::*;
use crate::engine::{skip_model, Layer, LayerResult, LayerResultModel, LayerStatus};
use crate::report::Certainty;
use traverse::walk_blocks_are_proven;
use crate::facts::Facts;
use crate::identity::Identity;
use crate::op::Op;
use crate::report::LayerId;
use acl::AclLayer;
use attrs::AttrLayer;
use caps::CapsLayer;
use container::ContainerLayer;
use dac::DacLayer;
use existence::ExistenceLayer;
use mac::MacLayer;
use macos::MacosLayer;
use mount::MountLayer;
use netfs::NetfsLayer;
use traverse::TraverseLayer;

verus! {

/// One of the eleven layers, as the chain holds it.
#[derive(Clone, Copy, PartialEq, Eq, Debug, Structural)]
pub enum StdLayer {
    Existence,
    Traverse,
    Dac,
    Acl,
    Attrs,
    Mount,
    Caps,
    Mac,
    Macos,
    Netfs,
    Container,
}

impl Layer for StdLayer {
    open spec fn spec_name(&self) -> Seq<char> {
        match self {
            StdLayer::Existence => ExistenceLayer.spec_name(),
            StdLayer::Traverse => TraverseLayer.spec_name(),
            StdLayer::Dac => DacLayer.spec_name(),
            StdLayer::Acl => AclLayer.spec_name(),
            StdLayer::Attrs => AttrLayer.spec_name(),
            StdLayer::Mount => MountLayer.spec_name(),
            StdLayer::Caps => CapsLayer.spec_name(),
            StdLayer::Mac => MacLayer.spec_name(),
            StdLayer::Macos => MacosLayer.spec_name(),
            StdLayer::Netfs => NetfsLayer.spec_name(),
            StdLayer::Container => ContainerLayer.spec_name(),
        }
    }

    open spec fn spec_order(&self) -> u8 {
        match self {
            StdLayer::Existence => ExistenceLayer.spec_order(),
            StdLayer::Traverse => TraverseLayer.spec_order(),
            StdLayer::Dac => DacLayer.spec_order(),
            StdLayer::Acl => AclLayer.spec_order(),
            StdLayer::Attrs => AttrLayer.spec_order(),
            StdLayer::Mount => MountLayer.spec_order(),
            StdLayer::Caps => CapsLayer.spec_order(),
            StdLayer::Mac => MacLayer.spec_order(),
            StdLayer::Macos => MacosLayer.spec_order(),
            StdLayer::Netfs => NetfsLayer.spec_order(),
            StdLayer::Container => ContainerLayer.spec_order(),
        }
    }

    open spec fn spec_id(&self) -> LayerId {
        match self {
            StdLayer::Existence => ExistenceLayer.spec_id(),
            StdLayer::Traverse => TraverseLayer.spec_id(),
            StdLayer::Dac => DacLayer.spec_id(),
            StdLayer::Acl => AclLayer.spec_id(),
            StdLayer::Attrs => AttrLayer.spec_id(),
            StdLayer::Mount => MountLayer.spec_id(),
            StdLayer::Caps => CapsLayer.spec_id(),
            StdLayer::Mac => MacLayer.spec_id(),
            StdLayer::Macos => MacosLayer.spec_id(),
            StdLayer::Netfs => NetfsLayer.spec_id(),
            StdLayer::Container => ContainerLayer.spec_id(),
        }
    }

    open spec fn spec_check(&self, target: Identity, facts: Facts, op: Op) -> LayerResultModel {
        match self {
            StdLayer::Existence => ExistenceLayer.spec_check(target, facts, op),
            StdLayer::Traverse => TraverseLayer.spec_check(target, facts, op),
            StdLayer::Dac => DacLayer.spec_check(target, facts, op),
            StdLayer::Acl => AclLayer.spec_check(target, facts, op),
            StdLayer::Attrs => AttrLayer.spec_check(target, facts, op),
            StdLayer::Mount => MountLayer.spec_check(target, facts, op),
            StdLayer::Caps => CapsLayer.spec_check(target, facts, op),
            StdLayer::Mac => MacLayer.spec_check(target, facts, op),
            StdLayer::Macos => MacosLayer.spec_check(target, facts, op),
            StdLayer::Netfs => NetfsLayer.spec_check(target, facts, op),
            StdLayer::Container => ContainerLayer.spec_check(target, facts, op),
        }
    }

    fn name(&self) -> (r: String) {
        match self {
            StdLayer::Existence => ExistenceLayer.name(),
            StdLayer::Traverse => TraverseLayer.name(),
            StdLayer::Dac => DacLayer.name(),
            StdLayer::Acl => AclLayer.name(),
            StdLayer::Attrs => AttrLayer.name(),
            StdLayer::Mount => MountLayer.name(),
            StdLayer::Caps => CapsLayer.name(),
            StdLayer::Mac => MacLayer.name(),
            StdLayer::Macos => MacosLayer.name(),
            StdLayer::Netfs => NetfsLayer.name(),
            StdLayer::Container => ContainerLayer.name(),
        }
    }

    fn order(&self) -> (r: u8) {
        match self {
            StdLayer::Existence => ExistenceLayer.order(),
            StdLayer::Traverse => TraverseLayer.order(),
            StdLayer::Dac => DacLayer.order(),
            StdLayer::Acl => AclLayer.order(),
            StdLayer::Attrs => AttrLayer.order(),
            StdLayer::Mount => MountLayer.order(),
            StdLayer::Caps => CapsLayer.order(),
            StdLayer::Mac => MacLayer.order(),
            StdLayer::Macos => MacosLayer.order(),
            StdLayer::Netfs => NetfsLayer.order(),
            StdLayer::Container => ContainerLayer.order(),
        }
    }

    fn id(&self) -> (r: LayerId) {
        match self {
            StdLayer::Existence => ExistenceLayer.id(),
            StdLayer::Traverse => TraverseLayer.id(),
            StdLayer::Dac => DacLayer.id(),
            StdLayer::Acl => AclLayer.id(),
            StdLayer::Attrs => AttrLayer.id(),
            StdLayer::Mount => MountLayer.id(),
            StdLayer::Caps => CapsLayer.id(),
            StdLayer::Mac => MacLayer.id(),
            StdLayer::Macos => MacosLayer.id(),
            StdLayer::Netfs => NetfsLayer.id(),
            StdLayer::Container => ContainerLayer.id(),
        }
    }

    fn check(&self, target: &Identity, facts: &Facts, op: Op) -> (r: LayerResult) {
        match self {
            StdLayer::Existence => ExistenceLayer.check(target, facts, op),
            StdLayer::Traverse => TraverseLayer.check(target, facts, op),
            StdLayer::Dac => DacLayer.check(target, facts, op),
            StdLayer::Acl => AclLayer.check(target, facts, op),
            StdLayer::Attrs => AttrLayer.check(target, facts, op),
            StdLayer::Mount => MountLayer.check(target, facts, op),
            StdLayer::Caps => CapsLayer.check(target, facts, op),
            StdLayer::Mac => MacLayer.check(target, facts, op),
            StdLayer::Macos => MacosLayer.check(target, facts, op),
            StdLayer::Netfs => NetfsLayer.check(target, facts, op),
            StdLayer::Container => ContainerLayer.check(target, facts, op),
        }
    }
}

/// What the standard layers can conclude: every block they report is
/// proven, computed from what an unprivileged process can read; only the
/// container, MAC and network filesystem layers suspect, and none of them
/// blocks; the capability layer only
/// annotates, never blocking or suspecting; only the existence and mount
/// layers report read failures; and the layers this platform has no
/// mechanism for (macOS) are inapplicable, so they skip.
pub proof fn std_layer_outcomes_law(l: StdLayer, id: Identity, facts: Facts, op: Op)
    ensures
        l.spec_check(id, facts, op).status == LayerStatus::Block ==> l.spec_check(
            id,
            facts,
            op,
        ).certainty == Certainty::Proven,
        l.spec_check(id, facts, op).status == LayerStatus::Suspect ==> (l == StdLayer::Container
            || l == StdLayer::Netfs || l == StdLayer::Mac),
        (l == StdLayer::Container || l == StdLayer::Netfs || l == StdLayer::Mac) ==> l.spec_check(
            id,
            facts,
            op,
        ).status != LayerStatus::Block,
        l == StdLayer::Caps ==> l.spec_check(id, facts, op).status == LayerStatus::Skip,
        l.spec_check(id, facts, op).status == LayerStatus::Error ==> (l == StdLayer::Existence || l
            == StdLayer::Mount),
        l == StdLayer::Macos ==> l.spec_check(id, facts, op) == skip_model(),
{
    match facts.ancestors {
        Some(a) => walk_blocks_are_proven(id, facts.euid, a@, 0, seq![]),
        None => {},
    }
}

} // verus!
