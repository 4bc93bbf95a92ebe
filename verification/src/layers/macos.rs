//! The layer for macOS SIP, quarantine and TCC; inapplicable here, so it always reports a skip.

use vstd::prelude::*;
use crate::engine::{skip_model, Layer, LayerResult, LayerResultModel};
use crate::facts::Facts;
use crate::identity::Identity;
use crate::op::Op;
use crate::report::LayerId;
use crate::text::lit;

verus! {

pub struct MacosLayer;

impl Layer for MacosLayer {
    open spec fn spec_name(&self) -> Seq<char> {
        "macos"@
    }

    open spec fn spec_order(&self) -> u8 {
        9
    }

    open spec fn spec_id(&self) -> LayerId {
        LayerId::MacosSip
    }

    open spec fn spec_check(&self, target: Identity, facts: Facts, op: Op) -> LayerResultModel {
        skip_model()
    }

    fn name(&self) -> (r: String) {
        lit("macos")
    }

    fn order(&self) -> (r: u8) {
        9
    }

    fn id(&self) -> (r: LayerId) {
        LayerId::MacosSip
    }

    fn check(&self, _target: &Identity, _facts: &Facts, _op: Op) -> (r: LayerResult) {
        LayerResult::skip()
    }
}

} // verus!
