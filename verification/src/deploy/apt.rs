//! Packages installed with the package manager.

use crate::deploy::{verdict_view, Effect, Installed, ItemView, Seen};
use crate::error::CheckError;
use crate::op::apt::AptOp;
use crate::text::chain;
use vstd::prelude::*;

verus! {

/// A package of the package manager.
#[derive(Debug, PartialEq, Eq)]
pub struct Apt {
    sw_name: String,
}

impl View for Apt {
    type V = ItemView;

    closed spec fn view(&self) -> ItemView {
        ItemView::Apt { name: self.sw_name@ }
    }
}

impl Apt {
    /// The package named `sw`.
    pub fn from_sw(sw: &str) -> (r: Self)
        ensures
            r@ == (ItemView::Apt { name: sw@ }),
    {
        Apt { sw_name: sw.to_owned() }
    }

    /// Passes when the package manager knows the package.
    pub fn check(&self, apt: &AptOp) -> (r: Result<(), CheckError>)
        ensures
            forall|seen: Seen| verdict_view(r) == #[trigger] self@.check(apt@.packages, seen),
    {
        apt.check(self.sw_name.as_str())
    }

    /// The effect of installing the package: the package manager's install command.
    pub fn install(&self, apt: &AptOp) -> (r: Effect)
        ensures
            Ok::<crate::deploy::EffectView, crate::error::CheckErrorView>(r@) == self@.effect(
                apt@,
            ),
    {
        Effect::Install(apt.install(self.sw_name.as_str()))
    }

    /// What the installed package leaves behind: its name.
    pub fn installed(&self) -> (r: Installed)
        ensures
            forall|output: Seq<char>| r@ == #[trigger] self@.installed(output),
    {
        Installed::Apt { name: self.sw_name.clone() }
    }

    /// The package in a few words, for messages.
    pub fn label(&self) -> (r: String)
        ensures
            r@ == self@.label(),
    {
        chain("apt ", self.sw_name.as_str())
    }

    /// The model of a package is a package.
    pub proof fn lemma_kind(&self)
        ensures
            self@ is Apt,
    {
    }
}

} // verus!
