//! Binaries of the community-driven quickinstall repository.
use vstd::prelude::*;
use vstd::string::*;

use crate::config::BinaryProvider;
use crate::paths::JoinedPath;
use crate::providers::delivery::{
    delivery_answers, Delivery, DeliveryPhase, Event, Request, Step,
};
use crate::resolver::ResolvedCrate;

verus! {

/// Where quickinstall keeps a binary of a crate.
pub open spec fn url_of(krate: ResolvedCrate, platform: Seq<char>) -> Seq<char> {
    let tag = krate.name@ + "-"@ + krate.version@;
    "https://github.com/cargo-bins/cargo-quickinstall/releases/download/"@ + tag + "/"@ + tag
        + "-"@ + platform + ".tar.gz"@
}

/// The quickinstall repository. Its binaries come without checksums.
#[derive(Clone, Debug, PartialEq, Eq)]
pub struct QuickinstallProvider {
    pub delivery: Delivery,
}

impl QuickinstallProvider {
    /// The provider, with the directory for its binaries.
    pub fn new(cache_dir: JoinedPath, exe_suffix: String) -> (r: Self)
        ensures
            r.delivery.provider == BinaryProvider::Quickinstall,
            r.delivery.cache_dir == cache_dir,
            !r.delivery.verify_checksums,
            r.delivery.exe_suffix == exe_suffix,
    {
        QuickinstallProvider {
            delivery: Delivery::new(BinaryProvider::Quickinstall, cache_dir, false, exe_suffix),
        }
    }

    /// Where quickinstall keeps a binary of a crate.
    pub fn construct_url(krate: &ResolvedCrate, platform: &str) -> (r: String)
        ensures
            r@ == url_of(*krate, platform@),
    {
        let tag = krate.name.clone().concat("-").concat(krate.version.as_str());
        "https://github.com/cargo-bins/cargo-quickinstall/releases/download/".to_owned().concat(
            tag.as_str(),
        ).concat("/").concat(tag.as_str()).concat("-").concat(platform).concat(".tar.gz")
    }

    /// Start to look for a binary of a crate: there is one place where it would be.
    pub fn try_resolve(&self, request: &Request) -> (r: Step<DeliveryPhase>)
        ensures
            self.delivery.downloads(
                r,
                url_of(request.krate.resolved, request.platform@),
                "archive.tar.gz"@,
            ),
    {
        let url = Self::construct_url(&request.krate.resolved, request.platform.as_str());
        self.delivery.start(url, "archive.tar.gz")
    }

    /// Go on with an attempt once the last action is over.
    pub fn next(&self, request: &Request, phase: DeliveryPhase, event: Event) -> (r: Step<
        DeliveryPhase,
    >)
        requires
            delivery_answers(phase, event),
        ensures
            self.delivery.steps(*request, phase, event, r),
    {
        self.delivery.next(request, phase, event)
    }
}

}
