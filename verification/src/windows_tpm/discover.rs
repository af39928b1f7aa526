//! Finding out whether the backend is there.
use vstd::multiset::Multiset;
use vstd::pervasive::unreached;
use vstd::prelude::*;

use super::names;
use crate::protocol;
use crate::protocol::{Kind, Machine, Progress, ProgressView, Reply, ReplyView, Resource};
use crate::types::{HardwareKeyInfo, HardwareKeyInfoView};

verus! {

/// A backend whose provider is being opened.
#[derive(Clone, Copy, Debug, PartialEq, Eq, Structural)]
pub struct Discover;

impl DeepView for Discover {
    type V = Discover;

    open spec fn deep_view(&self) -> Discover {
        *self
    }
}

/// The description of this backend.
pub open spec fn backend_info() -> HardwareKeyInfoView {
    HardwareKeyInfoView {
        backend: names::BACKEND@,
        description: "Windows TPM 2.0 (Microsoft Platform Crypto Provider)"@,
        algorithms: seq![names::ALGORITHM@],
        device_id: "local"@,
    }
}

/// The first step of discovery: the provider.
pub open spec fn discovering() -> ProgressView<Discover, Option<HardwareKeyInfoView>> {
    ProgressView::Pending {
        release: seq![],
        call: names::opens_provider(),
        machine: Discover,
    }
}

/// Check if TPM 2.0 is available via CNG Platform Crypto Provider.
/// The Microsoft Platform Crypto Provider only opens successfully when
/// backed by real TPM 2.0 hardware — no software fallback.
pub fn discover() -> (progress: Progress<Discover, Option<HardwareKeyInfo>>)
    ensures
        progress.deep_view() == discovering(),
{
    Progress::Pending { release: Vec::new(), call: names::open_provider(), machine: Discover }
}

fn describe_backend() -> (info: HardwareKeyInfo)
    ensures
        info.deep_view() == backend_info(),
{
    let mut algorithms: Vec<String> = Vec::new();
    algorithms.push(names::ALGORITHM.to_owned());
    assert(algorithms.deep_view() =~= seq![names::ALGORITHM@]);
    HardwareKeyInfo {
        backend: names::BACKEND.to_owned(),
        description: "Windows TPM 2.0 (Microsoft Platform Crypto Provider)".to_owned(),
        algorithms,
        device_id: "local".to_owned(),
    }
}

impl Machine for Discover {
    type Output = Option<HardwareKeyInfo>;

    open spec fn awaits(state: Discover) -> Kind {
        Kind::Handle
    }

    open spec fn next(state: Discover, reply: ReplyView) -> ProgressView<
        Discover,
        Option<HardwareKeyInfoView>,
    > {
        match reply {
            ReplyView::Handle { handle } => ProgressView::Done {
                release: protocol::object(handle),
                output: Some(backend_info()),
            },
            ReplyView::Failed { .. } => ProgressView::Done { release: seq![], output: None },
            _ => arbitrary(),
        }
    }

    open spec fn held(state: Discover) -> Multiset<Resource> {
        Multiset::empty()
    }

    open spec fn yielded(output: Option<HardwareKeyInfoView>) -> Multiset<Resource> {
        Multiset::empty()
    }

    proof fn law_step(state: Discover, reply: ReplyView) {
        protocol::lemma_no_resources();
    }

    fn accepts(&self, reply: &Reply) -> (fits: bool) {
        reply.answers(Kind::Handle)
    }

    fn step(self, reply: Reply) -> (progress: Progress<Self, Option<HardwareKeyInfo>>) {
        let ghost next = Self::next(self.deep_view(), reply.deep_view());
        let progress: Progress<Self, Option<HardwareKeyInfo>> = match reply {
            Reply::Handle { handle } => Progress::Done {
                release: protocol::releasing_object(handle),
                output: Some(describe_backend()),
            },
            Reply::Failed { .. } => Progress::Done { release: Vec::new(), output: None },
            _ => unreached(),
        };
        assert(progress.deep_view() == next);
        progress
    }
}

} // verus!
