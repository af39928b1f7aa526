//! The conversation between an operation and the system.
//!
//! An operation is a machine. It asks for one system call at a time, is handed the reply,
//! and says which resources to give back before it goes on.
use vstd::multiset::Multiset;
use vstd::prelude::*;

use crate::hello::{AvailabilityReport, ConsentReport, ConsentReportView};
use crate::types::{Error, ErrorView};

verus! {

/// Something that the system lends and wants back.
#[derive(Clone, Copy, Debug, PartialEq, Eq, Structural)]
pub enum Resource {
    /// A CNG handle, given back by `NCryptFreeObject`.
    Object { handle: usize },
    /// Memory that CNG allocated, given back by `NCryptFreeBuffer`.
    Buffer { address: usize },
}

/// The resource behind a handle; the zero handle stands for none.
pub open spec fn object(handle: usize) -> Seq<Resource> {
    if handle == 0 {
        seq![]
    } else {
        seq![Resource::Object { handle }]
    }
}

/// The resource behind a pointer; the null pointer stands for none.
pub open spec fn buffer(address: usize) -> Seq<Resource> {
    if address == 0 {
        seq![]
    } else {
        seq![Resource::Buffer { address }]
    }
}

/// Notes that a handle is to be given back.
pub fn release_object(release: &mut Vec<Resource>, handle: usize)
    ensures
        final(release)@ == old(release)@ + object(handle),
{
    if handle != 0 {
        release.push(Resource::Object { handle });
    }
}

/// A handle that is to be given back.
pub fn releasing_object(handle: usize) -> (release: Vec<Resource>)
    ensures
        release@ == object(handle),
{
    let mut release: Vec<Resource> = Vec::new();
    if handle != 0 {
        release.push(Resource::Object { handle });
    }
    assert(release@ =~= object(handle));
    release
}

/// Memory that is to be given back.
pub fn releasing_buffer(address: usize) -> (release: Vec<Resource>)
    ensures
        release@ == buffer(address),
{
    let mut release: Vec<Resource> = Vec::new();
    if address != 0 {
        release.push(Resource::Buffer { address });
    }
    assert(release@ =~= buffer(address));
    release
}

/// The part of a buffer that counts.
pub open spec fn filled(bytes: Seq<u8>, written: u32) -> Seq<u8> {
    if written < bytes.len() {
        bytes.take(written as int)
    } else {
        bytes
    }
}

/// Cuts a buffer down to the part that counts.
pub fn cut(bytes: Vec<u8>, written: u32) -> (kept: Vec<u8>)
    ensures
        kept@ == filled(bytes@, written),
{
    let mut kept = bytes;
    kept.truncate(written as usize);
    kept
}

/// What kind of reply a call gets.
#[derive(Clone, Copy, Debug, PartialEq, Eq, Structural)]
pub enum Kind {
    Handle,
    Status,
    Size,
    Data,
    Enumeration,
    Availability,
    Consent,
}

/// A system call that an operation asks for.
#[derive(Debug, PartialEq, Eq)]
pub enum Call {
    /// `NCryptOpenStorageProvider`, with the zero-terminated name of the provider.
    OpenProvider { wide_name: Vec<u16> },
    /// `NCryptOpenKey`.
    OpenKey { provider: usize, name: String },
    /// `NCryptCreatePersistedKey`.
    CreateKey { provider: usize, algorithm: String, name: String },
    /// `NCryptFinalizeKey`.
    FinalizeKey { key: usize },
    /// `NCryptExportKey` without a buffer: how large must it be?
    ExportSize { key: usize, blob_type: String },
    /// `NCryptExportKey` into a buffer of `capacity` bytes.
    Export { key: usize, blob_type: String, capacity: u32 },
    /// `NCryptSignHash` without a buffer: how large must it be?
    SignSize { key: usize, hash: Vec<u8> },
    /// `NCryptSignHash` into a buffer of `capacity` bytes.
    Sign { key: usize, hash: Vec<u8>, capacity: u32 },
    /// `NCryptEnumKeys`, with the enumeration state that the last call left (zero: none yet).
    EnumKeys { provider: usize, cursor: usize },
    /// `NCryptDeleteKey`, which takes the handle over.
    DeleteKey { key: usize },
    /// `UserConsentVerifier::CheckAvailabilityAsync`.
    CheckHello,
    /// `UserConsentVerifier::RequestVerificationAsync`, with the text to show.
    RequestConsent { reason: String },
}

/// The contents of a [`Call`].
pub enum CallView {
    OpenProvider { wide_name: Seq<u16> },
    OpenKey { provider: usize, name: Seq<char> },
    CreateKey { provider: usize, algorithm: Seq<char>, name: Seq<char> },
    FinalizeKey { key: usize },
    ExportSize { key: usize, blob_type: Seq<char> },
    Export { key: usize, blob_type: Seq<char>, capacity: u32 },
    SignSize { key: usize, hash: Seq<u8> },
    Sign { key: usize, hash: Seq<u8>, capacity: u32 },
    EnumKeys { provider: usize, cursor: usize },
    DeleteKey { key: usize },
    CheckHello,
    RequestConsent { reason: Seq<char> },
}

impl DeepView for Call {
    type V = CallView;

    open spec fn deep_view(&self) -> CallView {
        match self {
            Call::OpenProvider { wide_name } => CallView::OpenProvider { wide_name: wide_name@ },
            Call::OpenKey { provider, name } => CallView::OpenKey {
                provider: *provider,
                name: name@,
            },
            Call::CreateKey { provider, algorithm, name } => CallView::CreateKey {
                provider: *provider,
                algorithm: algorithm@,
                name: name@,
            },
            Call::FinalizeKey { key } => CallView::FinalizeKey { key: *key },
            Call::ExportSize { key, blob_type } => CallView::ExportSize {
                key: *key,
                blob_type: blob_type@,
            },
            Call::Export { key, blob_type, capacity } => CallView::Export {
                key: *key,
                blob_type: blob_type@,
                capacity: *capacity,
            },
            Call::SignSize { key, hash } => CallView::SignSize { key: *key, hash: hash@ },
            Call::Sign { key, hash, capacity } => CallView::Sign {
                key: *key,
                hash: hash@,
                capacity: *capacity,
            },
            Call::EnumKeys { provider, cursor } => CallView::EnumKeys {
                provider: *provider,
                cursor: *cursor,
            },
            Call::DeleteKey { key } => CallView::DeleteKey { key: *key },
            Call::CheckHello => CallView::CheckHello,
            Call::RequestConsent { reason } => CallView::RequestConsent { reason: reason@ },
        }
    }
}

impl CallView {
    /// The kind of reply that the call gets.
    pub open spec fn kind(self) -> Kind {
        match self {
            CallView::OpenProvider { .. } => Kind::Handle,
            CallView::OpenKey { .. } => Kind::Handle,
            CallView::CreateKey { .. } => Kind::Handle,
            CallView::FinalizeKey { .. } => Kind::Status,
            CallView::ExportSize { .. } => Kind::Size,
            CallView::Export { .. } => Kind::Data,
            CallView::SignSize { .. } => Kind::Size,
            CallView::Sign { .. } => Kind::Data,
            CallView::EnumKeys { .. } => Kind::Enumeration,
            CallView::DeleteKey { .. } => Kind::Status,
            CallView::CheckHello => Kind::Availability,
            CallView::RequestConsent { .. } => Kind::Consent,
        }
    }

    /// Whether the call is made with `NCRYPT_SILENT_FLAG`, so that CNG fails rather than
    /// show a dialog of its own.
    pub open spec fn is_silent(self) -> bool {
        match self {
            CallView::OpenKey { .. } => true,
            CallView::CreateKey { .. } => true,
            CallView::FinalizeKey { .. } => true,
            CallView::EnumKeys { .. } => true,
            _ => false,
        }
    }

    /// The resources that the call works on.
    pub open spec fn uses(self) -> Seq<Resource> {
        match self {
            CallView::OpenProvider { .. } => seq![],
            CallView::OpenKey { provider, .. } => object(provider),
            CallView::CreateKey { provider, .. } => object(provider),
            CallView::FinalizeKey { key } => object(key),
            CallView::ExportSize { key, .. } => object(key),
            CallView::Export { key, .. } => object(key),
            CallView::SignSize { key, .. } => object(key),
            CallView::Sign { key, .. } => object(key),
            CallView::EnumKeys { provider, cursor } => object(provider) + buffer(cursor),
            CallView::DeleteKey { key } => object(key),
            CallView::CheckHello => seq![],
            CallView::RequestConsent { .. } => seq![],
        }
    }

    /// The resources that the caller no longer owns once it has made the call: a key that
    /// is deleted, and an enumeration state, which comes back with the reply.
    pub open spec fn surrenders(self) -> Seq<Resource> {
        match self {
            CallView::DeleteKey { key } => object(key),
            CallView::EnumKeys { cursor, .. } => buffer(cursor),
            _ => seq![],
        }
    }
}

impl Call {
    /// Whether the call is made with `NCRYPT_SILENT_FLAG`.
    pub fn is_silent(&self) -> (silent: bool)
        ensures
            silent == self.deep_view().is_silent(),
    {
        match self {
            Call::OpenKey { .. } => true,
            Call::CreateKey { .. } => true,
            Call::FinalizeKey { .. } => true,
            Call::EnumKeys { .. } => true,
            _ => false,
        }
    }
}

/// What the system answered.
#[derive(Debug, PartialEq, Eq)]
pub enum Reply {
    /// The call opened a handle.
    Handle { handle: usize },
    /// The call succeeded.
    Success,
    /// The call needs a buffer of this size.
    Size { size: u32 },
    /// The call filled the buffer and says how many bytes of it count.
    Data { bytes: Vec<u8>, written: u32 },
    /// The enumeration went on: its state, the memory that holds the name of the key
    /// (zero: no name), and that name where it is valid UTF-16.
    Named { cursor: usize, address: usize, name: Option<String> },
    /// The enumeration ended, with this state.
    Ended { cursor: usize },
    /// The Windows Hello check ran.
    Availability { availability: AvailabilityReport },
    /// The Windows Hello prompt ran.
    Consent { consent: ConsentReport },
    /// The call failed with this message.
    Failed { message: String },
}

/// The contents of a [`Reply`].
pub enum ReplyView {
    Handle { handle: usize },
    Success,
    Size { size: u32 },
    Data { bytes: Seq<u8>, written: u32 },
    Named { cursor: usize, address: usize, name: Option<Seq<char>> },
    Ended { cursor: usize },
    Availability { availability: AvailabilityReport },
    Consent { consent: ConsentReportView },
    Failed { message: Seq<char> },
}

impl DeepView for Reply {
    type V = ReplyView;

    open spec fn deep_view(&self) -> ReplyView {
        match self {
            Reply::Handle { handle } => ReplyView::Handle { handle: *handle },
            Reply::Success => ReplyView::Success,
            Reply::Size { size } => ReplyView::Size { size: *size },
            Reply::Data { bytes, written } => ReplyView::Data { bytes: bytes@, written: *written },
            Reply::Named { cursor, address, name } => ReplyView::Named {
                cursor: *cursor,
                address: *address,
                name: name.deep_view(),
            },
            Reply::Ended { cursor } => ReplyView::Ended { cursor: *cursor },
            Reply::Availability { availability } => ReplyView::Availability {
                availability: *availability,
            },
            Reply::Consent { consent } => ReplyView::Consent { consent: consent.deep_view() },
            Reply::Failed { message } => ReplyView::Failed { message: message@ },
        }
    }
}

impl ReplyView {
    /// Whether the reply is of a kind. Enumerations and Windows Hello have their own ways
    /// to fail, and no buffer holds more than `isize::MAX` bytes.
    pub open spec fn answers(self, kind: Kind) -> bool {
        match self {
            ReplyView::Handle { .. } => kind == Kind::Handle,
            ReplyView::Success => kind == Kind::Status,
            ReplyView::Size { .. } => kind == Kind::Size,
            ReplyView::Data { bytes, .. } => kind == Kind::Data && bytes.len() <= isize::MAX,
            ReplyView::Named { .. } => kind == Kind::Enumeration,
            ReplyView::Ended { .. } => kind == Kind::Enumeration,
            ReplyView::Availability { .. } => kind == Kind::Availability,
            ReplyView::Consent { .. } => kind == Kind::Consent,
            ReplyView::Failed { .. } => kind == Kind::Handle || kind == Kind::Status || kind
                == Kind::Size || kind == Kind::Data,
        }
    }

    /// The resources that come with the reply.
    pub open spec fn brings(self) -> Seq<Resource> {
        match self {
            ReplyView::Handle { handle } => object(handle),
            ReplyView::Named { cursor, address, .. } => buffer(cursor) + buffer(address),
            ReplyView::Ended { cursor } => buffer(cursor),
            _ => seq![],
        }
    }
}

impl Reply {
    /// Whether the reply is of a kind.
    pub fn answers(&self, kind: Kind) -> (fits: bool)
        ensures
            fits == self.deep_view().answers(kind),
    {
        match self {
            Reply::Handle { .. } => kind == Kind::Handle,
            Reply::Success => kind == Kind::Status,
            Reply::Size { .. } => kind == Kind::Size,
            Reply::Data { bytes, .. } => kind == Kind::Data && bytes.len() <= isize::MAX as usize,
            Reply::Named { .. } => kind == Kind::Enumeration,
            Reply::Ended { .. } => kind == Kind::Enumeration,
            Reply::Availability { .. } => kind == Kind::Availability,
            Reply::Consent { .. } => kind == Kind::Consent,
            Reply::Failed { .. } => kind == Kind::Handle || kind == Kind::Status || kind
                == Kind::Size || kind == Kind::Data,
        }
    }
}

/// Where an operation stands. In every case `release` lists what to give back first, in
/// this order.
#[derive(Debug, PartialEq, Eq)]
pub enum Progress<M, T> {
    /// Make this call and hand the reply to the machine.
    Pending { release: Vec<Resource>, call: Call, machine: M },
    /// The operation succeeded.
    Done { release: Vec<Resource>, output: T },
    /// The operation failed.
    Failed { release: Vec<Resource>, error: Error },
}

/// The contents of a [`Progress`].
pub enum ProgressView<M, T> {
    Pending { release: Seq<Resource>, call: CallView, machine: M },
    Done { release: Seq<Resource>, output: T },
    Failed { release: Seq<Resource>, error: ErrorView },
}

impl<M: DeepView, T: DeepView> DeepView for Progress<M, T> {
    type V = ProgressView<M::V, T::V>;

    open spec fn deep_view(&self) -> ProgressView<M::V, T::V> {
        match self {
            Progress::Pending { release, call, machine } => ProgressView::Pending {
                release: release@,
                call: call.deep_view(),
                machine: machine.deep_view(),
            },
            Progress::Done { release, output } => ProgressView::Done {
                release: release@,
                output: output.deep_view(),
            },
            Progress::Failed { release, error } => ProgressView::Failed {
                release: release@,
                error: error.deep_view(),
            },
        }
    }
}

impl<M, T> ProgressView<M, T> {
    /// What is given back at this point.
    pub open spec fn release(self) -> Seq<Resource> {
        match self {
            ProgressView::Pending { release, .. } => release,
            ProgressView::Done { release, .. } => release,
            ProgressView::Failed { release, .. } => release,
        }
    }

    /// The same, where something else is given back first.
    pub open spec fn after(self, first: Seq<Resource>) -> ProgressView<M, T> {
        match self {
            ProgressView::Pending { release, call, machine } => ProgressView::Pending {
                release: first + release,
                call,
                machine,
            },
            ProgressView::Done { release, output } => ProgressView::Done {
                release: first + release,
                output,
            },
            ProgressView::Failed { release, error } => ProgressView::Failed {
                release: first + release,
                error,
            },
        }
    }
}

impl<M: DeepView, T: DeepView> Progress<M, T> {
    /// The same, where something else is given back first.
    pub fn after(self, first: Vec<Resource>) -> (progress: Progress<M, T>)
        ensures
            progress.deep_view() == self.deep_view().after(first@),
    {
        let mut first = first;
        match self {
            Progress::Pending { release, call, machine } => {
                let mut release = release;
                first.append(&mut release);
                Progress::Pending { release: first, call, machine }
            },
            Progress::Done { release, output } => {
                let mut release = release;
                first.append(&mut release);
                Progress::Done { release: first, output }
            },
            Progress::Failed { release, error } => {
                let mut release = release;
                first.append(&mut release);
                Progress::Failed { release: first, error }
            },
        }
    }
}

/// An operation in progress.
pub trait Machine: DeepView + Sized {
    /// What the operation yields when it succeeds.
    type Output: DeepView;

    /// The kind of reply that the machine waits for.
    spec fn awaits(state: Self::V) -> Kind;

    /// What the machine does with a reply.
    spec fn next(state: Self::V, reply: ReplyView) -> ProgressView<
        Self::V,
        <Self::Output as DeepView>::V,
    >;

    /// The resources that the machine owns while it waits.
    spec fn held(state: Self::V) -> Multiset<Resource>;

    /// The resources that pass to the caller with the output.
    spec fn yielded(output: <Self::Output as DeepView>::V) -> Multiset<Resource>;

    /// A step loses no resource and gives none back twice: what the machine held and what
    /// the reply brought is given back, surrendered to the next call, passed on with the
    /// output, or still held. The next call works on resources that the machine still
    /// owns or surrenders to it, and its reply is of the kind that the machine then
    /// waits for.
    proof fn law_step(state: Self::V, reply: ReplyView)
        requires
            reply.answers(Self::awaits(state)),
        ensures
            match Self::next(state, reply) {
                ProgressView::Pending { release, call, machine } => {
                    &&& Self::held(state).add(reply.brings().to_multiset())
                        == release.to_multiset().add(call.surrenders().to_multiset()).add(
                        Self::held(machine),
                    )
                    &&& call.uses().to_multiset().subset_of(
                        call.surrenders().to_multiset().add(Self::held(machine)),
                    )
                    &&& call.kind() == Self::awaits(machine)
                },
                ProgressView::Done { release, output } => Self::held(state).add(
                    reply.brings().to_multiset(),
                ) == release.to_multiset().add(Self::yielded(output)),
                ProgressView::Failed { release, .. } => Self::held(state).add(
                    reply.brings().to_multiset(),
                ) == release.to_multiset(),
            },
    ;

    /// Whether the machine can take a reply.
    fn accepts(&self, reply: &Reply) -> (fits: bool)
        ensures
            fits == reply.deep_view().answers(Self::awaits(self.deep_view())),
    ;

    /// Hands a reply to the machine.
    fn step(self, reply: Reply) -> (progress: Progress<Self, Self::Output>)
        requires
            reply.deep_view().answers(Self::awaits(self.deep_view())),
        ensures
            progress.deep_view() == Self::next(self.deep_view(), reply.deep_view()),
    ;
}

pub(crate) proof fn lemma_no_resources()
    ensures
        Seq::<Resource>::empty().to_multiset() == Multiset::<Resource>::empty(),
{
    Seq::<Resource>::empty().to_multiset_ensures();
    assert(Seq::<Resource>::empty().to_multiset() =~= Multiset::empty());
}

pub(crate) proof fn lemma_joined_resources(a: Seq<Resource>, b: Seq<Resource>)
    ensures
        (a + b).to_multiset() == a.to_multiset().add(b.to_multiset()),
{
    vstd::seq_lib::lemma_multiset_commutative(a, b);
}

/// A handle or a pointer that is not zero stands for one resource, and zero for none.
pub proof fn law_zero_stands_for_no_resource(value: usize)
    ensures
        value == 0 ==> object(value) == Seq::<Resource>::empty() && buffer(value) == Seq::<
            Resource,
        >::empty(),
        value != 0 ==> object(value) == seq![Resource::Object { handle: value }] && buffer(value)
            == seq![Resource::Buffer { address: value }],
{
}

/// What counts of a buffer are its bytes from the start, in their order, as many as were
/// written and as there are.
pub proof fn law_buffer_is_cut_at_its_end(bytes: Seq<u8>, written: u32)
    ensures
        filled(bytes, written).len() == (if written < bytes.len() {
            written as nat
        } else {
            bytes.len()
        }),
        forall|i: int|
            0 <= i < filled(bytes, written).len() ==> #[trigger] filled(bytes, written)[i]
                == bytes[i],
{
}

/// The calls that could make CNG show a dialog are silent, and no others.
pub proof fn law_dialogs_are_silenced(call: CallView)
    ensures
        call.is_silent() <==> call is OpenKey || call is CreateKey || call is FinalizeKey || call
            is EnumKeys,
{
}

/// Which replies a call can get: what it is made for, or a failure. Enumerations and Windows
/// Hello report their failures in their own replies.
pub proof fn law_each_call_has_its_replies(call: CallView, reply: ReplyView)
    requires
        reply matches ReplyView::Data { bytes, .. } ==> bytes.len() <= isize::MAX,
    ensures
        reply.answers(call.kind()) <==> match call {
            CallView::OpenProvider { .. } => reply is Handle || reply is Failed,
            CallView::OpenKey { .. } => reply is Handle || reply is Failed,
            CallView::CreateKey { .. } => reply is Handle || reply is Failed,
            CallView::FinalizeKey { .. } => reply is Success || reply is Failed,
            CallView::DeleteKey { .. } => reply is Success || reply is Failed,
            CallView::ExportSize { .. } => reply is Size || reply is Failed,
            CallView::SignSize { .. } => reply is Size || reply is Failed,
            CallView::Export { .. } => reply is Data || reply is Failed,
            CallView::Sign { .. } => reply is Data || reply is Failed,
            CallView::EnumKeys { .. } => reply is Named || reply is Ended,
            CallView::CheckHello => reply is Availability,
            CallView::RequestConsent { .. } => reply is Consent,
        },
{
}

/// Resources come with handles, names and enumeration states alone.
pub proof fn law_replies_bring_their_resources(reply: ReplyView)
    ensures
        reply.brings() == match reply {
            ReplyView::Handle { handle } => object(handle),
            ReplyView::Named { cursor, address, .. } => buffer(cursor) + buffer(address),
            ReplyView::Ended { cursor } => buffer(cursor),
            _ => Seq::<Resource>::empty(),
        },
{
}

/// Only the key of a deletion and the state of an enumeration pass to the system.
pub proof fn law_calls_surrender_their_resources(call: CallView)
    ensures
        call.surrenders() == match call {
            CallView::DeleteKey { key } => object(key),
            CallView::EnumKeys { cursor, .. } => buffer(cursor),
            _ => Seq::<Resource>::empty(),
        },
{
}

/// What is given back first stands first, and nothing else changes.
pub proof fn law_first_comes_first<M, T>(progress: ProgressView<M, T>, first: Seq<Resource>)
    ensures
        match (progress, progress.after(first)) {
            (
                ProgressView::Pending { release, call, machine },
                ProgressView::Pending { release: all, call: c, machine: m },
            ) => all == first + release && c == call && m == machine,
            (
                ProgressView::Done { release, output },
                ProgressView::Done { release: all, output: o },
            ) => all == first + release && o == output,
            (
                ProgressView::Failed { release, error },
                ProgressView::Failed { release: all, error: e },
            ) => all == first + release && e == error,
            _ => false,
        },
{
}

/// The contents of a call are its fields.
pub proof fn law_call_shows_its_fields(call: Call)
    ensures
        match (call, call.deep_view()) {
            (
                Call::OpenProvider { wide_name },
                CallView::OpenProvider { wide_name: w },
            ) => w == wide_name@,
            (
                Call::OpenKey { provider, name },
                CallView::OpenKey { provider: p, name: n },
            ) => p == provider && n == name@,
            (
                Call::CreateKey { provider, algorithm, name },
                CallView::CreateKey { provider: p, algorithm: a, name: n },
            ) => p == provider && a == algorithm@ && n == name@,
            (Call::FinalizeKey { key }, CallView::FinalizeKey { key: k }) => k == key,
            (
                Call::ExportSize { key, blob_type },
                CallView::ExportSize { key: k, blob_type: b },
            ) => k == key && b == blob_type@,
            (
                Call::Export { key, blob_type, capacity },
                CallView::Export { key: k, blob_type: b, capacity: c },
            ) => k == key && b == blob_type@ && c == capacity,
            (
                Call::SignSize { key, hash },
                CallView::SignSize { key: k, hash: h },
            ) => k == key && h == hash@,
            (
                Call::Sign { key, hash, capacity },
                CallView::Sign { key: k, hash: h, capacity: c },
            ) => k == key && h == hash@ && c == capacity,
            (
                Call::EnumKeys { provider, cursor },
                CallView::EnumKeys { provider: p, cursor: c },
            ) => p == provider && c == cursor,
            (Call::DeleteKey { key }, CallView::DeleteKey { key: k }) => k == key,
            (Call::CheckHello, CallView::CheckHello) => true,
            (
                Call::RequestConsent { reason },
                CallView::RequestConsent { reason: r },
            ) => r == reason@,
            _ => false,
        },
{
}

/// The contents of a reply are its fields.
pub proof fn law_reply_shows_its_fields(reply: Reply)
    ensures
        match (reply, reply.deep_view()) {
            (Reply::Handle { handle }, ReplyView::Handle { handle: h }) => h == handle,
            (Reply::Success, ReplyView::Success) => true,
            (Reply::Size { size }, ReplyView::Size { size: n }) => n == size,
            (
                Reply::Data { bytes, written },
                ReplyView::Data { bytes: b, written: w },
            ) => b == bytes@ && w == written,
            (
                Reply::Named { cursor, address, name },
                ReplyView::Named { cursor: c, address: a, name: n },
            ) => {
                &&& c == cursor
                &&& a == address
                &&& match (name, n) {
                    (Some(name), Some(n)) => n == name@,
                    (None, None) => true,
                    _ => false,
                }
            },
            (Reply::Ended { cursor }, ReplyView::Ended { cursor: c }) => c == cursor,
            (
                Reply::Availability { availability },
                ReplyView::Availability { availability: a },
            ) => a == availability,
            (
                Reply::Consent { consent },
                ReplyView::Consent { consent: c },
            ) => c == consent.deep_view(),
            (Reply::Failed { message }, ReplyView::Failed { message: m }) => m == message@,
            _ => false,
        },
{
}

/// The contents of a progress are its fields.
pub proof fn law_progress_shows_its_fields<M: DeepView, T: DeepView>(progress: Progress<M, T>)
    ensures
        match (progress, progress.deep_view()) {
            (
                Progress::Pending { release, call, .. },
                ProgressView::Pending { release: r, call: c, .. },
            ) => r == release@ && c == call.deep_view(),
            (
                Progress::Done { release, output },
                ProgressView::Done { release: r, output: o },
            ) => r == release@ && o == output.deep_view(),
            (
                Progress::Failed { release, error },
                ProgressView::Failed { release: r, error: e },
            ) => r == release@ && e == error.deep_view(),
            _ => false,
        },
{
}

} // verus!
