//! The names that the backend gives and reports.
use vstd::prelude::*;

use crate::protocol::{Call, CallView};
use crate::text;

verus! {

/// The prefix of every key that this library manages.
pub const KEY_NAME_PREFIX: &'static str = "hwkey-";

/// The prefix of the keys that Windows Hello guards.
pub const KEY_NAME_PREFIX_BIO: &'static str = "hwkey-bio-";

/// The CNG provider name for TPM-backed keys.
pub const PLATFORM_PROVIDER: &'static str = "Microsoft Platform Crypto Provider";

/// The name of this backend.
pub const BACKEND: &'static str = "windows-tpm";

/// The one algorithm that this backend offers.
pub const ALGORITHM: &'static str = "ES256";

/// What CNG calls that algorithm.
pub const CNG_ALGORITHM: &'static str = "ECDSA_P256";

/// The format in which CNG exports public keys.
pub const BLOB_TYPE: &'static str = "ECCPUBLICBLOB";

/// The name under which CNG stores the key with a label.
pub open spec fn key_name(label: Seq<char>, require_biometric: bool) -> Seq<char> {
    if require_biometric {
        KEY_NAME_PREFIX_BIO@ + label
    } else {
        KEY_NAME_PREFIX@ + label
    }
}

/// Whether signing with a key asks for consent first.
pub open spec fn needs_consent(key_id: Seq<char>) -> bool {
    KEY_NAME_PREFIX_BIO@.is_prefix_of(key_id)
}

/// Whether this library manages a key.
pub open spec fn is_managed(key_id: Seq<char>) -> bool {
    KEY_NAME_PREFIX@.is_prefix_of(key_id)
}

/// The call that opens the provider of TPM-backed keys.
pub open spec fn opens_provider() -> CallView {
    CallView::OpenProvider { wide_name: text::wide(PLATFORM_PROVIDER@) }
}

/// The name under which CNG stores the key with a label.
pub fn make_key_name(label: &str, require_biometric: bool) -> (name: String)
    ensures
        name@ == key_name(label@, require_biometric),
{
    if require_biometric {
        KEY_NAME_PREFIX_BIO.to_owned().concat(label)
    } else {
        KEY_NAME_PREFIX.to_owned().concat(label)
    }
}

/// The call that opens the provider of TPM-backed keys.
pub fn open_provider() -> (call: Call)
    ensures
        call.deep_view() == opens_provider(),
{
    proof {
        reveal_strlit("Microsoft Platform Crypto Provider");
    }
    Call::OpenProvider { wide_name: text::to_wide(PLATFORM_PROVIDER) }
}

proof fn lemma_prefixes()
    ensures
        KEY_NAME_PREFIX_BIO@ == KEY_NAME_PREFIX@ + "bio-"@,
{
    reveal_strlit("hwkey-");
    reveal_strlit("hwkey-bio-");
    reveal_strlit("bio-");
    assert(KEY_NAME_PREFIX_BIO@ =~= KEY_NAME_PREFIX@ + "bio-"@);
}

proof fn lemma_cancel_prefix(prefix: Seq<char>, a: Seq<char>, b: Seq<char>)
    ensures
        prefix + a == prefix + b <==> a == b,
        (prefix + a).is_prefix_of(prefix + b) <==> a.is_prefix_of(b),
{
    assert((prefix + a).skip(prefix.len() as int) =~= a);
    assert((prefix + b).skip(prefix.len() as int) =~= b);
    if (prefix + a).is_prefix_of(prefix + b) {
        assert forall|i: int| 0 <= i < a.len() implies a[i] == b[i] by {
            assert((prefix + a)[prefix.len() + i] == (prefix + b).take(
                (prefix + a).len() as int,
            )[prefix.len() + i]);
        }
        assert(a =~= b.take(a.len() as int));
    }
    if a.is_prefix_of(b) {
        assert(prefix + a =~= (prefix + b).take((prefix + a).len() as int));
    }
}

/// Every generated key is one that the library manages, so it is listed.
pub proof fn law_key_names_are_managed(label: Seq<char>, require_biometric: bool)
    ensures
        is_managed(key_name(label, require_biometric)),
{
    lemma_prefixes();
    let name = key_name(label, require_biometric);
    assert(KEY_NAME_PREFIX@ =~= name.take(KEY_NAME_PREFIX@.len() as int));
}

/// Signing with a key that was generated as biometric asks for consent.
pub proof fn law_biometric_keys_need_consent(label: Seq<char>)
    ensures
        needs_consent(key_name(label, true)),
{
    assert(KEY_NAME_PREFIX_BIO@ =~= key_name(label, true).take(KEY_NAME_PREFIX_BIO@.len() as int));
}

/// Signing with a key that was not generated as biometric asks for no consent, unless its
/// label starts with `bio-`, which makes the name look like that of a biometric key.
pub proof fn law_plain_keys_need_no_consent(label: Seq<char>)
    ensures
        needs_consent(key_name(label, false)) <==> "bio-"@.is_prefix_of(label),
{
    lemma_prefixes();
    lemma_cancel_prefix(KEY_NAME_PREFIX@, "bio-"@, label);
}

/// Keys of the same sort with different labels have different names, and a plain key
/// shares its name with a biometric one only where its label is the other's behind `bio-`.
pub proof fn law_key_names_are_distinct(a: Seq<char>, b: Seq<char>, require_biometric: bool)
    ensures
        key_name(a, require_biometric) == key_name(b, require_biometric) <==> a == b,
        key_name(a, false) == key_name(b, true) <==> a == "bio-"@ + b,
{
    lemma_prefixes();
    lemma_cancel_prefix(KEY_NAME_PREFIX@, a, b);
    lemma_cancel_prefix(KEY_NAME_PREFIX_BIO@, a, b);
    lemma_cancel_prefix(KEY_NAME_PREFIX@, a, "bio-"@ + b);
    assert(key_name(b, true) =~= KEY_NAME_PREFIX@ + ("bio-"@ + b));
}

/// The names and identifiers that callers, CNG and JSON web keys go by.
pub proof fn law_identifiers_are_fixed()
    ensures
        KEY_NAME_PREFIX@ == "hwkey-"@,
        KEY_NAME_PREFIX_BIO@ == "hwkey-bio-"@,
        PLATFORM_PROVIDER@ == "Microsoft Platform Crypto Provider"@,
        BACKEND@ == "windows-tpm"@,
        ALGORITHM@ == "ES256"@,
        CNG_ALGORITHM@ == "ECDSA_P256"@,
        BLOB_TYPE@ == "ECCPUBLICBLOB"@,
{
}

/// A key is stored as `hwkey-<label>`, or as `hwkey-bio-<label>` where it is biometric.
pub proof fn law_key_name_is_the_label_behind_its_prefix(label: Seq<char>)
    ensures
        key_name(label, false) == "hwkey-"@ + label,
        key_name(label, true) == "hwkey-bio-"@ + label,
{
}

/// A key is managed exactly if its name begins with the six characters `hwkey-`.
pub proof fn law_managed_names_begin_with_hwkey(name: Seq<char>)
    ensures
        is_managed(name) <==> {
            &&& name.len() >= 6
            &&& name[0] == 'h'
            &&& name[1] == 'w'
            &&& name[2] == 'k'
            &&& name[3] == 'e'
            &&& name[4] == 'y'
            &&& name[5] == '-'
        },
{
    reveal_strlit("hwkey-");
    let prefix = "hwkey-"@;
    if name.len() >= 6 {
        let start = name.take(6);
        assert(start[0] == name[0] && start[1] == name[1] && start[2] == name[2] && start[3]
            == name[3] && start[4] == name[4] && start[5] == name[5]);
        if prefix == start {
            assert(prefix[0] == 'h' && prefix[1] == 'w' && prefix[2] == 'k' && prefix[3] == 'e'
                && prefix[4] == 'y' && prefix[5] == '-');
        }
        if name[0] == 'h' && name[1] == 'w' && name[2] == 'k' && name[3] == 'e' && name[4] == 'y'
            && name[5] == '-' {
            assert(prefix =~= start);
        }
    }
}

/// Signing asks for consent exactly if the name begins with the ten characters `hwkey-bio-`.
pub proof fn law_guarded_names_begin_with_hwkey_bio(name: Seq<char>)
    ensures
        needs_consent(name) <==> {
            &&& name.len() >= 10
            &&& name[0] == 'h'
            &&& name[1] == 'w'
            &&& name[2] == 'k'
            &&& name[3] == 'e'
            &&& name[4] == 'y'
            &&& name[5] == '-'
            &&& name[6] == 'b'
            &&& name[7] == 'i'
            &&& name[8] == 'o'
            &&& name[9] == '-'
        },
{
    reveal_strlit("hwkey-bio-");
    let prefix = "hwkey-bio-"@;
    if name.len() >= 10 {
        let start = name.take(10);
        assert(start[0] == name[0] && start[1] == name[1] && start[2] == name[2] && start[3]
            == name[3] && start[4] == name[4] && start[5] == name[5] && start[6] == name[6]
            && start[7] == name[7] && start[8] == name[8] && start[9] == name[9]);
        if name[0] == 'h' && name[1] == 'w' && name[2] == 'k' && name[3] == 'e' && name[4] == 'y'
            && name[5] == '-' && name[6] == 'b' && name[7] == 'i' && name[8] == 'o' && name[9]
            == '-' {
            assert(prefix =~= start);
        }
    }
}

/// The provider that is opened is the one of TPM-backed keys: its name in wide characters,
/// with a zero at the end.
pub proof fn law_provider_is_that_of_the_platform()
    ensures
        match opens_provider() {
            CallView::OpenProvider { wide_name } => {
                let name = "Microsoft Platform Crypto Provider"@;
                &&& wide_name.len() == name.len() + 1
                &&& forall|i: int|
                    0 <= i < name.len() ==> #[trigger] wide_name[i] == name[i] as u16
                &&& wide_name[name.len() as int] == 0
            },
            _ => false,
        },
{
    text::law_wide_text_ends_with_zero("Microsoft Platform Crypto Provider"@);
}

} // verus!
