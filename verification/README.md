# hardware_keys

Hardware key backends, verified with [Verus](https://github.com/verus-lang/verus).

The library decides; it makes no system call itself. Its root routes requests to YubiKey PIV
and, on macOS, the Secure Enclave. `windows_tpm` holds the operations of the Windows TPM
backend. Each of them is a state machine: it asks for one CNG or Windows Hello call at a time,
is handed the reply, and says which handles and buffers to give back before it goes on.

| Module | What it holds |
|--------|---------------|
| `routing` | which backend a name stands for, and what it is asked |
| `windows_tpm` | discovery, generation, signing, listing and deletion of TPM keys |
| `windows_tpm::laws*` | what holds of these operations, whatever the system replies |
| `windows_tpm::store` | the keys that CNG holds, as far as calls and replies show them |
| `protocol`, `runs` | calls, replies, resources; whole conversations |
| `hello` | what the Windows Hello check and prompt decide |
| `jwk`, `base64url` | from exported key blobs to JSON web keys |
| `types`, `text` | results, errors, text helpers |

`app/` binds the library to Node with napi and makes the system calls. `tests/` runs the
operations against systems that grant, refuse and fail.

## Guarantees

- Every handle and every buffer that the system lends is given back exactly once, on every
  path; the handle of a deleted key is left to CNG.
- With a key that was generated as biometric, signing waits until Windows Hello has verified
  the user. (Other code of the same user can still open the key through CNG.)
- Only the Microsoft Platform Crypto Provider is ever opened: there is no software fallback.
- Signing with a biometric key prompts once. With a plain key it never asks Windows Hello,
  unless the label starts with `bio-`, which makes the name that of a biometric key.
- Get-or-create changes no existing key; replacement deletes before it creates.
- A listing shows exactly the managed keys that the system reports and that can be read, in
  its order. A generated key that is reported, read, and exported with the same blob is listed
  just as generation yielded it.
- Deletion undoes the generation of a new key, and a second deletion finds nothing.
- Every backend that is discovered under its own name can be asked by that name.

One function is trusted rather than proved: `base64url::encode`, which calls the `base64`
crate.
