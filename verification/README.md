# EnclaveKit

A Solana smart wallet controlled by an iPhone Secure Enclave P-256 key,
written in Verus.

The user signs an action with the enclave key. The program checks the
signature through the `secp256r1` precompile and executes the action from the
wallet's vault. A relayer pays the transaction fee and is refunded from the
vault, never more than the enclave signed. Guardians can rotate the key after
a timelock.

## Layout

- `src/` — the verified library.
  - `action.rs`, `preimage.rs`, `wallet.rs`, `constants.rs`: the bytes the
    enclave signs, shared with the client SDK: the action encoding and its
    decoder (round trip and injectivity proved), the preimage layout (every
    field bound), and the wallet identity.
  - `precompile.rs`: the checks on the precompile instruction that precedes
    each signed instruction.
  - `authorization.rs`: first use, nonce, expiry and preimage checks; replay
    protection is proved.
  - `instructions.rs`: `transfer_sol`, `set_guardians`, `propose_rotation`,
    `cancel_rotation` and `confirm_rotation` as functions from the wallet
    state to the new state and the vault's payments, each with an exact
    contract, and the laws that relate them (timelock window, the invariant
    every instruction keeps, only the active key pays, ...).
- `app/` — the Anchor program: accounts, the instructions sysvar, the clock
  and the system-program transfers around the library.
- `tests/` — the library's tests, including the instruction scenarios run on
  a small model of the wallet's accounts.
