//! The actions an enclave key can authorise, and their byte encoding.
//!
//! The encoding is the one the client SDK produces: one variant index byte,
//! then the fields in declaration order, byte arrays as they are and `u64`
//! values in little-endian order. A guardian slot is its own variant index
//! followed by its key, if it has one.

use vstd::prelude::*;
use vstd::bytes::{
    lemma_auto_spec_u64_to_from_le_bytes, spec_u64_from_le_bytes, spec_u64_to_le_bytes,
    u64_from_le_bytes, u64_to_le_bytes,
};
use vstd::slice::slice_subrange;

use crate::bytes::{push_bytes, read_array32, read_array33};
use crate::constants::{COMPRESSED_PUBKEY_LEN, MAX_GUARDIANS};

verus! {

/// One guardian slot as the enclave signs it.
#[derive(Clone, Copy, PartialEq, Eq, Debug)]
pub enum Guardian {
    Empty,
    P256([u8; COMPRESSED_PUBKEY_LEN]),
    WebAuthn([u8; COMPRESSED_PUBKEY_LEN]),
}

/// What a signed authorization asks the wallet to do.
#[derive(Clone, Copy, PartialEq, Eq, Debug)]
pub enum Action {
    TransferSol { to: [u8; 32], lamports: u64 },
    TransferToken { mint: [u8; 32], to: [u8; 32], amount: u64 },
    ProposeRotation { new_key: [u8; 33] },
    CancelRotation,
    SetGuardians { guardians: [Guardian; MAX_GUARDIANS] },
    CloseWallet { rent_to: [u8; 32] },
}

/// The bytes of one guardian slot: its variant index, then its key if any.
pub open spec fn guardian_encoding(g: Guardian) -> Seq<u8> {
    match g {
        Guardian::Empty => seq![0u8],
        Guardian::P256(key) => seq![1u8] + key@,
        Guardian::WebAuthn(key) => seq![2u8] + key@,
    }
}

/// The bytes of an action: its variant index, then its fields in order.
pub open spec fn action_encoding(a: Action) -> Seq<u8> {
    match a {
        Action::TransferSol { to, lamports } => seq![0u8] + to@ + spec_u64_to_le_bytes(lamports),
        Action::TransferToken { mint, to, amount } => seq![1u8] + mint@ + to@
            + spec_u64_to_le_bytes(amount),
        Action::ProposeRotation { new_key } => seq![2u8] + new_key@,
        Action::CancelRotation => seq![3u8],
        Action::SetGuardians { guardians } => seq![4u8] + guardian_encoding(guardians[0])
            + guardian_encoding(guardians[1]) + guardian_encoding(guardians[2]),
        Action::CloseWallet { rent_to } => seq![5u8] + rent_to@,
    }
}

/// The action whose encoding is exactly `bytes`, if there is one.
pub open spec fn action_decoding(bytes: Seq<u8>) -> Option<Action> {
    if exists|a: Action| action_encoding(a) == bytes {
        Some(choose|a: Action| action_encoding(a) == bytes)
    } else {
        None
    }
}

/// Whether `bytes` holds the encoding of `g` starting at `pos`.
pub open spec fn guardian_at(bytes: Seq<u8>, pos: int, g: Guardian) -> bool {
    &&& 0 <= pos
    &&& pos + guardian_encoding(g).len() <= bytes.len()
    &&& bytes.subrange(pos, pos + guardian_encoding(g).len()) == guardian_encoding(g)
}

proof fn lemma_key_from_view(a: [u8; 33], b: [u8; 33])
    requires
        a@ == b@,
    ensures
        a == b,
{
    assert(a =~= b);
}

proof fn lemma_id_from_view(a: [u8; 32], b: [u8; 32])
    requires
        a@ == b@,
    ensures
        a == b,
{
    assert(a =~= b);
}

/// A guardian's encoding starts with its variant index and has a fixed
/// length for that variant.
proof fn lemma_guardian_encoding_shape(g: Guardian)
    ensures
        guardian_encoding(g).len() >= 1,
        guardian_encoding(g)[0] <= 2,
        guardian_encoding(g)[0] == 0 <==> g is Empty,
        guardian_encoding(g)[0] == 1 <==> g is P256,
        guardian_encoding(g)[0] == 2 <==> g is WebAuthn,
        g is Empty ==> guardian_encoding(g).len() == 1,
        !(g is Empty) ==> guardian_encoding(g).len() == 34,
{
}

/// No guardian encoding is a proper prefix of another, and equal encodings
/// come from equal guardians: two guardians found at the same position are
/// the same guardian.
proof fn lemma_guardian_at_unique(bytes: Seq<u8>, pos: int, g1: Guardian, g2: Guardian)
    requires
        guardian_at(bytes, pos, g1),
        guardian_at(bytes, pos, g2),
    ensures
        g1 == g2,
{
    lemma_guardian_encoding_shape(g1);
    lemma_guardian_encoding_shape(g2);
    let e1 = guardian_encoding(g1);
    let e2 = guardian_encoding(g2);
    assert(e1[0] == bytes[pos]);
    assert(e2[0] == bytes[pos]);
    assert(e1.len() == e2.len());
    assert(e1 == e2);
    match g1 {
        Guardian::Empty => {},
        Guardian::P256(k1) => {
            if let Guardian::P256(k2) = g2 {
                assert(k1@ =~= e1.subrange(1, 34));
                assert(k2@ =~= e2.subrange(1, 34));
                lemma_key_from_view(k1, k2);
            }
        },
        Guardian::WebAuthn(k1) => {
            if let Guardian::WebAuthn(k2) = g2 {
                assert(k1@ =~= e1.subrange(1, 34));
                assert(k2@ =~= e2.subrange(1, 34));
                lemma_key_from_view(k1, k2);
            }
        },
    }
}

/// The fixed facts about an action's encoding: its first byte is the
/// variant index, and each variant has the length of its fields.
proof fn lemma_action_encoding_shape(a: Action)
    ensures
        action_encoding(a).len() >= 1,
        a is TransferSol <==> action_encoding(a)[0] == 0,
        a is TransferToken <==> action_encoding(a)[0] == 1,
        a is ProposeRotation <==> action_encoding(a)[0] == 2,
        a is CancelRotation <==> action_encoding(a)[0] == 3,
        a is SetGuardians <==> action_encoding(a)[0] == 4,
        a is CloseWallet <==> action_encoding(a)[0] == 5,
        a is TransferSol ==> action_encoding(a).len() == 41,
        a is TransferToken ==> action_encoding(a).len() == 73,
        a is ProposeRotation ==> action_encoding(a).len() == 34,
        a is CancelRotation ==> action_encoding(a).len() == 1,
        a is CloseWallet ==> action_encoding(a).len() == 33,
{
    lemma_auto_spec_u64_to_from_le_bytes();
    match a {
        Action::TransferSol { to, lamports } => {
            assert(spec_u64_to_le_bytes(lamports).len() == 8);
        },
        Action::TransferToken { mint, to, amount } => {
            assert(spec_u64_to_le_bytes(amount).len() == 8);
        },
        Action::SetGuardians { guardians } => {
            lemma_guardian_encoding_shape(guardians[0]);
        },
        _ => {},
    }
}

/// The guardians of a `SetGuardians` encoding can be found one after the
/// other at the positions their lengths give.
proof fn lemma_set_guardians_layout(guardians: [Guardian; MAX_GUARDIANS])
    ensures
        ({
            let bytes = action_encoding(Action::SetGuardians { guardians });
            let p1: int = 1 + guardian_encoding(guardians[0]).len() as int;
            let p2: int = p1 + guardian_encoding(guardians[1]).len();
            let p3: int = p2 + guardian_encoding(guardians[2]).len();
            &&& guardian_at(bytes, 1, guardians[0])
            &&& guardian_at(bytes, p1, guardians[1])
            &&& guardian_at(bytes, p2, guardians[2])
            &&& p3 == bytes.len()
        }),
{
    let e0 = guardian_encoding(guardians[0]);
    let e1 = guardian_encoding(guardians[1]);
    let e2 = guardian_encoding(guardians[2]);
    let bytes = action_encoding(Action::SetGuardians { guardians });
    assert(bytes == seq![4u8] + e0 + e1 + e2);
    let p1: int = 1 + e0.len() as int;
    let p2: int = p1 + e1.len();
    assert(bytes.subrange(1, p1) =~= e0);
    assert(bytes.subrange(p1, p2) =~= e1);
    assert(bytes.subrange(p2, p2 + e2.len()) =~= e2);
}

/// Law: distinct actions have distinct encodings.
pub proof fn lemma_action_encoding_injective(a: Action, b: Action)
    requires
        action_encoding(a) == action_encoding(b),
    ensures
        a == b,
{
    lemma_auto_spec_u64_to_from_le_bytes();
    lemma_action_encoding_shape(a);
    lemma_action_encoding_shape(b);
    let e = action_encoding(a);
    match a {
        Action::TransferSol { to: to1, lamports: l1 } => {
            if let Action::TransferSol { to: to2, lamports: l2 } = b {
                assert(to1@ =~= e.subrange(1, 33));
                assert(to2@ =~= e.subrange(1, 33));
                assert(spec_u64_to_le_bytes(l1) =~= e.subrange(33, 41));
                assert(spec_u64_to_le_bytes(l2) =~= e.subrange(33, 41));
                lemma_id_from_view(to1, to2);
                assert(spec_u64_from_le_bytes(spec_u64_to_le_bytes(l1)) == l1);
                assert(spec_u64_from_le_bytes(spec_u64_to_le_bytes(l2)) == l2);
            }
        },
        Action::TransferToken { mint: m1, to: to1, amount: x1 } => {
            if let Action::TransferToken { mint: m2, to: to2, amount: x2 } = b {
                assert(m1@ =~= e.subrange(1, 33));
                assert(m2@ =~= e.subrange(1, 33));
                assert(to1@ =~= e.subrange(33, 65));
                assert(to2@ =~= e.subrange(33, 65));
                assert(spec_u64_to_le_bytes(x1) =~= e.subrange(65, 73));
                assert(spec_u64_to_le_bytes(x2) =~= e.subrange(65, 73));
                lemma_id_from_view(m1, m2);
                lemma_id_from_view(to1, to2);
                assert(spec_u64_from_le_bytes(spec_u64_to_le_bytes(x1)) == x1);
                assert(spec_u64_from_le_bytes(spec_u64_to_le_bytes(x2)) == x2);
            }
        },
        Action::ProposeRotation { new_key: k1 } => {
            if let Action::ProposeRotation { new_key: k2 } = b {
                assert(k1@ =~= e.subrange(1, 34));
                assert(k2@ =~= e.subrange(1, 34));
                lemma_key_from_view(k1, k2);
            }
        },
        Action::CancelRotation => {},
        Action::SetGuardians { guardians: g1 } => {
            if let Action::SetGuardians { guardians: g2 } = b {
                lemma_set_guardians_layout(g1);
                lemma_set_guardians_layout(g2);
                lemma_guardian_at_unique(e, 1, g1[0], g2[0]);
                let p1: int = 1 + guardian_encoding(g1[0]).len() as int;
                lemma_guardian_at_unique(e, p1, g1[1], g2[1]);
                let p2: int = p1 + guardian_encoding(g1[1]).len();
                lemma_guardian_at_unique(e, p2, g1[2], g2[2]);
                assert(g1 =~= g2);
            }
        },
        Action::CloseWallet { rent_to: r1 } => {
            if let Action::CloseWallet { rent_to: r2 } = b {
                assert(r1@ =~= e.subrange(1, 33));
                assert(r2@ =~= e.subrange(1, 33));
                lemma_id_from_view(r1, r2);
            }
        },
    }
}

/// Law: decoding the encoding of an action gives that action back.
pub proof fn lemma_action_round_trip(a: Action)
    ensures
        action_decoding(action_encoding(a)) == Some(a),
{
    let bytes = action_encoding(a);
    assert(exists|x: Action| action_encoding(x) == bytes);
    let c = choose|x: Action| action_encoding(x) == bytes;
    lemma_action_encoding_injective(c, a);
}

/// Law: whatever decodes re-encodes to the very same bytes, so a byte
/// string has at most one reading as an action.
pub proof fn lemma_action_decoding_canonical(bytes: Seq<u8>)
    ensures
        action_decoding(bytes) matches Some(a) ==> action_encoding(a) == bytes,
{
}

impl Guardian {
    /// Appends the encoding of this guardian slot to `out`.
    pub fn serialize(&self, out: &mut Vec<u8>)
        ensures
            final(out)@ == old(out)@ + guardian_encoding(*self),
    {
        match self {
            Guardian::Empty => {
                out.push(0u8);
            },
            Guardian::P256(key) => {
                out.push(1u8);
                push_bytes(out, key.as_slice());
            },
            Guardian::WebAuthn(key) => {
                out.push(2u8);
                push_bytes(out, key.as_slice());
            },
        }
    }

    /// Reads the guardian slot whose encoding starts at `pos` in `bytes`.
    /// Returns it with the position right after it, or `None` when no
    /// guardian's encoding starts there.
    pub fn read_at(bytes: &[u8], pos: usize) -> (r: Option<(Guardian, usize)>)
        ensures
            r matches Some((g, next)) ==> guardian_at(bytes@, pos as int, g) && next == pos
                + guardian_encoding(g).len(),
            r is None ==> forall|g: Guardian| !guardian_at(bytes@, pos as int, g),
    {
        if pos >= bytes.len() {
            proof {
                assert forall|g: Guardian| !guardian_at(bytes@, pos as int, g) by {
                    lemma_guardian_encoding_shape(g);
                }
            }
            return None;
        }
        let tag = bytes[pos];
        if tag == 0 {
            assert(bytes@.subrange(pos as int, pos + 1) =~= guardian_encoding(Guardian::Empty));
            return Some((Guardian::Empty, pos + 1));
        }
        if tag > 2 || bytes.len() - pos < 34 {
            proof {
                assert forall|g: Guardian| !guardian_at(bytes@, pos as int, g) by {
                    lemma_guardian_encoding_shape(g);
                    if guardian_at(bytes@, pos as int, g) {
                        assert(bytes@[pos as int] == bytes@.subrange(
                            pos as int,
                            pos + guardian_encoding(g).len(),
                        )[0]);
                    }
                }
            }
            return None;
        }
        let key = read_array33(bytes, pos + 1);
        let g = if tag == 1 {
            Guardian::P256(key)
        } else {
            Guardian::WebAuthn(key)
        };
        assert(bytes@.subrange(pos as int, pos + 34) =~= guardian_encoding(g));
        Some((g, pos + 34))
    }
}

impl Action {
    /// Appends the encoding of this action to `out`.
    pub fn serialize(&self, out: &mut Vec<u8>)
        ensures
            final(out)@ == old(out)@ + action_encoding(*self),
    {
        match self {
            Action::TransferSol { to, lamports } => {
                out.push(0u8);
                push_bytes(out, to.as_slice());
                let le = u64_to_le_bytes(*lamports);
                push_bytes(out, le.as_slice());
            },
            Action::TransferToken { mint, to, amount } => {
                out.push(1u8);
                push_bytes(out, mint.as_slice());
                push_bytes(out, to.as_slice());
                let le = u64_to_le_bytes(*amount);
                push_bytes(out, le.as_slice());
            },
            Action::ProposeRotation { new_key } => {
                out.push(2u8);
                push_bytes(out, new_key.as_slice());
            },
            Action::CancelRotation => {
                out.push(3u8);
            },
            Action::SetGuardians { guardians } => {
                out.push(4u8);
                guardians[0].serialize(out);
                guardians[1].serialize(out);
                guardians[2].serialize(out);
            },
            Action::CloseWallet { rent_to } => {
                out.push(5u8);
                push_bytes(out, rent_to.as_slice());
            },
        }
        assert(out@ =~= old(out)@ + action_encoding(*self));
    }

    /// The encoding of this action in a new vector.
    pub fn to_bytes(&self) -> (r: Vec<u8>)
        ensures
            r@ == action_encoding(*self),
    {
        let mut out: Vec<u8> = Vec::new();
        self.serialize(&mut out);
        assert(out@ =~= action_encoding(*self));
        out
    }

    /// Decodes an action that takes up all of `bytes`.
    pub fn try_from_slice(bytes: &[u8]) -> (r: Option<Action>)
        ensures
            r == action_decoding(bytes@),
            r matches Some(a) ==> action_encoding(a) == bytes@,
            r is None ==> forall|a: Action| action_encoding(a) != bytes@,
    {
        let r = Self::parse(bytes);
        proof {
            if let Some(a) = r {
                lemma_action_round_trip(a);
            } else {
                assert(!exists|a: Action| action_encoding(a) == bytes@);
            }
        }
        r
    }

    fn parse(bytes: &[u8]) -> (r: Option<Action>)
        ensures
            r matches Some(a) ==> action_encoding(a) == bytes@,
            r is None ==> forall|a: Action| action_encoding(a) != bytes@,
    {
        proof {
            lemma_auto_spec_u64_to_from_le_bytes();
        }
        let len = bytes.len();
        if len == 0 {
            proof {
                assert forall|a: Action| action_encoding(a) != bytes@ by {
                    lemma_action_encoding_shape(a);
                }
            }
            return None;
        }
        let tag = bytes[0];
        if tag == 0 && len == 41 {
            let to = read_array32(bytes, 1);
            let lamports = u64_from_le_bytes(slice_subrange(bytes, 33, 41));
            let a = Action::TransferSol { to, lamports };
            assert(bytes@.subrange(33, 41).len() == 8);
            assert(action_encoding(a) =~= bytes@);
            return Some(a);
        }
        if tag == 1 && len == 73 {
            let mint = read_array32(bytes, 1);
            let to = read_array32(bytes, 33);
            let amount = u64_from_le_bytes(slice_subrange(bytes, 65, 73));
            let a = Action::TransferToken { mint, to, amount };
            assert(bytes@.subrange(65, 73).len() == 8);
            assert(action_encoding(a) =~= bytes@);
            return Some(a);
        }
        if tag == 2 && len == 34 {
            let new_key = read_array33(bytes, 1);
            let a = Action::ProposeRotation { new_key };
            assert(action_encoding(a) =~= bytes@);
            return Some(a);
        }
        if tag == 3 && len == 1 {
            let a = Action::CancelRotation;
            assert(action_encoding(a) =~= bytes@);
            return Some(a);
        }
        if tag == 5 && len == 33 {
            let rent_to = read_array32(bytes, 1);
            let a = Action::CloseWallet { rent_to };
            assert(action_encoding(a) =~= bytes@);
            return Some(a);
        }
        if tag == 4 {
            return Self::parse_set_guardians(bytes);
        }
        proof {
            assert forall|a: Action| action_encoding(a) != bytes@ by {
                lemma_action_encoding_shape(a);
            }
        }
        None
    }

    fn parse_set_guardians(bytes: &[u8]) -> (r: Option<Action>)
        requires
            bytes@.len() >= 1,
            bytes@[0] == 4,
        ensures
            r matches Some(a) ==> action_encoding(a) == bytes@,
            r is None ==> forall|a: Action| action_encoding(a) != bytes@,
    {
        let ghost no_set = forall|a: Action| action_encoding(a) != bytes@;
        proof {
            // Only a `SetGuardians` encoding starts with 4; for one of those,
            // its guardians sit at the positions their lengths give.
            assert forall|a: Action|
                action_encoding(a) == bytes@ implies a is SetGuardians by {
                lemma_action_encoding_shape(a);
            }
        }
        let r0 = Guardian::read_at(bytes, 1);
        let (g0, p1) = match r0 {
            Some(found) => found,
            None => {
                proof {
                    assert forall|a: Action| action_encoding(a) != bytes@ by {
                        lemma_action_encoding_shape(a);
                        if let Action::SetGuardians { guardians } = a {
                            lemma_set_guardians_layout(guardians);
                        }
                    }
                }
                return None;
            },
        };
        let r1 = Guardian::read_at(bytes, p1);
        let (g1, p2) = match r1 {
            Some(found) => found,
            None => {
                proof {
                    assert forall|a: Action| action_encoding(a) != bytes@ by {
                        lemma_action_encoding_shape(a);
                        if let Action::SetGuardians { guardians } = a {
                            lemma_set_guardians_layout(guardians);
                            if action_encoding(a) == bytes@ {
                                lemma_guardian_at_unique(bytes@, 1, g0, guardians[0]);
                            }
                        }
                    }
                }
                return None;
            },
        };
        let r2 = Guardian::read_at(bytes, p2);
        let (g2, p3) = match r2 {
            Some(found) => found,
            None => {
                proof {
                    assert forall|a: Action| action_encoding(a) != bytes@ by {
                        lemma_action_encoding_shape(a);
                        if let Action::SetGuardians { guardians } = a {
                            lemma_set_guardians_layout(guardians);
                            if action_encoding(a) == bytes@ {
                                lemma_guardian_at_unique(bytes@, 1, g0, guardians[0]);
                                lemma_guardian_at_unique(bytes@, p1 as int, g1, guardians[1]);
                            }
                        }
                    }
                }
                return None;
            },
        };
        if p3 != bytes.len() {
            proof {
                assert forall|a: Action| action_encoding(a) != bytes@ by {
                    lemma_action_encoding_shape(a);
                    if let Action::SetGuardians { guardians } = a {
                        lemma_set_guardians_layout(guardians);
                        if action_encoding(a) == bytes@ {
                            lemma_guardian_at_unique(bytes@, 1, g0, guardians[0]);
                            lemma_guardian_at_unique(bytes@, p1 as int, g1, guardians[1]);
                            lemma_guardian_at_unique(bytes@, p2 as int, g2, guardians[2]);
                        }
                    }
                }
            }
            return None;
        }
        let guardians = [g0, g1, g2];
        let a = Action::SetGuardians { guardians };
        assert(guardians[0] == g0 && guardians[1] == g1 && guardians[2] == g2);
        assert(bytes@ =~= seq![4u8] + bytes@.subrange(1, p1 as int) + bytes@.subrange(
            p1 as int,
            p2 as int,
        ) + bytes@.subrange(p2 as int, p3 as int));
        assert(action_encoding(a) =~= bytes@);
        Some(a)
    }
}

} // verus!
