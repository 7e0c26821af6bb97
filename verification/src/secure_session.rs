//! The encrypted heartbeat session: an X25519 key agreement with the server,
//! an AES-256-GCM key derived from it with HKDF-SHA256, and sequence numbers
//! that serve both as nonces and as replay protection.

use crate::primitives::{
    aes256gcm_decrypt, aes256gcm_encrypt, aes256gcm_seal, duration_since_unix_epoch,
    duration_whole_secs, gcm_max_len, hkdf_sha256, hkdf_sha256_32, os_random_secret,
    system_time_now, x25519, x25519_basepoint, x25519_scalar_mult, zeroize_key,
};
use crate::wire::{
    append_bytes, be_u64, decimal, lemma_be_u64_roundtrip, lemma_u64_be_injective,
    u64_be, u64_from_be_bytes, u64_to_be_bytes, u64_to_decimal,
};
use vstd::prelude::*;
use vstd::string::StringSliceAdditionalSpecFns;

verus! {

/// Why a session operation failed.
#[derive(Debug, Clone, Copy, PartialEq, Eq, Structural)]
pub enum SessionError {
    EncryptionFailed,
    DecryptionFailed,
    ReplayDetected,
    InvalidSequence,
    KeyDerivationFailed,
}

impl SessionError {
    /// The error's display text: the name of its variant.
    pub fn describe(&self) -> (r: &'static str)
        ensures
            r@ == (match *self {
                SessionError::EncryptionFailed => "EncryptionFailed"@,
                SessionError::DecryptionFailed => "DecryptionFailed"@,
                SessionError::ReplayDetected => "ReplayDetected"@,
                SessionError::InvalidSequence => "InvalidSequence"@,
                SessionError::KeyDerivationFailed => "KeyDerivationFailed"@,
            }),
    {
        match self {
            SessionError::EncryptionFailed => "EncryptionFailed",
            SessionError::DecryptionFailed => "DecryptionFailed",
            SessionError::ReplayDetected => "ReplayDetected",
            SessionError::InvalidSequence => "InvalidSequence",
            SessionError::KeyDerivationFailed => "KeyDerivationFailed",
        }
    }
}

/// The abstract state of a session.
pub struct SessionState {
    /// The AES-256-GCM key.
    pub key: Seq<u8>,
    /// Sequence number of the last heartbeat sealed.
    pub send_sequence: u64,
    /// Highest sequence number accepted from the peer.
    pub recv_sequence: u64,
    /// This side's ephemeral X25519 public key.
    pub client_public: Seq<u8>,
}

/// An established session.
pub struct SecureSession {
    key: [u8; 32],
    send_sequence: u64,
    /// Highest sequence number accepted from the peer so far (the replay
    /// window: only larger numbers are accepted).
    pub recv_sequence: u64,
    client_public: [u8; 32],
}

impl View for SecureSession {
    type V = SessionState;

    closed spec fn view(&self) -> SessionState {
        SessionState {
            key: self.key@,
            send_sequence: self.send_sequence,
            recv_sequence: self.recv_sequence,
            client_public: self.client_public@,
        }
    }
}

/// The HKDF `info` string that binds the derived key to its use:
/// "crac-agent-heartbeat-v1" in ASCII.
pub open spec fn heartbeat_info() -> Seq<u8> {
    seq![
        99u8, 114, 97, 99, 45, 97, 103, 101, 110, 116, 45, 104, 101, 97, 114, 116, 98, 101, 97,
        116, 45, 118, 49,
    ]
}

/// The session key for a key agreement: HKDF-SHA256 with both public keys
/// (client's first) as salt and the shared secret as input key material.
pub open spec fn session_key(client_public: Seq<u8>, server_public: Seq<u8>, shared: Seq<u8>) -> Seq<u8> {
    hkdf_sha256(client_public + server_public, shared, heartbeat_info(), 32)
}

/// The outcome of a handshake with client secret `k`: refused exactly
/// when the shared secret `x25519(k, server)` is all zero, otherwise a fresh
/// session whose public key is `x25519(k, base)` and whose key is derived
/// from both public keys and that shared secret.
pub open spec fn negotiated(k: Seq<u8>, server_public: Seq<u8>, r: Result<SecureSession, SessionError>) -> bool {
    let client_public = x25519(k, x25519_basepoint());
    let shared = x25519(k, server_public);
    &&& (r is Err <==> all_zero(shared))
    &&& r matches Ok(s) ==> s@ == (SessionState {
        key: session_key(client_public, server_public, shared),
        send_sequence: 0,
        recv_sequence: 0,
        client_public,
    })
}

/// Every byte is zero (a degenerate X25519 shared secret).
pub open spec fn all_zero(b: Seq<u8>) -> bool {
    forall|i: int| 0 <= i < b.len() ==> b[i] == 0
}

/// The 96-bit nonce for a sequence number: four zero bytes, then the
/// number big-endian.
pub open spec fn nonce_of(seq: u64) -> Seq<u8> {
    seq![0u8, 0u8, 0u8, 0u8] + u64_be(seq)
}

/// The heartbeat plaintext `{"status":"<status>","seq":<seq>,"ts":<ts>}`,
/// with the status inserted as it is.
pub open spec fn heartbeat_plaintext(status: Seq<u8>, seq: u64, ts: u64) -> Seq<u8> {
    seq![123u8, 34, 115, 116, 97, 116, 117, 115, 34, 58, 34] + status + seq![
        34u8,
        44,
        34,
        115,
        101,
        113,
        34,
        58,
    ] + decimal(seq as nat) + seq![44u8, 34, 116, 115, 34, 58] + decimal(ts as nat) + seq![
        125u8,
    ]
}

/// A heartbeat packet: the sequence number (8 bytes, big-endian), then the
/// plaintext sealed under the sequence number's nonce with the same eight
/// bytes as associated data.
pub open spec fn heartbeat_packet(key: Seq<u8>, seq: u64, plaintext: Seq<u8>) -> Seq<u8> {
    u64_be(seq) + aes256gcm_seal(key, nonce_of(seq), u64_be(seq), plaintext)
}

/// A byte vector result seen as bytes.
pub open spec fn bytes_result(r: Result<Vec<u8>, SessionError>) -> Result<Seq<u8>, SessionError> {
    match r {
        Ok(v) => Ok(v@),
        Err(e) => Err(e),
    }
}

/// Sealing a heartbeat at time `ts`: the next state and the outcome.
/// The sequence number is advanced before sealing and stays advanced when
/// sealing fails; at `u64::MAX` nothing changes.
pub open spec fn heartbeat_step(st: SessionState, status: Seq<u8>, ts: u64) -> (SessionState, Result<
    Seq<u8>,
    SessionError,
>) {
    if st.send_sequence == u64::MAX {
        (st, Err(SessionError::InvalidSequence))
    } else {
        let seq = (st.send_sequence + 1) as u64;
        let next = SessionState { send_sequence: seq, ..st };
        let pt = heartbeat_plaintext(status, seq, ts);
        if pt.len() <= gcm_max_len() {
            (next, Ok(heartbeat_packet(st.key, seq, pt)))
        } else {
            (next, Err(SessionError::EncryptionFailed))
        }
    }
}

/// The state after accepting a packet numbered `seq`.
pub open spec fn accept_sequence(st: SessionState, seq: u64) -> SessionState {
    SessionState { recv_sequence: seq, ..st }
}

/// What opening `packet` does: too short for a sequence number, it is
/// refused as `InvalidSequence`; numbered at or below the window, as
/// `ReplayDetected`; otherwise its plaintext is returned and the window
/// moves to its number exactly when the rest of the packet is that
/// plaintext sealed under the number's nonce with the eight header bytes as
/// associated data, and it is refused as `DecryptionFailed` when no
/// plaintext within the cipher's bounds seals to it. Refusals change
/// nothing.
pub open spec fn decrypt_outcome(
    old: SessionState,
    new: SessionState,
    packet: Seq<u8>,
    r: Result<Seq<u8>, SessionError>,
) -> bool {
    if packet.len() < 8 {
        new == old && r == Err::<Seq<u8>, SessionError>(SessionError::InvalidSequence)
    } else if be_u64(packet) <= old.recv_sequence {
        new == old && r == Err::<Seq<u8>, SessionError>(SessionError::ReplayDetected)
    } else {
        let seq = be_u64(packet);
        let aad = packet.take(8);
        let ct = packet.skip(8);
        &&& match r {
            Ok(m) => new == accept_sequence(old, seq) && ct == aes256gcm_seal(
                old.key,
                nonce_of(seq),
                aad,
                m,
            ),
            Err(e) => e == SessionError::DecryptionFailed && new == old,
        }
        &&& forall|m: Seq<u8>|
            m.len() <= gcm_max_len() && ct == #[trigger] aes256gcm_seal(old.key, nonce_of(seq), aad, m)
                ==> r == Ok::<Seq<u8>, SessionError>(m)
    }
}

/// Seconds since the Unix epoch by the system clock, 0 if the clock is set
/// before the epoch.
fn unix_timestamp_secs() -> u64 {
    let now = system_time_now();
    match duration_since_unix_epoch(&now) {
        Ok(d) => duration_whole_secs(&d),
        Err(_) => 0,
    }
}

/// The bytes of the heartbeat plaintext.
fn heartbeat_plaintext_bytes(status: &str, seq: u64, ts: u64) -> (r: Vec<u8>)
    ensures
        r@ == heartbeat_plaintext(status.spec_bytes(), seq, ts),
{
    let open_status: [u8; 11] = [123, 34, 115, 116, 97, 116, 117, 115, 34, 58, 34];
    let open_seq: [u8; 8] = [34, 44, 34, 115, 101, 113, 34, 58];
    let open_ts: [u8; 6] = [44, 34, 116, 115, 34, 58];
    let close: [u8; 1] = [125];
    let mut out: Vec<u8> = Vec::new();
    append_bytes(&mut out, &open_status);
    append_bytes(&mut out, status.as_bytes());
    append_bytes(&mut out, &open_seq);
    let seq_digits = u64_to_decimal(seq);
    append_bytes(&mut out, seq_digits.as_slice());
    append_bytes(&mut out, &open_ts);
    let ts_digits = u64_to_decimal(ts);
    append_bytes(&mut out, ts_digits.as_slice());
    append_bytes(&mut out, &close);
    assert(open_status@ =~= seq![123u8, 34, 115, 116, 97, 116, 117, 115, 34, 58, 34]);
    assert(open_seq@ =~= seq![34u8, 44, 34, 115, 101, 113, 34, 58]);
    assert(open_ts@ =~= seq![44u8, 34, 116, 115, 34, 58]);
    assert(close@ =~= seq![125u8]);
    assert(out@ =~= heartbeat_plaintext(status.spec_bytes(), seq, ts));
    out
}

impl SecureSession {
    /// Performs the X25519 handshake against the server's public key and
    /// derives the session key: a fresh random secret `k`, its public key
    /// `x25519(k, base)`, and the shared secret `x25519(k, server)`, from
    /// which `from_key_agreement` builds the session; the secret is wiped
    /// afterwards. Fails exactly when the shared secret is all zero, as it
    /// is for an all-zero server key. A server holding the secret behind
    /// its public key derives the same session key from the client's
    /// public key.
    pub fn negotiate(server_public_key: &[u8; 32]) -> (r: Result<SecureSession, SessionError>)
        ensures
            r matches Err(e) ==> e == SessionError::KeyDerivationFailed,
            exists|k: Seq<u8>|
                #![trigger x25519(k, server_public_key@)]
                k.len() == 32 && negotiated(k, server_public_key@, r),
            all_zero(server_public_key@) ==> r is Err,
            r matches Ok(s) ==> forall|b: Seq<u8>|
                #![trigger x25519(b, x25519_basepoint())]
                (b.len() == 32 && server_public_key@ == x25519(b, x25519_basepoint())) ==> s@.key
                    == session_key(s@.client_public, server_public_key@, x25519(b, s@.client_public)),
    {
        let mut secret = os_random_secret();
        let ghost k = secret@;
        let base: [u8; 32] = [
            9, 0, 0, 0, 0, 0, 0, 0, 0, 0, 0, 0, 0, 0, 0, 0, 0, 0, 0, 0, 0, 0, 0, 0, 0, 0, 0, 0, 0, 0,
            0, 0,
        ];
        assert(base@ =~= x25519_basepoint());
        let client_public = x25519_scalar_mult(&secret, &base);
        let mut shared = x25519_scalar_mult(&secret, server_public_key);
        zeroize_key(&mut secret);
        let r = Self::from_key_agreement(client_public, server_public_key, shared);
        zeroize_key(&mut shared);
        assert(negotiated(k, server_public_key@, r));
        r
    }

    /// Builds the session from the outcome of a key agreement: refuses an
    /// all-zero shared secret (a small-subgroup or degenerate peer key),
    /// otherwise derives the key with HKDF-SHA256 over both public keys and
    /// starts both sequence numbers at zero. Its copy of the shared secret
    /// is wiped once the key is derived.
    pub fn from_key_agreement(
        client_public: [u8; 32],
        server_public_key: &[u8; 32],
        mut shared: [u8; 32],
    ) -> (r: Result<SecureSession, SessionError>)
        ensures
            all_zero(shared@) ==> r == Err::<SecureSession, SessionError>(
                SessionError::KeyDerivationFailed,
            ),
            !all_zero(shared@) ==> r is Ok && r->Ok_0@ == (SessionState {
                key: session_key(client_public@, server_public_key@, shared@),
                send_sequence: 0,
                recv_sequence: 0,
                client_public: client_public@,
            }),
    {
        let mut i: usize = 0;
        let mut zero = true;
        while i < 32
            invariant
                i <= 32,
                zero == (forall|j: int| 0 <= j < i ==> shared@[j] == 0),
            decreases 32 - i,
        {
            if shared[i] != 0 {
                zero = false;
            }
            i = i + 1;
        }
        if zero {
            return Err(SessionError::KeyDerivationFailed);
        }
        let mut salt: Vec<u8> = Vec::new();
        append_bytes(&mut salt, &client_public);
        append_bytes(&mut salt, server_public_key);
        let info: [u8; 23] = [
            99, 114, 97, 99, 45, 97, 103, 101, 110, 116, 45, 104, 101, 97, 114, 116, 98, 101, 97,
            116, 45, 118, 49,
        ];
        assert(info@ =~= heartbeat_info());
        let derived = hkdf_sha256_32(salt.as_slice(), &shared, &info);
        zeroize_key(&mut shared);
        let mut okm = match derived {
            Some(k) => k,
            None => return Err(SessionError::KeyDerivationFailed),
        };
        let key = okm;
        zeroize_key(&mut okm);
        Ok(SecureSession { key, send_sequence: 0, recv_sequence: 0, client_public })
    }

    /// The client's public key, sent to the server during the handshake.
    pub fn client_public_key(&self) -> (r: [u8; 32])
        ensures
            r@ == self@.client_public,
    {
        self.client_public
    }

    /// The nonce for a sequence number: four zero bytes, then the number
    /// big-endian.
    pub fn seq_to_nonce(seq: u64) -> (r: [u8; 12])
        ensures
            r@ == nonce_of(seq),
    {
        let b = u64_to_be_bytes(seq);
        let r: [u8; 12] = [0, 0, 0, 0, b[0], b[1], b[2], b[3], b[4], b[5], b[6], b[7]];
        assert(r@ =~= nonce_of(seq));
        r
    }

    /// Seals a heartbeat carrying `status`, stamped with the current time.
    pub fn encrypt_heartbeat(&mut self, status: &str) -> (r: Result<Vec<u8>, SessionError>)
        ensures
            exists|ts: u64|
                {
                    &&& (final(self)@, bytes_result(r)) == #[trigger] heartbeat_step(
                        old(self)@,
                        status.spec_bytes(),
                        ts,
                    )
                    &&& r matches Ok(p) ==> p@.len() == 8 + heartbeat_plaintext(
                        status.spec_bytes(),
                        final(self)@.send_sequence,
                        ts,
                    ).len() + 16
                },
    {
        let timestamp = unix_timestamp_secs();
        self.encrypt_heartbeat_at(status, timestamp)
    }

    /// Seals a heartbeat carrying `status` and the timestamp `timestamp`:
    /// advances the sequence number (refused as `InvalidSequence` at
    /// `u64::MAX`) and returns `[seq: 8 bytes big-endian][ciphertext + tag]`.
    pub fn encrypt_heartbeat_at(&mut self, status: &str, timestamp: u64) -> (r: Result<
        Vec<u8>,
        SessionError,
    >)
        ensures
            (final(self)@, bytes_result(r)) == heartbeat_step(old(self)@, status.spec_bytes(), timestamp),
            r matches Ok(p) ==> p@.len() == 8 + heartbeat_plaintext(
                status.spec_bytes(),
                final(self)@.send_sequence,
                timestamp,
            ).len() + 16,
    {
        let seq = match self.send_sequence.checked_add(1) {
            Some(s) => s,
            None => return Err(SessionError::InvalidSequence),
        };
        self.send_sequence = seq;
        let plaintext = heartbeat_plaintext_bytes(status, seq, timestamp);
        let nonce = Self::seq_to_nonce(seq);
        let aad = u64_to_be_bytes(seq);
        match aes256gcm_encrypt(&self.key, &nonce, &aad, plaintext.as_slice()) {
            None => Err(SessionError::EncryptionFailed),
            Some(ct) => {
                let mut out: Vec<u8> = Vec::new();
                append_bytes(&mut out, &aad);
                append_bytes(&mut out, ct.as_slice());
                Ok(out)
            },
        }
    }

    /// Opens a packet from the peer and checks its sequence number against
    /// the replay window; the window advances only after the packet has
    /// been authenticated.
    pub fn decrypt_and_verify(&mut self, packet: &[u8]) -> (r: Result<Vec<u8>, SessionError>)
        ensures
            decrypt_outcome(old(self)@, final(self)@, packet@, bytes_result(r)),
    {
        if packet.len() < 8 {
            return Err(SessionError::InvalidSequence);
        }
        let (seq_bytes, ciphertext) = packet.split_at(8);
        let seq = u64_from_be_bytes(seq_bytes);
        assert(be_u64(seq_bytes@) == be_u64(packet@));
        if !self.verify_sequence(seq) {
            return Err(SessionError::ReplayDetected);
        }
        let nonce = Self::seq_to_nonce(seq);
        assert(seq_bytes@ == packet@.take(8));
        assert(ciphertext@ == packet@.skip(8));
        match aes256gcm_decrypt(&self.key, &nonce, seq_bytes, ciphertext) {
            None => Err(SessionError::DecryptionFailed),
            Some(plaintext) => {
                self.recv_sequence = seq;
                Ok(plaintext)
            },
        }
    }

    /// Replay check: a sequence number is acceptable only when it is
    /// strictly above every number accepted so far.
    pub fn verify_sequence(&self, received_seq: u64) -> (r: bool)
        ensures
            r == (received_seq > self@.recv_sequence),
    {
        received_seq > self.recv_sequence
    }
}

/// Distinct sequence numbers give distinct nonces.
pub proof fn lemma_nonce_of_injective(a: u64, b: u64)
    requires
        nonce_of(a) == nonce_of(b),
    ensures
        a == b,
{
    assert(u64_be(a) =~= nonce_of(a).skip(4));
    assert(u64_be(b) =~= nonce_of(b).skip(4));
    lemma_u64_be_injective(a, b);
}

/// Two heartbeats sealed one after the other by the same session carry
/// strictly increasing sequence numbers, so they never share a nonce under
/// the session key.
pub proof fn lemma_heartbeats_never_reuse_nonce(
    st: SessionState,
    status1: Seq<u8>,
    ts1: u64,
    status2: Seq<u8>,
    ts2: u64,
)
    requires
        heartbeat_step(st, status1, ts1).1 is Ok,
        heartbeat_step(heartbeat_step(st, status1, ts1).0, status2, ts2).1 is Ok,
    ensures
        ({
            let s1 = heartbeat_step(st, status1, ts1).0;
            let s2 = heartbeat_step(s1, status2, ts2).0;
            &&& st.send_sequence < s1.send_sequence < s2.send_sequence
            &&& nonce_of(s1.send_sequence) != nonce_of(s2.send_sequence)
            &&& s2.key == st.key
        }),
{
    let s1 = heartbeat_step(st, status1, ts1).0;
    let s2 = heartbeat_step(s1, status2, ts2).0;
    if nonce_of(s1.send_sequence) == nonce_of(s2.send_sequence) {
        lemma_nonce_of_injective(s1.send_sequence, s2.send_sequence);
    }
}

/// A heartbeat sealed by one session is accepted by any session that holds
/// the same key and whose replay window lies below the heartbeat's
/// sequence number: it yields exactly the heartbeat plaintext and moves the
/// window to that sequence number.
pub proof fn lemma_heartbeat_accepted_by_peer(
    sender: SessionState,
    status: Seq<u8>,
    ts: u64,
    receiver: SessionState,
    after: SessionState,
    r: Result<Seq<u8>, SessionError>,
)
    requires
        heartbeat_step(sender, status, ts).1 is Ok,
        receiver.key == sender.key,
        heartbeat_step(sender, status, ts).0.send_sequence > receiver.recv_sequence,
        decrypt_outcome(receiver, after, heartbeat_step(sender, status, ts).1->Ok_0, r),
    ensures
        ({
            let seq = heartbeat_step(sender, status, ts).0.send_sequence;
            &&& r == Ok::<Seq<u8>, SessionError>(heartbeat_plaintext(status, seq, ts))
            &&& after == accept_sequence(receiver, seq)
        }),
{
    let seq = heartbeat_step(sender, status, ts).0.send_sequence;
    let pt = heartbeat_plaintext(status, seq, ts);
    let packet = heartbeat_step(sender, status, ts).1->Ok_0;
    let ct = aes256gcm_seal(sender.key, nonce_of(seq), u64_be(seq), pt);
    assert(packet == u64_be(seq) + ct);
    assert(packet.take(8) =~= u64_be(seq));
    assert(packet.skip(8) =~= ct);
    lemma_be_u64_roundtrip(seq);
    assert(be_u64(packet) == be_u64(u64_be(seq)));
    assert(ct == aes256gcm_seal(receiver.key, nonce_of(seq), packet.take(8), pt));
}

/// A packet that has been accepted once is refused as a replay when it
/// comes again, and the refusal leaves the session unchanged.
pub proof fn lemma_replayed_packet_rejected(
    st: SessionState,
    packet: Seq<u8>,
    plaintext: Seq<u8>,
    after_first: SessionState,
    after_second: SessionState,
    r: Result<Seq<u8>, SessionError>,
)
    requires
        decrypt_outcome(st, after_first, packet, Ok(plaintext)),
        decrypt_outcome(after_first, after_second, packet, r),
    ensures
        r == Err::<Seq<u8>, SessionError>(SessionError::ReplayDetected),
        after_second == after_first,
{
}

/// Opening a packet never moves the replay window backwards, moves it
/// forwards exactly when the packet is accepted, and leaves the key, the
/// send counter and the public key alone.
pub proof fn lemma_window_only_advances(
    st: SessionState,
    after: SessionState,
    packet: Seq<u8>,
    r: Result<Seq<u8>, SessionError>,
)
    requires
        decrypt_outcome(st, after, packet, r),
    ensures
        after.recv_sequence >= st.recv_sequence,
        r is Ok <==> after.recv_sequence > st.recv_sequence,
        r is Err ==> after == st,
        after.key == st.key,
        after.send_sequence == st.send_sequence,
        after.client_public == st.client_public,
{
}

/// Sealing a heartbeat leaves the key, the replay window and the public key
/// alone, and the sequence number never goes back.
pub proof fn lemma_heartbeat_keeps_session(st: SessionState, status: Seq<u8>, ts: u64)
    ensures
        ({
            let (next, r) = heartbeat_step(st, status, ts);
            &&& next.key == st.key
            &&& next.recv_sequence == st.recv_sequence
            &&& next.client_public == st.client_public
            &&& next.send_sequence >= st.send_sequence
            &&& r is Ok ==> next.send_sequence == st.send_sequence + 1
            &&& r == Err::<Seq<u8>, SessionError>(SessionError::InvalidSequence) <==> st.send_sequence
                == u64::MAX
        }),
{
}


/// One call on a session, as the laws over whole runs see it: sealing a
/// heartbeat, or opening a packet with the result it gave.
pub enum SessionOp {
    Heartbeat { status: Seq<u8>, ts: u64 },
    Receive { packet: Seq<u8>, result: Result<Seq<u8>, SessionError> },
}

/// `new` is what the call `op` leaves of `old`.
pub open spec fn op_step(old: SessionState, op: SessionOp, new: SessionState) -> bool {
    match op {
        SessionOp::Heartbeat { status, ts } => heartbeat_step(old, status, ts).0 == new,
        SessionOp::Receive { packet, result } => decrypt_outcome(old, new, packet, result),
    }
}

/// `states` are the successive states of one session under the calls `ops`.
pub open spec fn is_run(states: Seq<SessionState>, ops: Seq<SessionOp>) -> bool {
    &&& states.len() == ops.len() + 1
    &&& forall|i: int| 0 <= i < ops.len() ==> #[trigger] op_step(states[i], ops[i], states[i + 1])
}

/// Along any run, the key and the client's public key never change, and
/// neither the send counter nor the replay window ever goes back.
pub proof fn lemma_run_keeps_session(states: Seq<SessionState>, ops: Seq<SessionOp>, i: int, j: int)
    requires
        is_run(states, ops),
        0 <= i <= j < states.len(),
    ensures
        states[j].key == states[i].key,
        states[j].client_public == states[i].client_public,
        states[i].send_sequence <= states[j].send_sequence,
        states[i].recv_sequence <= states[j].recv_sequence,
    decreases j - i,
{
    if i < j {
        let k = j - 1;
        lemma_run_keeps_session(states, ops, i, k);
        assert(op_step(states[k], ops[k], states[k + 1]));
        match ops[k] {
            SessionOp::Heartbeat { status, ts } => {
                lemma_heartbeat_keeps_session(states[k], status, ts);
            },
            SessionOp::Receive { packet, result } => {
                lemma_window_only_advances(states[k], states[k + 1], packet, result);
            },
        }
    }
}

/// Whatever calls come in between, a heartbeat sealed later by the same
/// session carries a higher sequence number than one sealed earlier, so no
/// nonce is ever used twice under the session key.
pub proof fn lemma_run_never_reuses_nonce(states: Seq<SessionState>, ops: Seq<SessionOp>, i: int, j: int)
    requires
        is_run(states, ops),
        0 <= i < j < ops.len(),
        ops[i] matches SessionOp::Heartbeat { status, ts } && heartbeat_step(states[i], status, ts).1 is Ok,
        ops[j] matches SessionOp::Heartbeat { status, ts } && heartbeat_step(states[j], status, ts).1 is Ok,
    ensures
        states[i + 1].send_sequence < states[j + 1].send_sequence,
        nonce_of(states[i + 1].send_sequence) != nonce_of(states[j + 1].send_sequence),
        states[i + 1].key == states[j + 1].key,
{
    assert(op_step(states[i], ops[i], states[i + 1]));
    assert(op_step(states[j], ops[j], states[j + 1]));
    lemma_run_keeps_session(states, ops, i + 1, j);
    lemma_run_keeps_session(states, ops, i + 1, j + 1);
    if nonce_of(states[i + 1].send_sequence) == nonce_of(states[j + 1].send_sequence) {
        lemma_nonce_of_injective(states[i + 1].send_sequence, states[j + 1].send_sequence);
    }
}

/// Whatever calls come in between, once a packet has been accepted, that
/// packet, and any packet numbered at or below it, is refused as a replay
/// and changes nothing.
pub proof fn lemma_run_rejects_replays(states: Seq<SessionState>, ops: Seq<SessionOp>, i: int, j: int)
    requires
        is_run(states, ops),
        0 <= i < j < ops.len(),
        ops[i] matches SessionOp::Receive { result, .. } && result is Ok,
        ops[j] matches SessionOp::Receive { packet, .. } && packet.len() >= 8,
        be_u64(ops[j]->packet) <= be_u64(ops[i]->packet),
    ensures
        ops[j]->result == Err::<Seq<u8>, SessionError>(SessionError::ReplayDetected),
        states[j + 1] == states[j],
{
    assert(op_step(states[i], ops[i], states[i + 1]));
    assert(op_step(states[j], ops[j], states[j + 1]));
    lemma_run_keeps_session(states, ops, i + 1, j);
}

/// A server whose public key is `x25519(b, base)` and which builds its
/// session from the client's public key and `x25519(b, client_public)`
/// holds the key that `negotiate` promises the client, so it opens every
/// heartbeat the client seals while its window lies below the heartbeat's
/// number, and gets exactly the heartbeat plaintext.
pub proof fn lemma_server_opens_negotiated_heartbeats(
    client: SessionState,
    server_secret: Seq<u8>,
    server: SessionState,
    status: Seq<u8>,
    ts: u64,
    after: SessionState,
    r: Result<Seq<u8>, SessionError>,
)
    requires
        server_secret.len() == 32,
        client.key == session_key(
            client.client_public,
            x25519(server_secret, x25519_basepoint()),
            x25519(server_secret, client.client_public),
        ),
        server.key == session_key(
            client.client_public,
            x25519(server_secret, x25519_basepoint()),
            x25519(server_secret, client.client_public),
        ),
        heartbeat_step(client, status, ts).1 is Ok,
        heartbeat_step(client, status, ts).0.send_sequence > server.recv_sequence,
        decrypt_outcome(server, after, heartbeat_step(client, status, ts).1->Ok_0, r),
    ensures
        r == Ok::<Seq<u8>, SessionError>(
            heartbeat_plaintext(status, heartbeat_step(client, status, ts).0.send_sequence, ts),
        ),
{
    lemma_heartbeat_accepted_by_peer(client, status, ts, server, after, r);
}

} // verus!
