use vstd::prelude::*;

use crate::keychain::{EntryView, KeychainStore, PairingEntry};
use crate::proto::types::{HostId, ViewerId};

verus! {

/// Certificate expiry recorded for new pairings, in Unix seconds.
pub const PAIRING_CERT_EXPIRES_AT: u64 = 9999999999;

/// A 32-byte pair token derived from the PIN and both peers' ids.
#[derive(Debug, Clone, Copy, PartialEq, Eq)]
pub struct PairToken(pub [u8; 32]);

/// Errors of viewer-side pairing.
#[derive(Debug, Clone, PartialEq, Eq)]
pub enum ViewerPairingError {
    /// The PIN is not six digits.
    InvalidPinFormat,
    /// The pairing exchange failed.
    VerificationFailed(String),
    /// The token could not be stored.
    KeychainSave(String),
}

/// The description of a pairing error.
pub open spec fn pairing_error_text(e: ViewerPairingError) -> Seq<char> {
    match e {
        ViewerPairingError::InvalidPinFormat => "invalid PIN format: must be 6 digits"@,
        ViewerPairingError::VerificationFailed(d) => "SPAKE2+ pairing verification failed: "@ + d@,
        ViewerPairingError::KeychainSave(d) => "keychain save failed: "@ + d@,
    }
}

impl ViewerPairingError {
    /// Human-readable description of the error.
    pub fn message(&self) -> (s: String)
        ensures
            s@ == pairing_error_text(*self),
    {
        match self {
            ViewerPairingError::InvalidPinFormat => String::from_str(
                "invalid PIN format: must be 6 digits",
            ),
            ViewerPairingError::VerificationFailed(d) => crate::error::join_text(
                "SPAKE2+ pairing verification failed: ",
                d.as_str(),
            ),
            ViewerPairingError::KeychainSave(d) => crate::error::join_text(
                "keychain save failed: ",
                d.as_str(),
            ),
        }
    }
}

/// A pairing PIN: exactly six ASCII digits.
pub open spec fn is_valid_pin(pin: Seq<char>) -> bool {
    pin.len() == 6 && forall|i: int| 0 <= i < 6 ==> '0' <= #[trigger] pin[i] && pin[i] <= '9'
}

/// The entry a completed pairing stores: both ids, the token's bytes, the pairing time
/// and the fixed certificate expiry.
pub open spec fn new_pairing(host_id: u128, viewer_id: u128, token: PairToken, paired_at: u64) -> EntryView {
    EntryView {
        host_id,
        viewer_id,
        pair_token: token.0@,
        paired_at,
        cert_expires_at: PAIRING_CERT_EXPIRES_AT,
    }
}

/// Builds the entry a completed pairing stores.
pub fn pairing_entry(host_id: HostId, viewer_id: ViewerId, token: &PairToken, paired_at: u64) -> (e:
    PairingEntry)
    ensures
        e@ == new_pairing(host_id.0, viewer_id.0, *token, paired_at),
{
    PairingEntry {
        host_id: host_id.0,
        viewer_id: viewer_id.0,
        pair_token: vstd::slice::slice_to_vec(token.0.as_slice()),
        paired_at,
        cert_expires_at: PAIRING_CERT_EXPIRES_AT,
    }
}

/// Viewer side of pairing: checks the PIN and stores the resulting token.
#[derive(Debug)]
pub struct ViewerPairingClient<K: KeychainStore> {
    keychain: K,
    viewer_id: ViewerId,
}

impl<K: KeychainStore> ViewerPairingClient<K> {
    /// The credential store.
    pub closed spec fn keychain_spec(&self) -> K {
        self.keychain
    }

    /// This viewer's id.
    pub closed spec fn viewer_spec(&self) -> ViewerId {
        self.viewer_id
    }

    /// A client storing into `keychain` for viewer `viewer_id`.
    pub fn new(keychain: K, viewer_id: ViewerId) -> (c: Self)
        ensures
            c.keychain_spec() == keychain,
            c.viewer_spec() == viewer_id,
    {
        ViewerPairingClient { keychain, viewer_id }
    }

    /// The credential store.
    pub fn keychain(&self) -> (k: &K)
        ensures
            *k == self.keychain_spec(),
    {
        &self.keychain
    }

    /// Accepts exactly six ASCII digits.
    pub fn validate_pin(pin: &str) -> (r: Result<(), ViewerPairingError>)
        ensures
            r is Ok == is_valid_pin(pin@),
            r is Err ==> r == Err::<(), ViewerPairingError>(ViewerPairingError::InvalidPinFormat),
    {
        if pin.unicode_len() != 6 {
            return Err(ViewerPairingError::InvalidPinFormat);
        }
        let mut i: usize = 0;
        while i < 6
            invariant
                pin@.len() == 6,
                i <= 6,
                forall|j: int| 0 <= j < i ==> '0' <= #[trigger] pin@[j] && pin@[j] <= '9',
            decreases 6 - i,
        {
            let c = pin.get_char(i);
            if !('0' <= c && c <= '9') {
                return Err(ViewerPairingError::InvalidPinFormat);
            }
            i = i + 1;
        }
        Ok(())
    }

    /// Completes pairing with `host_id`: a valid `pin` has `token` (derived from that PIN
    /// and both ids) stored for this viewer, stamped `paired_at`; the token is returned.
    /// An invalid PIN stores nothing; a store failure is reported with its message.
    pub fn execute_pairing(
        &mut self,
        pin: &str,
        host_id: HostId,
        token: PairToken,
        paired_at: u64,
    ) -> (r: Result<PairToken, ViewerPairingError>)
        ensures
            !is_valid_pin(pin@) ==> r == Err::<PairToken, ViewerPairingError>(
                ViewerPairingError::InvalidPinFormat,
            ) && final(self).keychain_spec() == old(self).keychain_spec(),
            is_valid_pin(pin@) ==> r is Ok || r matches Err(ViewerPairingError::KeychainSave(_)),
            r matches Ok(t) ==> t == token && is_valid_pin(pin@),
            r is Ok ==> old(self).keychain_spec().stored_into(
                final(self).keychain_spec(),
                new_pairing(host_id.0, old(self).viewer_spec().0, token, paired_at),
            ),
            final(self).viewer_spec() == old(self).viewer_spec(),
    {
        if Self::validate_pin(pin).is_err() {
            return Err(ViewerPairingError::InvalidPinFormat);
        }
        let entry = pairing_entry(host_id, self.viewer_id, &token, paired_at);
        match self.keychain.save_pairing(&entry) {
            Ok(()) => Ok(token),
            Err(e) => Err(ViewerPairingError::KeychainSave(e.message())),
        }
    }
}

/// Phase of the PIN entry dialog.
#[derive(Debug, Clone, PartialEq, Eq)]
pub enum PairingUiState {
    /// Nothing shown.
    Idle,
    /// Asking for the PIN.
    Prompting,
    /// Checking the PIN with the host.
    Verifying,
    /// Paired.
    Success,
    /// Pairing failed, with the reason.
    Failed(String),
}

impl Default for PairingUiState {
    fn default() -> (s: Self)
        ensures
            s is Idle,
    {
        PairingUiState::Idle
    }
}

/// The PIN entry dialog's state machine around a pairing client.
#[derive(Debug)]
pub struct PairingUi<K: KeychainStore> {
    client: ViewerPairingClient<K>,
    state: PairingUiState,
}

impl<K: KeychainStore> PairingUi<K> {
    /// The dialog's phase.
    pub closed spec fn state_spec(&self) -> PairingUiState {
        self.state
    }

    /// The pairing client.
    pub closed spec fn client_spec(&self) -> ViewerPairingClient<K> {
        self.client
    }

    /// An idle dialog around `client`.
    pub fn new(client: ViewerPairingClient<K>) -> (ui: Self)
        ensures
            ui.state_spec() is Idle,
            ui.client_spec() == client,
    {
        PairingUi { client, state: PairingUiState::Idle }
    }

    /// The dialog's phase.
    pub fn state(&self) -> (s: PairingUiState)
        ensures
            s == self.state_spec(),
    {
        match &self.state {
            PairingUiState::Idle => PairingUiState::Idle,
            PairingUiState::Prompting => PairingUiState::Prompting,
            PairingUiState::Verifying => PairingUiState::Verifying,
            PairingUiState::Success => PairingUiState::Success,
            PairingUiState::Failed(m) => PairingUiState::Failed(m.clone()),
        }
    }

    /// The pairing client.
    pub fn client(&self) -> (c: &ViewerPairingClient<K>)
        ensures
            *c == self.client_spec(),
    {
        &self.client
    }

    /// Shows the PIN prompt.
    pub fn start_prompt(&mut self)
        ensures
            final(self).state_spec() is Prompting,
            final(self).client_spec() == old(self).client_spec(),
    {
        self.state = PairingUiState::Prompting;
    }

    /// Submits a PIN (with the token derived from it): the dialog ends in `Success` when
    /// pairing completes and in `Failed` with the error's message otherwise.
    pub fn submit_pin(&mut self, pin: &str, host_id: HostId, token: PairToken, paired_at: u64) -> (r:
        Result<PairToken, ViewerPairingError>)
        ensures
            r is Ok ==> final(self).state_spec() is Success,
            r matches Err(e) ==> (final(self).state_spec() matches PairingUiState::Failed(m)
                && m@ == pairing_error_text(e)),
            !is_valid_pin(pin@) ==> r == Err::<PairToken, ViewerPairingError>(
                ViewerPairingError::InvalidPinFormat,
            ) && final(self).client_spec() == old(self).client_spec(),
            is_valid_pin(pin@) ==> r is Ok || r matches Err(ViewerPairingError::KeychainSave(_)),
            r matches Ok(t) ==> t == token,
            r is Ok ==> old(self).client_spec().keychain_spec().stored_into(
                final(self).client_spec().keychain_spec(),
                new_pairing(host_id.0, old(self).client_spec().viewer_spec().0, token, paired_at),
            ),
            final(self).client_spec().viewer_spec() == old(self).client_spec().viewer_spec(),
    {
        self.state = PairingUiState::Verifying;
        match self.client.execute_pairing(pin, host_id, token, paired_at) {
            Ok(t) => {
                self.state = PairingUiState::Success;
                Ok(t)
            },
            Err(e) => {
                self.state = PairingUiState::Failed(e.message());
                Err(e)
            },
        }
    }

    /// Back to idle.
    pub fn reset(&mut self)
        ensures
            final(self).state_spec() is Idle,
            final(self).client_spec() == old(self).client_spec(),
    {
        self.state = PairingUiState::Idle;
    }
}

} // verus!
