use vstd::prelude::*;

use crate::proto::types::{format_uuid, uuid_text};

verus! {

/// Errors of credential storage.
#[derive(Debug)]
pub enum KeychainError {
    /// No pairing is stored for the peer.
    NotFound(String),
    /// The platform store failed.
    Platform(String),
    /// An entry could not be encoded or decoded.
    Serialization(String),
}

impl KeychainError {
    /// Human-readable description of the error.
    pub fn message(&self) -> (s: String)
        ensures
            self matches KeychainError::NotFound(d) ==> s@ == "Pairing entry not found for peer "@
                + d@,
            self matches KeychainError::Platform(d) ==> s@ == "Keychain platform failure: "@ + d@,
            self matches KeychainError::Serialization(d) ==> s@ == "Serialization error: "@ + d@,
    {
        match self {
            KeychainError::NotFound(d) => crate::error::join_text(
                "Pairing entry not found for peer ",
                d.as_str(),
            ),
            KeychainError::Platform(d) => crate::error::join_text(
                "Keychain platform failure: ",
                d.as_str(),
            ),
            KeychainError::Serialization(d) => crate::error::join_text(
                "Serialization error: ",
                d.as_str(),
            ),
        }
    }
}

/// A stored pairing: the peers' UUID values, the secret pair token and its timestamps.
#[derive(Debug, Clone, PartialEq, Eq)]
pub struct PairingEntry {
    /// Host UUID, as its 128-bit value.
    pub host_id: u128,
    /// Viewer UUID, as its 128-bit value.
    pub viewer_id: u128,
    /// Secret pair token derived during pairing.
    pub pair_token: Vec<u8>,
    /// Unix time (seconds) the pairing completed.
    pub paired_at: u64,
    /// Unix time (seconds) the derived certificate expires.
    pub cert_expires_at: u64,
}

/// The value of a [`PairingEntry`].
pub struct EntryView {
    /// Host UUID value.
    pub host_id: u128,
    /// Viewer UUID value.
    pub viewer_id: u128,
    /// Pair token bytes.
    pub pair_token: Seq<u8>,
    /// Pairing time.
    pub paired_at: u64,
    /// Certificate expiry time.
    pub cert_expires_at: u64,
}

impl View for PairingEntry {
    type V = EntryView;

    open spec fn view(&self) -> EntryView {
        EntryView {
            host_id: self.host_id,
            viewer_id: self.viewer_id,
            pair_token: self.pair_token@,
            paired_at: self.paired_at,
            cert_expires_at: self.cert_expires_at,
        }
    }
}

impl PairingEntry {
    /// A copy of this entry with its own token buffer.
    pub fn copy(&self) -> (c: PairingEntry)
        ensures
            c@ == self@,
    {
        PairingEntry {
            host_id: self.host_id,
            viewer_id: self.viewer_id,
            pair_token: vstd::slice::slice_to_vec(self.pair_token.as_slice()),
            paired_at: self.paired_at,
            cert_expires_at: self.cert_expires_at,
        }
    }

    /// Overwrites the secret token with zeros and empties it.
    pub fn wipe_token(&mut self)
        ensures
            final(self).pair_token@ == Seq::<u8>::empty(),
            final(self).host_id == old(self).host_id,
            final(self).viewer_id == old(self).viewer_id,
            final(self).paired_at == old(self).paired_at,
            final(self).cert_expires_at == old(self).cert_expires_at,
    {
        let mut i: usize = 0;
        while i < self.pair_token.len()
            invariant
                i <= self.pair_token@.len(),
                self.host_id == old(self).host_id,
                self.viewer_id == old(self).viewer_id,
                self.paired_at == old(self).paired_at,
                self.cert_expires_at == old(self).cert_expires_at,
            decreases self.pair_token@.len() - i,
        {
            self.pair_token.set(i, 0u8);
            i = i + 1;
        }
        self.pair_token.clear();
    }
}

/// Some entry in `s` belongs to viewer `k`.
pub open spec fn has_key(s: Seq<EntryView>, k: u128) -> bool {
    exists|i: int| 0 <= i < s.len() && s[i].viewer_id == k
}

/// No two entries of `s` belong to the same viewer.
pub open spec fn unique_keys(s: Seq<EntryView>) -> bool {
    forall|i: int, j: int| 0 <= i < j < s.len() ==> s[i].viewer_id != s[j].viewer_id
}

/// Position of viewer `k`'s entry in `s`, when there is one.
pub open spec fn key_index(s: Seq<EntryView>, k: u128) -> int {
    choose|i: int| 0 <= i < s.len() && s[i].viewer_id == k
}

/// The entry stored for viewer `k`.
pub open spec fn lookup(s: Seq<EntryView>, k: u128) -> Option<EntryView> {
    if has_key(s, k) {
        Some(s[key_index(s, k)])
    } else {
        None
    }
}

/// The entries after saving `e`: it replaces the entry of its viewer, or is appended.
pub open spec fn saved(s: Seq<EntryView>, e: EntryView) -> Seq<EntryView> {
    if has_key(s, e.viewer_id) {
        s.update(key_index(s, e.viewer_id), e)
    } else {
        s.push(e)
    }
}

/// The entries after deleting viewer `k`'s entry.
pub open spec fn deleted(s: Seq<EntryView>, k: u128) -> Seq<EntryView> {
    if has_key(s, k) {
        s.remove(key_index(s, k))
    } else {
        s
    }
}

/// With unique keys, the entry at `i` is the one stored for its viewer.
pub proof fn lemma_lookup_at(s: Seq<EntryView>, i: int)
    requires
        unique_keys(s),
        0 <= i < s.len(),
    ensures
        has_key(s, s[i].viewer_id),
        key_index(s, s[i].viewer_id) == i,
        lookup(s, s[i].viewer_id) == Some(s[i]),
{
    let k = s[i].viewer_id;
    assert(0 <= i < s.len() && s[i].viewer_id == k);
    let j = key_index(s, k);
    if j < i {
        assert(s[j].viewer_id != s[i].viewer_id);
    } else if i < j {
        assert(s[i].viewer_id != s[j].viewer_id);
    }
}

/// Saving keeps keys unique; the saved entry is what its viewer then reads back, every
/// other viewer reads what it read before, and overwriting keeps the number of entries.
pub proof fn lemma_save_then_load(s: Seq<EntryView>, e: EntryView)
    requires
        unique_keys(s),
    ensures
        unique_keys(saved(s, e)),
        lookup(saved(s, e), e.viewer_id) == Some(e),
        forall|k: u128| k != e.viewer_id ==> #[trigger] lookup(saved(s, e), k) == lookup(s, k),
        saved(s, e).len() == if has_key(s, e.viewer_id) {
            s.len()
        } else {
            s.len() + 1
        },
{
    let t = saved(s, e);
    if has_key(s, e.viewer_id) {
        let i = key_index(s, e.viewer_id);
        assert(unique_keys(t)) by {
            assert forall|a: int, b: int| 0 <= a < b < t.len() implies t[a].viewer_id
                != t[b].viewer_id by {
                if a != i && b != i {
                    assert(s[a].viewer_id != s[b].viewer_id);
                } else if a == i {
                    assert(s[a].viewer_id != s[b].viewer_id);
                } else {
                    assert(s[a].viewer_id != s[b].viewer_id);
                }
            }
        }
        lemma_lookup_at(t, i);
        assert forall|k: u128| k != e.viewer_id implies #[trigger] lookup(t, k) == lookup(s, k) by {
            if has_key(s, k) {
                let j = key_index(s, k);
                assert(j != i);
                assert(t[j] == s[j]);
                lemma_lookup_at(s, j);
                lemma_lookup_at(t, j);
            } else {
                if has_key(t, k) {
                    let j = key_index(t, k);
                    assert(j != i);
                    assert(s[j].viewer_id == k);
                }
            }
        }
    } else {
        assert(unique_keys(t)) by {
            assert forall|a: int, b: int| 0 <= a < b < t.len() implies t[a].viewer_id
                != t[b].viewer_id by {
                if b == s.len() {
                    if t[a].viewer_id == e.viewer_id {
                        assert(s[a].viewer_id == e.viewer_id);
                    }
                } else {
                    assert(s[a].viewer_id != s[b].viewer_id);
                }
            }
        }
        lemma_lookup_at(t, s.len() as int);
        assert forall|k: u128| k != e.viewer_id implies #[trigger] lookup(t, k) == lookup(s, k) by {
            if has_key(s, k) {
                let j = key_index(s, k);
                lemma_lookup_at(s, j);
                assert(t[j] == s[j]);
                lemma_lookup_at(t, j);
            } else {
                if has_key(t, k) {
                    let j = key_index(t, k);
                    assert(j < s.len());
                    assert(s[j].viewer_id == k);
                }
            }
        }
    }
}

/// Deleting keeps keys unique, leaves nothing for the deleted viewer and every other
/// viewer's entry as it was.
pub proof fn lemma_delete_then_load(s: Seq<EntryView>, k: u128)
    requires
        unique_keys(s),
    ensures
        unique_keys(deleted(s, k)),
        lookup(deleted(s, k), k) is None,
        forall|k2: u128| k2 != k ==> #[trigger] lookup(deleted(s, k), k2) == lookup(s, k2),
{
    let t = deleted(s, k);
    if has_key(s, k) {
        let i = key_index(s, k);
        assert(unique_keys(t)) by {
            assert forall|a: int, b: int| 0 <= a < b < t.len() implies t[a].viewer_id
                != t[b].viewer_id by {
                let sa = if a < i {
                    a
                } else {
                    a + 1
                };
                let sb = if b < i {
                    b
                } else {
                    b + 1
                };
                assert(s[sa].viewer_id != s[sb].viewer_id);
            }
        }
        if has_key(t, k) {
            let j = key_index(t, k);
            let sj = if j < i {
                j
            } else {
                j + 1
            };
            assert(s[sj].viewer_id == k);
            if sj < i {
                assert(s[sj].viewer_id != s[i].viewer_id);
            } else {
                assert(s[i].viewer_id != s[sj].viewer_id);
            }
        }
        assert forall|k2: u128| k2 != k implies #[trigger] lookup(t, k2) == lookup(s, k2) by {
            if has_key(s, k2) {
                let j = key_index(s, k2);
                assert(j != i);
                let tj = if j < i {
                    j
                } else {
                    j - 1
                };
                assert(t[tj] == s[j]);
                lemma_lookup_at(s, j);
                lemma_lookup_at(t, tj);
            } else {
                if has_key(t, k2) {
                    let j = key_index(t, k2);
                    let sj = if j < i {
                        j
                    } else {
                        j + 1
                    };
                    assert(s[sj].viewer_id == k2);
                }
            }
        }
    }
}

/// A persistent store of pairing credentials, keyed by viewer UUID.
pub trait KeychainStore: Sized {
    /// Whether `after` is this store once `entry` has been stored in it.
    spec fn stored_into(&self, after: Self, entry: EntryView) -> bool;

    /// Stores `entry`, replacing any entry of the same viewer.
    fn save_pairing(&mut self, entry: &PairingEntry) -> (r: Result<(), KeychainError>)
        ensures
            r is Ok ==> old(self).stored_into(*final(self), entry@),
    ;

    /// Reads the entry of viewer `peer_id`.
    fn load_pairing(&self, peer_id: u128) -> Result<PairingEntry, KeychainError>;

    /// Removes the entry of viewer `peer_id`.
    fn delete_pairing(&mut self, peer_id: u128) -> Result<(), KeychainError>;

    /// Every stored entry.
    fn list_pairings(&self) -> Result<Vec<PairingEntry>, KeychainError>;
}

/// In-memory [`KeychainStore`] for tests and headless runs.
#[derive(Debug)]
pub struct MockKeychain {
    entries: Vec<PairingEntry>,
}

/// The views of a list of entries.
pub open spec fn views(v: Seq<PairingEntry>) -> Seq<EntryView> {
    v.map_values(|e: PairingEntry| e@)
}

/// `r` failed because nothing is stored for viewer `k`.
pub open spec fn is_not_found<T>(r: Result<T, KeychainError>, k: u128) -> bool {
    r matches Err(KeychainError::NotFound(m)) && m@ == uuid_text(k)
}

impl MockKeychain {
    #[verifier::type_invariant]
    spec fn keys_unique(&self) -> bool {
        unique_keys(views(self.entries@))
    }

    /// The stored entries, in storage order.
    pub closed spec fn entries_spec(&self) -> Seq<EntryView> {
        views(self.entries@)
    }

    /// Creates an empty store.
    pub fn new() -> (m: Self)
        ensures
            m.entries_spec() == Seq::<EntryView>::empty(),
            unique_keys(m.entries_spec()),
    {
        let m = MockKeychain { entries: Vec::new() };
        assert(views(m.entries@) =~= Seq::<EntryView>::empty());
        m
    }

    fn find(&self, k: u128) -> (r: Option<usize>)
        ensures
            match r {
                Some(i) => i < self.entries@.len() && self.entries@[i as int].viewer_id == k,
                None => !has_key(self.entries_spec(), k),
            },
    {
        let mut i: usize = 0;
        while i < self.entries.len()
            invariant
                i <= self.entries@.len(),
                forall|j: int| 0 <= j < i ==> self.entries@[j].viewer_id != k,
            decreases self.entries@.len() - i,
        {
            if self.entries[i].viewer_id == k {
                return Some(i);
            }
            i = i + 1;
        }
        assert forall|j: int| 0 <= j < self.entries@.len() implies views(self.entries@)[j].viewer_id
            != k by {}
        None
    }
}

impl Default for MockKeychain {
    fn default() -> (m: Self)
        ensures
            m.entries_spec() == Seq::<EntryView>::empty(),
    {
        MockKeychain::new()
    }
}

impl KeychainStore for MockKeychain {
    /// The entry replaces the one of its viewer, or is appended when there is none.
    open spec fn stored_into(&self, after: Self, entry: EntryView) -> bool {
        after.entries_spec() == saved(self.entries_spec(), entry)
    }

    fn save_pairing(&mut self, entry: &PairingEntry) -> (r: Result<(), KeychainError>)
        ensures
            r is Ok,
            final(self).entries_spec() == saved(old(self).entries_spec(), entry@),
            unique_keys(old(self).entries_spec()),
            unique_keys(final(self).entries_spec()),
    {
        proof {
            use_type_invariant(&*self);
            lemma_save_then_load(views(self.entries@), entry@);
        }
        let found = self.find(entry.viewer_id);
        let mut entries: Vec<PairingEntry> = Vec::new();
        std::mem::swap(&mut entries, &mut self.entries);
        let ghost before = entries@;
        match found {
            Some(i) => {
                proof {
                    lemma_lookup_at(views(before), i as int);
                }
                entries.set(i, entry.copy());
                assert(views(entries@) =~= views(before).update(i as int, entry@));
            },
            None => {
                entries.push(entry.copy());
                assert(views(entries@) =~= views(before).push(entry@));
            },
        }
        self.entries = entries;
        Ok(())
    }

    fn load_pairing(&self, peer_id: u128) -> (r: Result<PairingEntry, KeychainError>)
        ensures
            lookup(self.entries_spec(), peer_id) matches Some(e) ==> (r matches Ok(found) && found@
                == e),
            lookup(self.entries_spec(), peer_id) is None ==> is_not_found(r, peer_id),
    {
        proof {
            use_type_invariant(self);
        }
        match self.find(peer_id) {
            Some(i) => {
                proof {
                    lemma_lookup_at(views(self.entries@), i as int);
                }
                Ok(self.entries[i].copy())
            },
            None => Err(KeychainError::NotFound(format_uuid(peer_id))),
        }
    }

    fn delete_pairing(&mut self, peer_id: u128) -> (r: Result<(), KeychainError>)
        ensures
            has_key(old(self).entries_spec(), peer_id) ==> r is Ok,
            !has_key(old(self).entries_spec(), peer_id) ==> is_not_found(r, peer_id),
            final(self).entries_spec() == deleted(old(self).entries_spec(), peer_id),
            unique_keys(old(self).entries_spec()),
            unique_keys(final(self).entries_spec()),
    {
        proof {
            use_type_invariant(&*self);
            lemma_delete_then_load(views(self.entries@), peer_id);
        }
        match self.find(peer_id) {
            Some(i) => {
                proof {
                    lemma_lookup_at(views(self.entries@), i as int);
                }
                let mut entries: Vec<PairingEntry> = Vec::new();
                std::mem::swap(&mut entries, &mut self.entries);
                let ghost before = entries@;
                let _ = entries.remove(i);
                assert(views(entries@) =~= views(before).remove(i as int));
                self.entries = entries;
                Ok(())
            },
            None => Err(KeychainError::NotFound(format_uuid(peer_id))),
        }
    }

    fn list_pairings(&self) -> (r: Result<Vec<PairingEntry>, KeychainError>)
        ensures
            r matches Ok(list) && views(list@) == self.entries_spec(),
            unique_keys(self.entries_spec()),
    {
        proof {
            use_type_invariant(self);
        }
        let mut list: Vec<PairingEntry> = Vec::new();
        let mut i: usize = 0;
        while i < self.entries.len()
            invariant
                i <= self.entries@.len(),
                list@.len() == i,
                forall|j: int| 0 <= j < i ==> #[trigger] list@[j]@ == self.entries@[j]@,
            decreases self.entries@.len() - i,
        {
            list.push(self.entries[i].copy());
            i = i + 1;
        }
        assert(views(list@) =~= views(self.entries@));
        Ok(list)
    }
}

/// Credential Manager target names start with this prefix.
pub const TARGET_PREFIX: &'static str = "Renderd/Pairing/";

/// Keychain Services service name of pairing items.
pub const SERVICE_NAME: &'static str = "dev.renderd.pairing";

/// Keychain Services status for a missing item.
pub const ERR_SEC_ITEM_NOT_FOUND: i32 = -25300;

/// The Credential Manager target name of viewer `viewer_id`'s entry.
pub fn credential_target(viewer_id: u128) -> (s: String)
    ensures
        s@ == TARGET_PREFIX@ + uuid_text(viewer_id),
{
    let mut s = String::from_str(TARGET_PREFIX);
    let u = format_uuid(viewer_id);
    s.append(u.as_str());
    s
}

/// The UTF-16 code units of a character.
pub open spec fn utf16_units(c: char) -> Seq<u16> {
    let v = c as int;
    if v < 0x1_0000 {
        seq![v as u16]
    } else {
        seq![(0xD800 + (v - 0x1_0000) / 0x400) as u16, (0xDC00 + (v - 0x1_0000) % 0x400) as u16]
    }
}

/// UTF-16 encoding of a character sequence.
pub open spec fn utf16(s: Seq<char>) -> Seq<u16>
    decreases s.len(),
{
    if s.len() == 0 {
        Seq::empty()
    } else {
        utf16(s.drop_last()) + utf16_units(s.last())
    }
}

/// The NUL-terminated UTF-16 form of `s`, as wide-string APIs take it.
pub fn to_utf16(s: &str) -> (units: Vec<u16>)
    ensures
        units@ == utf16(s@).push(0u16),
{
    let n = s.unicode_len();
    let mut units: Vec<u16> = Vec::new();
    let mut i: usize = 0;
    while i < n
        invariant
            n == s@.len(),
            i <= n,
            units@ == utf16(s@.subrange(0, i as int)),
        decreases n - i,
    {
        let c = s.get_char(i);
        let v = c as u32;
        if v < 0x1_0000 {
            units.push(v as u16);
        } else {
            units.push((0xD800 + (v - 0x1_0000) / 0x400) as u16);
            units.push((0xDC00 + (v - 0x1_0000) % 0x400) as u16);
        }
        assert(s@.subrange(0, i + 1).drop_last() =~= s@.subrange(0, i as int));
        assert(units@ =~= utf16(s@.subrange(0, i + 1)));
        i = i + 1;
    }
    assert(s@.subrange(0, n as int) =~= s@);
    units.push(0u16);
    units
}

/// Keychain Services backend; its calls need the platform framework.
#[derive(Debug)]
pub struct MacosKeychain;

impl MacosKeychain {
    /// Creates the backend handle.
    pub fn new() -> (k: Self) {
        MacosKeychain
    }
}

/// Windows Credential Manager backend; its calls need the platform API.
#[derive(Debug)]
pub struct WindowsCredentialManager;

impl WindowsCredentialManager {
    /// Creates the backend handle.
    pub fn new() -> (k: Self) {
        WindowsCredentialManager
    }
}

} // verus!
