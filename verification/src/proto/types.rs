use vstd::prelude::*;

use vstd::std_specs::convert::FromSpecImpl;

use crate::text::{decimal, decimal_text};

verus! {

/// Lowercase hexadecimal digit for a value below sixteen.
pub open spec fn hex_digit(n: int) -> char {
    if n < 10 {
        (48 + n) as char
    } else {
        (87 + n) as char
    }
}

/// The `k`-th hexadecimal digit of `v`, counting from the most significant of its 32.
pub open spec fn nibble(v: u128, k: int) -> int {
    (v as int / vstd::arithmetic::power::pow(16, (31 - k) as nat)) % 16
}

/// Number of hyphens before position `i` of the hyphenated UUID form.
pub open spec fn hyphens_before(i: int) -> int {
    if i <= 8 {
        0
    } else if i <= 13 {
        1
    } else if i <= 18 {
        2
    } else if i <= 23 {
        3
    } else {
        4
    }
}

/// Whether position `i` of the hyphenated UUID form holds a hyphen.
pub open spec fn is_hyphen_position(i: int) -> bool {
    i == 8 || i == 13 || i == 18 || i == 23
}

/// The hyphenated lowercase text of a UUID whose 128-bit big-endian value is `v`, as in
/// `67e55044-10b1-426f-9247-bb680e5fe0c8`.
pub open spec fn uuid_text(v: u128) -> Seq<char> {
    Seq::new(
        36,
        |i: int|
            if is_hyphen_position(i) {
                '-'
            } else {
                hex_digit(nibble(v, i - hyphens_before(i)))
            },
    )
}

/// Formats the UUID with 128-bit value `v` through `uuid::Uuid`'s `Display`.
#[verifier::external_body]
pub(crate) fn format_uuid(v: u128) -> (s: String)
    ensures
        s@ == uuid_text(v),
{
    uuid::Uuid::from_u128(v).to_string()
}

/// A hexadecimal digit of either case.
pub open spec fn is_hex_char(c: char) -> bool {
    ('0' <= c && c <= '9') || ('a' <= c && c <= 'f') || ('A' <= c && c <= 'F')
}

/// The ASCII lowercase of `c`.
pub open spec fn ascii_lower(c: char) -> char {
    if 'A' <= c && c <= 'Z' {
        ((c as int) + 32) as char
    } else {
        c
    }
}

/// Thirty-two hex digits in 8-4-4-4-12 groups separated by hyphens.
pub open spec fn is_hyphenated_uuid(s: Seq<char>) -> bool {
    &&& s.len() == 36
    &&& forall|i: int|
        0 <= i < 36 ==> if is_hyphen_position(i) {
            #[trigger] s[i] == '-'
        } else {
            is_hex_char(s[i])
        }
}

/// The texts `Uuid::parse_str` accepts: thirty-two hex digits, the hyphenated form,
/// the hyphenated form in braces, or the hyphenated form after a `urn:uuid:` prefix of
/// any letter case.
pub open spec fn is_uuid_text(s: Seq<char>) -> bool {
    ||| s.len() == 32 && forall|i: int| 0 <= i < 32 ==> is_hex_char(#[trigger] s[i])
    ||| is_hyphenated_uuid(s)
    ||| s.len() == 38 && s[0] == '{' && s[37] == '}' && is_hyphenated_uuid(s.subrange(1, 37))
    ||| s.len() == 45 && (forall|i: int|
        0 <= i < 9 ==> ascii_lower(#[trigger] s[i]) == "urn:uuid:"@[i]) && is_hyphenated_uuid(
        s.subrange(9, 45),
    )
}

/// The hyphenated text of any UUID value is a UUID text: it has the 8-4-4-4-12 shape
/// and every other position holds a hexadecimal digit.
pub proof fn lemma_uuid_text_is_uuid(v: u128)
    ensures
        is_hyphenated_uuid(uuid_text(v)),
        is_uuid_text(uuid_text(v)),
{
    let s = uuid_text(v);
    assert forall|i: int| 0 <= i < 36 implies if is_hyphen_position(i) {
        #[trigger] s[i] == '-'
    } else {
        is_hex_char(s[i])
    } by {
        if !is_hyphen_position(i) {
            let n = nibble(v, i - hyphens_before(i));
            assert(0 <= n < 16);
        }
    }
}

/// A fresh random UUID value, from `uuid::Uuid::new_v4`. Its bits come from the system's
/// random source; only the version (4, random) and the RFC 4122 variant bits that
/// `new_v4` sets are stated.
#[verifier::external_body]
pub(crate) fn random_uuid_value() -> (v: u128)
    ensures
        (v >> 76u128) & 0xFu128 == 4,
        (v >> 62u128) & 0x3u128 == 2,
{
    uuid::Uuid::new_v4().as_u128()
}

/// Whether `uuid::Uuid::parse_str` accepts `s`.
#[verifier::external_body]
pub(crate) fn parses_as_uuid(s: &str) -> (ok: bool)
    ensures
        ok == is_uuid_text(s@),
{
    uuid::Uuid::parse_str(s).is_ok()
}

/// Monotonically increasing frame identifier.
#[derive(Debug, Clone, Copy, PartialEq, Eq, PartialOrd, Ord, Hash, Structural)]
pub struct FrameId(pub u64);

/// Fragment index within a frame.
#[derive(Debug, Clone, Copy, PartialEq, Eq, PartialOrd, Ord, Hash, Structural)]
pub struct FragmentId(pub u16);

/// Bitrate in kilobits per second.
#[derive(Debug, Clone, Copy, PartialEq, Eq, PartialOrd, Ord, Hash, Structural)]
pub struct BitrateKbps(pub u32);

/// Vsync period in nanoseconds.
#[derive(Debug, Clone, Copy, PartialEq, Eq, PartialOrd, Ord, Hash, Structural)]
pub struct VsyncPeriodNs(pub u64);

/// Identifier of a viewer endpoint: the 128-bit value of its UUID.
#[derive(Debug, Clone, Copy, PartialEq, Eq, Hash, Structural)]
pub struct ViewerId(pub u128);

/// Identifier of a host endpoint: the 128-bit value of its UUID.
#[derive(Debug, Clone, Copy, PartialEq, Eq, Hash, Structural)]
pub struct HostId(pub u128);

impl FrameId {
    /// Display text: `FrameId(<n>)`.
    pub fn to_text(&self) -> (s: String)
        ensures
            s@ == "FrameId("@ + decimal(self.0 as nat) + ")"@,
    {
        let mut s = String::from_str("FrameId(");
        let n = decimal_text(self.0);
        s.append(n.as_str());
        s.append(")");
        s
    }
}

impl FragmentId {
    /// Display text: `FragmentId(<n>)`.
    pub fn to_text(&self) -> (s: String)
        ensures
            s@ == "FragmentId("@ + decimal(self.0 as nat) + ")"@,
    {
        let mut s = String::from_str("FragmentId(");
        let n = decimal_text(self.0 as u64);
        s.append(n.as_str());
        s.append(")");
        s
    }
}

impl BitrateKbps {
    /// Display text: `<n> kbps`.
    pub fn to_text(&self) -> (s: String)
        ensures
            s@ == decimal(self.0 as nat) + " kbps"@,
    {
        let mut s = decimal_text(self.0 as u64);
        s.append(" kbps");
        s
    }
}

impl VsyncPeriodNs {
    /// Display text: `<n> ns`.
    pub fn to_text(&self) -> (s: String)
        ensures
            s@ == decimal(self.0 as nat) + " ns"@,
    {
        let mut s = decimal_text(self.0);
        s.append(" ns");
        s
    }
}

impl ViewerId {
    /// Display text: `ViewerId(<uuid>)`.
    pub fn to_text(&self) -> (s: String)
        ensures
            s@ == "ViewerId("@ + uuid_text(self.0) + ")"@,
    {
        let mut s = String::from_str("ViewerId(");
        let u = format_uuid(self.0);
        s.append(u.as_str());
        s.append(")");
        s
    }
}

impl HostId {
    /// Display text: `HostId(<uuid>)`.
    pub fn to_text(&self) -> (s: String)
        ensures
            s@ == "HostId("@ + uuid_text(self.0) + ")"@,
    {
        let mut s = String::from_str("HostId(");
        let u = format_uuid(self.0);
        s.append(u.as_str());
        s.append(")");
        s
    }
}

impl From<u64> for FrameId {
    fn from(v: u64) -> (r: Self)
        ensures
            r == FrameId(v),
    {
        FrameId(v)
    }
}

impl FromSpecImpl<u64> for FrameId {
    open spec fn obeys_from_spec() -> bool {
        true
    }

    open spec fn from_spec(v: u64) -> Self {
        FrameId(v)
    }
}

impl From<FrameId> for u64 {
    fn from(v: FrameId) -> (r: u64)
        ensures
            r == v.0,
    {
        v.0
    }
}

impl FromSpecImpl<FrameId> for u64 {
    open spec fn obeys_from_spec() -> bool {
        true
    }

    open spec fn from_spec(v: FrameId) -> u64 {
        v.0
    }
}

impl From<u16> for FragmentId {
    fn from(v: u16) -> (r: Self)
        ensures
            r == FragmentId(v),
    {
        FragmentId(v)
    }
}

impl FromSpecImpl<u16> for FragmentId {
    open spec fn obeys_from_spec() -> bool {
        true
    }

    open spec fn from_spec(v: u16) -> Self {
        FragmentId(v)
    }
}

impl From<FragmentId> for u16 {
    fn from(v: FragmentId) -> (r: u16)
        ensures
            r == v.0,
    {
        v.0
    }
}

impl FromSpecImpl<FragmentId> for u16 {
    open spec fn obeys_from_spec() -> bool {
        true
    }

    open spec fn from_spec(v: FragmentId) -> u16 {
        v.0
    }
}

impl From<u32> for BitrateKbps {
    fn from(v: u32) -> (r: Self)
        ensures
            r == BitrateKbps(v),
    {
        BitrateKbps(v)
    }
}

impl FromSpecImpl<u32> for BitrateKbps {
    open spec fn obeys_from_spec() -> bool {
        true
    }

    open spec fn from_spec(v: u32) -> Self {
        BitrateKbps(v)
    }
}

impl From<BitrateKbps> for u32 {
    fn from(v: BitrateKbps) -> (r: u32)
        ensures
            r == v.0,
    {
        v.0
    }
}

impl FromSpecImpl<BitrateKbps> for u32 {
    open spec fn obeys_from_spec() -> bool {
        true
    }

    open spec fn from_spec(v: BitrateKbps) -> u32 {
        v.0
    }
}

impl From<u64> for VsyncPeriodNs {
    fn from(v: u64) -> (r: Self)
        ensures
            r == VsyncPeriodNs(v),
    {
        VsyncPeriodNs(v)
    }
}

impl FromSpecImpl<u64> for VsyncPeriodNs {
    open spec fn obeys_from_spec() -> bool {
        true
    }

    open spec fn from_spec(v: u64) -> Self {
        VsyncPeriodNs(v)
    }
}

impl From<VsyncPeriodNs> for u64 {
    fn from(v: VsyncPeriodNs) -> (r: u64)
        ensures
            r == v.0,
    {
        v.0
    }
}

impl FromSpecImpl<VsyncPeriodNs> for u64 {
    open spec fn obeys_from_spec() -> bool {
        true
    }

    open spec fn from_spec(v: VsyncPeriodNs) -> u64 {
        v.0
    }
}

impl From<u128> for ViewerId {
    fn from(v: u128) -> (r: Self)
        ensures
            r == ViewerId(v),
    {
        ViewerId(v)
    }
}

impl FromSpecImpl<u128> for ViewerId {
    open spec fn obeys_from_spec() -> bool {
        true
    }

    open spec fn from_spec(v: u128) -> Self {
        ViewerId(v)
    }
}

impl From<ViewerId> for u128 {
    fn from(v: ViewerId) -> (r: u128)
        ensures
            r == v.0,
    {
        v.0
    }
}

impl FromSpecImpl<ViewerId> for u128 {
    open spec fn obeys_from_spec() -> bool {
        true
    }

    open spec fn from_spec(v: ViewerId) -> u128 {
        v.0
    }
}

impl From<u128> for HostId {
    fn from(v: u128) -> (r: Self)
        ensures
            r == HostId(v),
    {
        HostId(v)
    }
}

impl FromSpecImpl<u128> for HostId {
    open spec fn obeys_from_spec() -> bool {
        true
    }

    open spec fn from_spec(v: u128) -> Self {
        HostId(v)
    }
}

impl From<HostId> for u128 {
    fn from(v: HostId) -> (r: u128)
        ensures
            r == v.0,
    {
        v.0
    }
}

impl FromSpecImpl<HostId> for u128 {
    open spec fn obeys_from_spec() -> bool {
        true
    }

    open spec fn from_spec(v: HostId) -> u128 {
        v.0
    }
}

} // verus!
