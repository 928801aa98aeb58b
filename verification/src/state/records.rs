use vstd::prelude::*;

use crate::state::utils::{
    le_bytes_of, le_u64_of, lemma_le_bytes_of_le_u64, read_le_u64, DataLen, Initialized, TypedView,
};

verus! {

// ---------------------------------------------------------------------------
// Permissions
// ---------------------------------------------------------------------------

/// Capability bit: may propose an action.
pub const PERMISSION_PROPOSE: u8 = 1;

/// Capability bit: may vote to approve an action. The threshold counts
/// members holding this bit.
pub const PERMISSION_VOTE: u8 = 2;

/// Capability bit: may execute an approved action.
pub const PERMISSION_EXECUTE: u8 = 4;

/// Whether a permission bitmask carries the approving (vote) capability.
pub open spec fn spec_can_vote(bits: u8) -> bool {
    bits & PERMISSION_VOTE != 0
}

/// A member's set of independent capability bits.
#[derive(Clone, Copy, Debug, PartialEq, Eq, Structural)]
pub struct Permission {
    pub bits: u8,
}

impl Permission {
    /// Whether this permission set allows proposing an action.
    pub fn can_propose(&self) -> (r: bool)
        ensures
            r == (self.bits & PERMISSION_PROPOSE != 0),
    {
        self.bits & PERMISSION_PROPOSE != 0
    }

    /// Whether this permission set allows approving an action.
    pub fn can_vote(&self) -> (r: bool)
        ensures
            r == spec_can_vote(self.bits),
    {
        self.bits & PERMISSION_VOTE != 0
    }

    /// Whether this permission set allows executing an approved action.
    pub fn can_execute(&self) -> (r: bool)
        ensures
            r == (self.bits & PERMISSION_EXECUTE != 0),
    {
        self.bits & PERMISSION_EXECUTE != 0
    }
}

// ---------------------------------------------------------------------------
// Member
// ---------------------------------------------------------------------------

/// Byte length of one member slot: a 32-byte identity and one permission
/// byte.
pub const MEMBER_LEN: usize = 33;

/// Fixed capacity of a config's member array, baked into the record layout.
pub const MAX_MEMBERS: usize = 10;

/// Mathematical view of one member slot.
#[verifier::ext_equal]
pub struct MemberView {
    pub identity: Seq<u8>,
    pub permissions: u8,
}

/// The member slot read from a 33-byte image.
pub open spec fn member_view_from(t: Seq<u8>) -> MemberView {
    MemberView { identity: t.subrange(0, 32), permissions: t[32] }
}

/// The 33-byte image of a member slot.
pub open spec fn member_bytes(m: MemberView) -> Seq<u8> {
    m.identity + seq![m.permissions]
}

/// Structural shape of a member slot: a 32-byte identity.
pub open spec fn member_wf(m: MemberView) -> bool {
    m.identity.len() == 32
}

/// One member of the group: a 32-byte identity and a permission bitmask.
/// Membership and permissions are read-only to the threshold-update
/// transition.
#[derive(Clone, Debug)]
pub struct Member {
    pub identity: Vec<u8>,
    pub permissions: Permission,
}

impl View for Member {
    type V = MemberView;

    open spec fn view(&self) -> MemberView {
        MemberView { identity: self.identity@, permissions: self.permissions.bits }
    }
}

impl DataLen for Member {
    open spec fn spec_len() -> usize {
        MEMBER_LEN
    }

    fn data_len() -> usize {
        MEMBER_LEN
    }
}

impl TypedView for Member {
    open spec fn spec_wf(v: MemberView) -> bool {
        member_wf(v)
    }

    open spec fn spec_load(s: Seq<u8>) -> MemberView {
        member_view_from(s)
    }

    open spec fn spec_bytes(v: MemberView) -> Seq<u8> {
        member_bytes(v)
    }

    proof fn lemma_load_wf(s: Seq<u8>) {
    }

    proof fn lemma_bytes_len(v: MemberView) {
    }

    proof fn lemma_bytes_of_load(s: Seq<u8>) {
        assert(member_bytes(member_view_from(s)) =~= s);
    }

    fn load(bytes: &[u8]) -> (r: Self) {
        let identity = vstd::slice::slice_to_vec(vstd::slice::slice_subrange(bytes, 0, 32));
        let permissions = Permission { bits: bytes[32] };
        let r = Member { identity, permissions };
        proof {
            assert(r@ =~= member_view_from(bytes@));
        }
        r
    }

    fn view_bytes(&self) -> (r: Vec<u8>) {
        let mut out: Vec<u8> = Vec::new();
        let mut j: usize = 0;
        while j < 32
            invariant
                self@.identity.len() == 32,
                j <= 32,
                out@ == self@.identity.take(j as int),
            decreases 32 - j,
        {
            out.push(self.identity[j]);
            proof {
                assert(out@ =~= self@.identity.take(j as int + 1));
            }
            j = j + 1;
        }
        out.push(self.permissions.bits);
        proof {
            assert(out@ =~= member_bytes(self@));
        }
        out
    }
}

// ---------------------------------------------------------------------------
// MultisigConfig
// ---------------------------------------------------------------------------

/// Byte length of the config record: the initialization marker, the 8-byte
/// threshold, the slots-used count, and `MAX_MEMBERS` member slots.
pub const MULTISIG_CONFIG_LEN: usize = 340;

/// Marker value of a populated slot.
pub const INIT_MARKER_LIVE: u8 = 1;

/// Mathematical view of the config record.
#[verifier::ext_equal]
pub struct MultisigConfigView {
    pub init_marker: u8,
    pub min_threshold: u64,
    pub member_count: u8,
    pub members: Seq<MemberView>,
}

/// The member slots read from a full config image.
pub open spec fn config_members_from(s: Seq<u8>) -> Seq<MemberView> {
    Seq::new(MAX_MEMBERS as nat, |i: int| member_view_from(s.subrange(10 + 33 * i, 43 + 33 * i)))
}

/// The byte image of the first `n` member slots, in slot order.
pub open spec fn members_cat(ms: Seq<MemberView>, n: int) -> Seq<u8>
    decreases n,
{
    if n <= 0 {
        Seq::empty()
    } else {
        members_cat(ms, n - 1) + member_bytes(ms[n - 1])
    }
}

/// Well-shaped member slots concatenate to 33 bytes each.
pub proof fn lemma_members_cat_len(ms: Seq<MemberView>, n: int)
    requires
        0 <= n,
        forall|i: int| 0 <= i < n ==> member_wf(#[trigger] ms[i]),
    ensures
        members_cat(ms, n).len() == 33 * n,
    decreases n,
{
    if n > 0 {
        lemma_members_cat_len(ms, n - 1);
    }
}

/// Re-serializing the member slots read from a config image yields the
/// image's member region, byte for byte.
pub proof fn lemma_members_cat_of_from(s: Seq<u8>, n: int)
    requires
        s.len() == MULTISIG_CONFIG_LEN,
        0 <= n <= MAX_MEMBERS,
    ensures
        members_cat(config_members_from(s), n) == s.subrange(10, 10 + 33 * n),
    decreases n,
{
    if n == 0 {
        assert(members_cat(config_members_from(s), 0) =~= s.subrange(10, 10));
    } else {
        lemma_members_cat_of_from(s, n - 1);
        let t = s.subrange(10 + 33 * (n - 1), 43 + 33 * (n - 1));
        assert(member_bytes(member_view_from(t)) =~= t);
        assert(s.subrange(10, 10 + 33 * (n - 1)) + t =~= s.subrange(10, 10 + 33 * n));
    }
}

/// The mutable configuration of the group: the approval threshold and the
/// fixed-capacity member array, with an explicit slots-used count.
#[derive(Clone, Debug)]
pub struct MultisigConfig {
    pub init_marker: u8,
    pub min_threshold: u64,
    pub member_count: u8,
    pub members: Vec<Member>,
}

impl View for MultisigConfig {
    type V = MultisigConfigView;

    open spec fn view(&self) -> MultisigConfigView {
        MultisigConfigView {
            init_marker: self.init_marker,
            min_threshold: self.min_threshold,
            member_count: self.member_count,
            members: self.members@.map_values(|m: Member| m@),
        }
    }
}

impl DataLen for MultisigConfig {
    open spec fn spec_len() -> usize {
        MULTISIG_CONFIG_LEN
    }

    fn data_len() -> usize {
        MULTISIG_CONFIG_LEN
    }
}

impl Initialized for MultisigConfig {
    open spec fn spec_initialized(v: MultisigConfigView) -> bool {
        v.init_marker == INIT_MARKER_LIVE
    }

    fn is_initialized(&self) -> bool {
        self.init_marker == INIT_MARKER_LIVE
    }
}

impl TypedView for MultisigConfig {
    open spec fn spec_wf(v: MultisigConfigView) -> bool {
        v.members.len() == MAX_MEMBERS && forall|i: int|
            0 <= i < v.members.len() ==> member_wf(#[trigger] v.members[i])
    }

    open spec fn spec_load(s: Seq<u8>) -> MultisigConfigView {
        MultisigConfigView {
            init_marker: s[0],
            min_threshold: le_u64_of(s.subrange(1, 9)),
            member_count: s[9],
            members: config_members_from(s),
        }
    }

    open spec fn spec_bytes(v: MultisigConfigView) -> Seq<u8> {
        seq![v.init_marker] + le_bytes_of(v.min_threshold) + seq![v.member_count] + members_cat(
            v.members,
            MAX_MEMBERS as int,
        )
    }

    proof fn lemma_load_wf(s: Seq<u8>) {
    }

    proof fn lemma_bytes_len(v: MultisigConfigView) {
        lemma_members_cat_len(v.members, MAX_MEMBERS as int);
    }

    proof fn lemma_bytes_of_load(s: Seq<u8>) {
        let v = Self::spec_load(s);
        lemma_members_cat_of_from(s, MAX_MEMBERS as int);
        lemma_le_bytes_of_le_u64(s.subrange(1, 9));
        assert(Self::spec_bytes(v) =~= s);
    }

    fn load(bytes: &[u8]) -> (r: Self) {
        let init_marker = bytes[0];
        let min_threshold = read_le_u64(bytes, 1);
        let member_count = bytes[9];
        let mut members: Vec<Member> = Vec::new();
        let mut i: usize = 0;
        while i < MAX_MEMBERS
            invariant
                bytes@.len() == MULTISIG_CONFIG_LEN,
                i <= MAX_MEMBERS,
                members@.len() == i,
                forall|j: int|
                    0 <= j < i ==> #[trigger] members@[j]@ == config_members_from(bytes@)[j],
            decreases MAX_MEMBERS - i,
        {
            let base = 10 + 33 * i;
            let identity = vstd::slice::slice_to_vec(
                vstd::slice::slice_subrange(bytes, base, base + 32),
            );
            let permissions = Permission { bits: bytes[base + 32] };
            let m = Member { identity, permissions };
            proof {
                assert(m@ =~= member_view_from(
                    bytes@.subrange(10 + 33 * (i as int), 43 + 33 * (i as int)),
                ));
            }
            members.push(m);
            i = i + 1;
        }
        let r = MultisigConfig { init_marker, min_threshold, member_count, members };
        proof {
            assert(r@.members =~= config_members_from(bytes@));
            assert(r@ =~= Self::spec_load(bytes@));
            Self::lemma_load_wf(bytes@);
        }
        r
    }

    fn view_bytes(&self) -> (r: Vec<u8>) {
        let mut out: Vec<u8> = Vec::new();
        out.push(self.init_marker);
        let v = self.min_threshold;
        proof {
            assert((v & 0xff) < 256 && ((v >> 8) & 0xff) < 256 && ((v >> 16) & 0xff) < 256 && ((v
                >> 24) & 0xff) < 256 && ((v >> 32) & 0xff) < 256 && ((v >> 40) & 0xff) < 256 && ((v
                >> 48) & 0xff) < 256 && ((v >> 56) & 0xff) < 256) by (bit_vector);
        }
        out.push((v & 0xff) as u8);
        out.push(((v >> 8) & 0xff) as u8);
        out.push(((v >> 16) & 0xff) as u8);
        out.push(((v >> 24) & 0xff) as u8);
        out.push(((v >> 32) & 0xff) as u8);
        out.push(((v >> 40) & 0xff) as u8);
        out.push(((v >> 48) & 0xff) as u8);
        out.push(((v >> 56) & 0xff) as u8);
        out.push(self.member_count);
        let ghost prefix = seq![self@.init_marker] + le_bytes_of(self@.min_threshold) + seq![
            self@.member_count,
        ];
        proof {
            assert(out@ =~= prefix);
        }
        let mut i: usize = 0;
        while i < MAX_MEMBERS
            invariant
                Self::spec_wf(self@),
                self.members@.len() == MAX_MEMBERS,
                i <= MAX_MEMBERS,
                out@ == prefix + members_cat(self@.members, i as int),
            decreases MAX_MEMBERS - i,
        {
            let m = &self.members[i];
            let mut j: usize = 0;
            while j < 32
                invariant
                    i < MAX_MEMBERS,
                    self.members@.len() == MAX_MEMBERS,
                    m@ == self@.members[i as int],
                    member_wf(m@),
                    j <= 32,
                    out@ == prefix + members_cat(self@.members, i as int) + m@.identity.take(
                        j as int,
                    ),
                decreases 32 - j,
            {
                out.push(m.identity[j]);
                proof {
                    assert(out@ =~= prefix + members_cat(self@.members, i as int)
                        + m@.identity.take(j as int + 1));
                }
                j = j + 1;
            }
            out.push(m.permissions.bits);
            proof {
                assert(m@.identity.take(32) =~= m@.identity);
                assert(out@ =~= prefix + members_cat(self@.members, i as int + 1));
            }
            i = i + 1;
        }
        proof {
            assert(out@ =~= Self::spec_bytes(self@));
        }
        out
    }
}

// ---------------------------------------------------------------------------
// Counting approving members
// ---------------------------------------------------------------------------

/// How many of the first `n` member slots hold the approving (vote)
/// capability.
pub open spec fn spec_count_approvers(ms: Seq<MemberView>, n: int) -> int
    decreases n,
{
    if n <= 0 {
        0
    } else {
        spec_count_approvers(ms, n - 1) + if spec_can_vote(ms[n - 1].permissions) {
            1int
        } else {
            0int
        }
    }
}

impl MultisigConfig {
    /// A config whose slots-used count fits the fixed capacity; anything else
    /// is corrupt storage.
    pub open spec fn spec_count_ok(v: MultisigConfigView) -> bool {
        v.member_count as int <= MAX_MEMBERS as int
    }

    /// The number of members, among the slots in use, holding the approving
    /// (vote) capability. The threshold must stay reachable: it can never
    /// exceed this count.
    pub fn approver_count(&self) -> (r: usize)
        requires
            Self::spec_wf(self@),
            Self::spec_count_ok(self@),
        ensures
            r == spec_count_approvers(self@.members, self.member_count as int),
            r <= MAX_MEMBERS,
    {
        let n = self.member_count as usize;
        let mut c: usize = 0;
        let mut i: usize = 0;
        while i < n
            invariant
                Self::spec_wf(self@),
                n == self@.member_count as int,
                n <= MAX_MEMBERS,
                self.members@.len() == MAX_MEMBERS,
                i <= n,
                c <= i,
                c == spec_count_approvers(self@.members, i as int),
            decreases n - i,
        {
            if self.members[i].permissions.can_vote() {
                c = c + 1;
            }
            i = i + 1;
        }
        c
    }
}

// ---------------------------------------------------------------------------
// Multisig (group root)
// ---------------------------------------------------------------------------

/// Byte length of the multisig root record: the initialization marker, the
/// 32-byte authority identity, and the config derivation bump.
pub const MULTISIG_LEN: usize = 34;

/// Mathematical view of the multisig root record.
#[verifier::ext_equal]
pub struct MultisigView {
    pub init_marker: u8,
    pub authority: Seq<u8>,
    pub config_bump: u8,
}

/// The group root record. It owns its config records by address derivation,
/// not by pointer: the config account's address is derived from this
/// account's address, never stored here.
#[derive(Clone, Debug)]
pub struct Multisig {
    pub init_marker: u8,
    pub authority: Vec<u8>,
    pub config_bump: u8,
}

impl View for Multisig {
    type V = MultisigView;

    open spec fn view(&self) -> MultisigView {
        MultisigView {
            init_marker: self.init_marker,
            authority: self.authority@,
            config_bump: self.config_bump,
        }
    }
}

impl DataLen for Multisig {
    open spec fn spec_len() -> usize {
        MULTISIG_LEN
    }

    fn data_len() -> usize {
        MULTISIG_LEN
    }
}

impl Initialized for Multisig {
    open spec fn spec_initialized(v: MultisigView) -> bool {
        v.init_marker == INIT_MARKER_LIVE
    }

    fn is_initialized(&self) -> bool {
        self.init_marker == INIT_MARKER_LIVE
    }
}

impl TypedView for Multisig {
    open spec fn spec_wf(v: MultisigView) -> bool {
        v.authority.len() == 32
    }

    open spec fn spec_load(s: Seq<u8>) -> MultisigView {
        MultisigView { init_marker: s[0], authority: s.subrange(1, 33), config_bump: s[33] }
    }

    open spec fn spec_bytes(v: MultisigView) -> Seq<u8> {
        seq![v.init_marker] + v.authority + seq![v.config_bump]
    }

    proof fn lemma_load_wf(s: Seq<u8>) {
    }

    proof fn lemma_bytes_len(v: MultisigView) {
    }

    proof fn lemma_bytes_of_load(s: Seq<u8>) {
        assert(Self::spec_bytes(Self::spec_load(s)) =~= s);
    }

    fn load(bytes: &[u8]) -> (r: Self) {
        let init_marker = bytes[0];
        let authority = vstd::slice::slice_to_vec(vstd::slice::slice_subrange(bytes, 1, 33));
        let config_bump = bytes[33];
        let r = Multisig { init_marker, authority, config_bump };
        proof {
            assert(r@ =~= Self::spec_load(bytes@));
        }
        r
    }

    fn view_bytes(&self) -> (r: Vec<u8>) {
        let mut out: Vec<u8> = Vec::new();
        out.push(self.init_marker);
        let mut j: usize = 0;
        while j < 32
            invariant
                self@.authority.len() == 32,
                j <= 32,
                out@ == seq![self@.init_marker] + self@.authority.take(j as int),
            decreases 32 - j,
        {
            out.push(self.authority[j]);
            proof {
                assert(out@ =~= seq![self@.init_marker] + self@.authority.take(j as int + 1));
            }
            j = j + 1;
        }
        out.push(self.config_bump);
        proof {
            assert(self@.authority.take(32) =~= self@.authority);
            assert(out@ =~= Self::spec_bytes(self@));
        }
        out
    }
}

} // verus!

