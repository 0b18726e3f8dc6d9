//! Sets of named bit flags, such as the events reported to a poll handle or the options of a
//! spawned process. Each flag set is a `Flags<S>` where `S` names the set and gives the mask of
//! all its named flags; a value never holds a bit outside that mask.
use core::marker::PhantomData;
use vstd::prelude::*;

verus! {

/// A family of named flags: the mask of all the bits that it names.
pub trait FlagSet {
    /// The union of all the named flags of the set.
    spec fn spec_all_bits() -> u32;

    /// The union of all the named flags of the set.
    fn all_bits() -> (r: u32)
        ensures
            r == Self::spec_all_bits(),
    ;
}

/// A set of flags of the family `S`.
#[derive(Debug, PartialEq, Eq, PartialOrd, Ord, Hash)]
pub struct Flags<S: FlagSet> {
    bits: u32,
    set: PhantomData<S>,
}

impl<S: FlagSet> Clone for Flags<S> {
    fn clone(&self) -> (r: Self)
        ensures
            r == *self,
    {
        *self
    }
}

impl<S: FlagSet> Copy for Flags<S> {

}

impl<S: FlagSet> Flags<S> {
    /// No bit outside the named flags of the family is set.
    #[verifier::type_invariant]
    spec fn only_named_bits(self) -> bool {
        self.bits & S::spec_all_bits() == self.bits
    }

    /// The raw bits of the set.
    pub closed spec fn view(self) -> u32 {
        self.bits
    }

    /// The raw bits of the set.
    pub fn bits(&self) -> (r: u32)
        ensures
            r == self@,
            r & S::spec_all_bits() == r,
    {
        proof {
            use_type_invariant(self);
        }
        self.bits
    }

    /// The empty set of flags.
    pub fn empty() -> (r: Self)
        ensures
            r@ == 0,
    {
        assert(0u32 & S::spec_all_bits() == 0u32) by (bit_vector);
        Flags { bits: 0, set: PhantomData }
    }

    /// The set of all the named flags.
    pub fn all() -> (r: Self)
        ensures
            r@ == S::spec_all_bits(),
    {
        let a = S::all_bits();
        assert(a & a == a) by (bit_vector);
        Flags { bits: a, set: PhantomData }
    }

    /// The flags named by `bits`, dropping every bit that names no flag of the family.
    pub fn from_bits_truncate(bits: u32) -> (r: Self)
        ensures
            r@ == bits & S::spec_all_bits(),
    {
        let a = S::all_bits();
        let b = bits & a;
        assert((bits & a) & a == bits & a) by (bit_vector);
        Flags { bits: b, set: PhantomData }
    }

    /// The flags named by `bits`, or `None` when `bits` holds a bit that names no flag of the
    /// family.
    pub fn from_bits(bits: u32) -> (r: Option<Self>)
        ensures
            r is Some <==> bits & S::spec_all_bits() == bits,
            r matches Some(f) ==> f@ == bits,
    {
        let a = S::all_bits();
        if bits & a == bits {
            Some(Flags { bits, set: PhantomData })
        } else {
            None
        }
    }

    /// Whether no flag is set.
    pub fn is_empty(&self) -> (r: bool)
        ensures
            r == (self@ == 0),
    {
        self.bits == 0
    }

    /// Whether every named flag is set.
    pub fn is_all(&self) -> (r: bool)
        ensures
            r == (self@ == S::spec_all_bits()),
    {
        self.bits == S::all_bits()
    }

    /// Whether every flag of `other` is set in `self`.
    pub fn contains(&self, other: Self) -> (r: bool)
        ensures
            r == (self@ & other@ == other@),
    {
        self.bits & other.bits == other.bits
    }

    /// Whether `self` and `other` have a flag in common.
    pub fn intersects(&self, other: Self) -> (r: bool)
        ensures
            r == (self@ & other@ != 0),
    {
        self.bits & other.bits != 0
    }

    /// The flags set in `self` or in `other`.
    pub fn union(self, other: Self) -> (r: Self)
        ensures
            r@ == self@ | other@,
    {
        proof {
            use_type_invariant(self);
            use_type_invariant(other);
        }
        let a = self.bits;
        let b = other.bits;
        let ghost m = S::spec_all_bits();
        assert((a | b) & m == a | b) by (bit_vector)
            requires
                a & m == a,
                b & m == b,
        ;
        Flags { bits: a | b, set: PhantomData }
    }

    /// The flags set in both `self` and `other`.
    pub fn intersection(self, other: Self) -> (r: Self)
        ensures
            r@ == self@ & other@,
    {
        proof {
            use_type_invariant(self);
        }
        let a = self.bits;
        let b = other.bits;
        let ghost m = S::spec_all_bits();
        assert((a & b) & m == a & b) by (bit_vector)
            requires
                a & m == a,
        ;
        Flags { bits: a & b, set: PhantomData }
    }

    /// The flags set in `self` and not in `other`.
    pub fn difference(self, other: Self) -> (r: Self)
        ensures
            r@ == self@ & !other@,
    {
        proof {
            use_type_invariant(self);
        }
        let a = self.bits;
        let b = other.bits;
        let ghost m = S::spec_all_bits();
        assert((a & !b) & m == a & !b) by (bit_vector)
            requires
                a & m == a,
        ;
        Flags { bits: a & !b, set: PhantomData }
    }

    /// The flags set in exactly one of `self` and `other`.
    pub fn symmetric_difference(self, other: Self) -> (r: Self)
        ensures
            r@ == self@ ^ other@,
    {
        proof {
            use_type_invariant(self);
            use_type_invariant(other);
        }
        let a = self.bits;
        let b = other.bits;
        let ghost m = S::spec_all_bits();
        assert((a ^ b) & m == a ^ b) by (bit_vector)
            requires
                a & m == a,
                b & m == b,
        ;
        Flags { bits: a ^ b, set: PhantomData }
    }

    /// The named flags that are not set in `self`.
    pub fn complement(self) -> (r: Self)
        ensures
            r@ == !self@ & S::spec_all_bits(),
    {
        let m = S::all_bits();
        let a = self.bits;
        let c = !a & m;
        assert((!a & m) & m == !a & m) by (bit_vector);
        Flags { bits: c, set: PhantomData }
    }

    /// Sets the flags of `other`.
    pub fn insert(&mut self, other: Self)
        ensures
            final(self)@ == old(self)@ | other@,
    {
        *self = self.union(other);
    }

    /// Clears the flags of `other`.
    pub fn remove(&mut self, other: Self)
        ensures
            final(self)@ == old(self)@ & !other@,
    {
        *self = self.difference(other);
    }

    /// Flips the flags of `other`: those that were set are cleared, the others are set.
    pub fn toggle(&mut self, other: Self)
        ensures
            final(self)@ == old(self)@ ^ other@,
    {
        *self = self.symmetric_difference(other);
    }

    /// Sets the flags of `other` when `value` is true, clears them when it is false.
    pub fn set(&mut self, other: Self, value: bool)
        ensures
            value ==> final(self)@ == old(self)@ | other@,
            !value ==> final(self)@ == old(self)@ & !other@,
    {
        if value {
            self.insert(other);
        } else {
            self.remove(other);
        }
    }
}

impl<S: FlagSet> core::ops::BitOrAssign for Flags<S> {
    /// Sets the flags of `other` (`insert`).
    fn bitor_assign(&mut self, other: Self)
        ensures
            final(self)@ == old(self)@ | other@,
    {
        self.insert(other);
    }
}

impl<S: FlagSet> core::ops::BitAndAssign for Flags<S> {
    /// Keeps only the flags that are also in `other`.
    fn bitand_assign(&mut self, other: Self)
        ensures
            final(self)@ == old(self)@ & other@,
    {
        *self = self.intersection(other);
    }
}

impl<S: FlagSet> core::ops::BitXorAssign for Flags<S> {
    /// Flips the flags of `other` (`toggle`).
    fn bitxor_assign(&mut self, other: Self)
        ensures
            final(self)@ == old(self)@ ^ other@,
    {
        self.toggle(other);
    }
}

impl<S: FlagSet> core::ops::SubAssign for Flags<S> {
    /// Clears the flags of `other` (`remove`).
    fn sub_assign(&mut self, other: Self)
        ensures
            final(self)@ == old(self)@ & !other@,
    {
        self.remove(other);
    }
}

impl<S: FlagSet> core::ops::BitOr for Flags<S> {
    type Output = Self;

    /// The union of two sets of flags.
    fn bitor(self, other: Self) -> (r: Self)
        ensures
            r@ == self@ | other@,
    {
        self.union(other)
    }
}

impl<S: FlagSet> vstd::std_specs::ops::BitOrSpecImpl for Flags<S> {
    open spec fn obeys_bitor_spec() -> bool {
        true
    }

    open spec fn bitor_req(self, other: Self) -> bool {
        true
    }

    closed spec fn bitor_spec(self, other: Self) -> Self {
        Flags { bits: self.bits | other.bits, set: PhantomData }
    }
}

impl<S: FlagSet> core::ops::BitAnd for Flags<S> {
    type Output = Self;

    /// The intersection of two sets of flags.
    fn bitand(self, other: Self) -> (r: Self)
        ensures
            r@ == self@ & other@,
    {
        self.intersection(other)
    }
}

impl<S: FlagSet> vstd::std_specs::ops::BitAndSpecImpl for Flags<S> {
    open spec fn obeys_bitand_spec() -> bool {
        true
    }

    open spec fn bitand_req(self, other: Self) -> bool {
        true
    }

    closed spec fn bitand_spec(self, other: Self) -> Self {
        Flags { bits: self.bits & other.bits, set: PhantomData }
    }
}

impl<S: FlagSet> core::ops::BitXor for Flags<S> {
    type Output = Self;

    /// The symmetric difference of two sets of flags.
    fn bitxor(self, other: Self) -> (r: Self)
        ensures
            r@ == self@ ^ other@,
    {
        self.symmetric_difference(other)
    }
}

impl<S: FlagSet> vstd::std_specs::ops::BitXorSpecImpl for Flags<S> {
    open spec fn obeys_bitxor_spec() -> bool {
        true
    }

    open spec fn bitxor_req(self, other: Self) -> bool {
        true
    }

    closed spec fn bitxor_spec(self, other: Self) -> Self {
        Flags { bits: self.bits ^ other.bits, set: PhantomData }
    }
}

impl<S: FlagSet> core::ops::Sub for Flags<S> {
    type Output = Self;

    /// The flags of `self` that are not in `other`.
    fn sub(self, other: Self) -> (r: Self)
        ensures
            r@ == self@ & !other@,
    {
        self.difference(other)
    }
}

impl<S: FlagSet> vstd::std_specs::ops::SubSpecImpl for Flags<S> {
    open spec fn obeys_sub_spec() -> bool {
        true
    }

    open spec fn sub_req(self, other: Self) -> bool {
        true
    }

    closed spec fn sub_spec(self, other: Self) -> Self {
        Flags { bits: self.bits & !other.bits, set: PhantomData }
    }
}

impl<S: FlagSet> core::ops::Not for Flags<S> {
    type Output = Self;

    /// The complement of a set of flags: the named flags that it does not hold.
    fn not(self) -> (r: Self)
        ensures
            r@ == !self@ & S::spec_all_bits(),
    {
        self.complement()
    }
}

impl<S: FlagSet> vstd::std_specs::ops::NotSpecImpl for Flags<S> {
    open spec fn obeys_not_spec() -> bool {
        true
    }

    open spec fn not_req(self) -> bool {
        true
    }

    closed spec fn not_spec(self) -> Self {
        Flags { bits: !self.bits & S::spec_all_bits(), set: PhantomData }
    }
}

} // verus!
verus! {

/// Truncating is idempotent: the bits of a truncated value already name only flags of the
/// family, so truncating them again keeps them all.
pub proof fn lemma_truncate_idempotent<S: FlagSet>(bits: u32)
    ensures
        (bits & S::spec_all_bits()) & S::spec_all_bits() == bits & S::spec_all_bits(),
{
    let m = S::spec_all_bits();
    assert((bits & m) & m == bits & m) by (bit_vector);
}

/// After `insert(other)` the set contains `other`, and still contains every flag that it held.
pub proof fn lemma_insert_contains(a: u32, other: u32)
    ensures
        (a | other) & other == other,
        (a | other) & a == a,
{
    assert((a | other) & other == other && (a | other) & a == a) by (bit_vector);
}

/// After `remove(other)` the set has no flag in common with `other`, and holds no flag that it
/// did not hold before.
pub proof fn lemma_remove_disjoint(a: u32, other: u32)
    ensures
        (a & !other) & other == 0,
        (a & !other) & a == a & !other,
{
    assert((a & !other) & other == 0 && (a & !other) & a == a & !other) by (bit_vector);
}

/// Inserting flags and then removing them leaves exactly the flags that were held and are not
/// among them.
pub proof fn lemma_insert_then_remove(a: u32, other: u32)
    ensures
        (a | other) & !other == a & !other,
{
    assert((a | other) & !other == a & !other) by (bit_vector);
}

/// The family of `FsEventFlags`.
#[derive(Debug, PartialEq, Eq, PartialOrd, Ord, Hash)]
pub struct FsEventFlagSet;

impl FlagSet for FsEventFlagSet {
    open spec fn spec_all_bits() -> u32 {
        0x7
    }

    fn all_bits() -> (r: u32) {
        0x7
    }
}

/// The flags of `FsEventHandle::start()`.
pub type FsEventFlags = Flags<FsEventFlagSet>;

#[allow(non_snake_case)]
impl Flags<FsEventFlagSet> {
    /// Report only changes to a watched directory entry itself, not to the entries in it.
    pub fn WATCHENTRY() -> (r: Self)
        ensures
            r@ == 0x1,
    {
        proof {
            lemma_named_bits();
        }
        Flags { bits: 0x1, set: PhantomData }
    }

    /// Poll with stat() on a regular interval in place of a kernel interface.
    pub fn STAT() -> (r: Self)
        ensures
            r@ == 0x2,
    {
        proof {
            lemma_named_bits();
        }
        Flags { bits: 0x2, set: PhantomData }
    }

    /// Also watch the subdirectories of a watched directory.
    pub fn RECURSIVE() -> (r: Self)
        ensures
            r@ == 0x4,
    {
        proof {
            lemma_named_bits();
        }
        Flags { bits: 0x4, set: PhantomData }
    }
}

/// The family of `FsEvent`.
#[derive(Debug, PartialEq, Eq, PartialOrd, Ord, Hash)]
pub struct FsEventSet;

impl FlagSet for FsEventSet {
    open spec fn spec_all_bits() -> u32 {
        0x3
    }

    fn all_bits() -> (r: u32) {
        0x3
    }
}

/// The events reported to a file-system event callback.
pub type FsEvent = Flags<FsEventSet>;

#[allow(non_snake_case)]
impl Flags<FsEventSet> {
    /// The file has been renamed.
    pub fn RENAME() -> (r: Self)
        ensures
            r@ == 0x1,
    {
        proof {
            lemma_named_bits();
        }
        Flags { bits: 0x1, set: PhantomData }
    }

    /// The file has changed.
    pub fn CHANGE() -> (r: Self)
        ensures
            r@ == 0x2,
    {
        proof {
            lemma_named_bits();
        }
        Flags { bits: 0x2, set: PhantomData }
    }
}

/// The family of `PollEvents`.
#[derive(Debug, PartialEq, Eq, PartialOrd, Ord, Hash)]
pub struct PollEventSet;

impl FlagSet for PollEventSet {
    open spec fn spec_all_bits() -> u32 {
        0xf
    }

    fn all_bits() -> (r: u32) {
        0xf
    }
}

/// The events that a poll handle watches for and reports.
pub type PollEvents = Flags<PollEventSet>;

#[allow(non_snake_case)]
impl Flags<PollEventSet> {
    /// The descriptor is readable.
    pub fn READABLE() -> (r: Self)
        ensures
            r@ == 0x1,
    {
        proof {
            lemma_named_bits();
        }
        Flags { bits: 0x1, set: PhantomData }
    }

    /// The descriptor is writable.
    pub fn WRITABLE() -> (r: Self)
        ensures
            r@ == 0x2,
    {
        proof {
            lemma_named_bits();
        }
        Flags { bits: 0x2, set: PhantomData }
    }

    /// The other end has disconnected.
    pub fn DISCONNECT() -> (r: Self)
        ensures
            r@ == 0x4,
    {
        proof {
            lemma_named_bits();
        }
        Flags { bits: 0x4, set: PhantomData }
    }

    /// Priority data (sysfs interrupts, TCP out-of-band data) is available.
    pub fn PRIORITIZED() -> (r: Self)
        ensures
            r@ == 0x8,
    {
        proof {
            lemma_named_bits();
        }
        Flags { bits: 0x8, set: PhantomData }
    }
}

/// The family of `StdioFlags`.
#[derive(Debug, PartialEq, Eq, PartialOrd, Ord, Hash)]
pub struct StdioFlagSet;

impl FlagSet for StdioFlagSet {
    open spec fn spec_all_bits() -> u32 {
        0x77
    }

    fn all_bits() -> (r: u32) {
        0x77
    }
}

/// How a stdio of a child process is passed to it.
pub type StdioFlags = Flags<StdioFlagSet>;

#[allow(non_snake_case)]
impl Flags<StdioFlagSet> {
    /// The stdio is not passed.
    pub fn IGNORE() -> (r: Self)
        ensures
            r@ == 0x0,
    {
        proof {
            lemma_named_bits();
        }
        Flags { bits: 0x0, set: PhantomData }
    }

    /// A new pipe is created for it.
    pub fn CREATE_PIPE() -> (r: Self)
        ensures
            r@ == 0x1,
    {
        proof {
            lemma_named_bits();
        }
        Flags { bits: 0x1, set: PhantomData }
    }

    /// The child inherits a file descriptor.
    pub fn INHERIT_FD() -> (r: Self)
        ensures
            r@ == 0x2,
    {
        proof {
            lemma_named_bits();
        }
        Flags { bits: 0x2, set: PhantomData }
    }

    /// The child inherits the descriptor of a stream.
    pub fn INHERIT_STREAM() -> (r: Self)
        ensures
            r@ == 0x4,
    {
        proof {
            lemma_named_bits();
        }
        Flags { bits: 0x4, set: PhantomData }
    }

    /// With CREATE_PIPE: the child reads from the pipe.
    pub fn READABLE_PIPE() -> (r: Self)
        ensures
            r@ == 0x10,
    {
        proof {
            lemma_named_bits();
        }
        Flags { bits: 0x10, set: PhantomData }
    }

    /// With CREATE_PIPE: the child writes to the pipe.
    pub fn WRITABLE_PIPE() -> (r: Self)
        ensures
            r@ == 0x20,
    {
        proof {
            lemma_named_bits();
        }
        Flags { bits: 0x20, set: PhantomData }
    }

    /// Open the child end of the pipe in overlapped (non-blocking) mode.
    pub fn OVERLAPPED_PIPE() -> (r: Self)
        ensures
            r@ == 0x40,
    {
        proof {
            lemma_named_bits();
        }
        Flags { bits: 0x40, set: PhantomData }
    }
}

/// The family of `ProcessFlags`.
#[derive(Debug, PartialEq, Eq, PartialOrd, Ord, Hash)]
pub struct ProcessFlagSet;

impl FlagSet for ProcessFlagSet {
    open spec fn spec_all_bits() -> u32 {
        0x7f
    }

    fn all_bits() -> (r: u32) {
        0x7f
    }
}

/// The options of a spawned process.
pub type ProcessFlags = Flags<ProcessFlagSet>;

#[allow(non_snake_case)]
impl Flags<ProcessFlagSet> {
    /// Set the child's user id.
    pub fn SETUID() -> (r: Self)
        ensures
            r@ == 0x1,
    {
        proof {
            lemma_named_bits();
        }
        Flags { bits: 0x1, set: PhantomData }
    }

    /// Set the child's group id.
    pub fn SETGID() -> (r: Self)
        ensures
            r@ == 0x2,
    {
        proof {
            lemma_named_bits();
        }
        Flags { bits: 0x2, set: PhantomData }
    }

    /// Do not quote or escape the arguments (Windows only).
    pub fn WINDOWS_VERBATIM_ARGUMENTS() -> (r: Self)
        ensures
            r@ == 0x4,
    {
        proof {
            lemma_named_bits();
        }
        Flags { bits: 0x4, set: PhantomData }
    }

    /// Spawn the child as the leader of a new process group.
    pub fn DETACHED() -> (r: Self)
        ensures
            r@ == 0x8,
    {
        proof {
            lemma_named_bits();
        }
        Flags { bits: 0x8, set: PhantomData }
    }

    /// Hide the window of the child (Windows only).
    pub fn WINDOWS_HIDE() -> (r: Self)
        ensures
            r@ == 0x10,
    {
        proof {
            lemma_named_bits();
        }
        Flags { bits: 0x10, set: PhantomData }
    }

    /// Hide the console window of the child (Windows only).
    pub fn WINDOWS_HIDE_CONSOLE() -> (r: Self)
        ensures
            r@ == 0x20,
    {
        proof {
            lemma_named_bits();
        }
        Flags { bits: 0x20, set: PhantomData }
    }

    /// Hide the GUI window of the child (Windows only).
    pub fn WINDOWS_HIDE_GUI() -> (r: Self)
        ensures
            r@ == 0x40,
    {
        proof {
            lemma_named_bits();
        }
        Flags { bits: 0x40, set: PhantomData }
    }
}

/// The family of `ChmodFlags`.
#[derive(Debug, PartialEq, Eq, PartialOrd, Ord, Hash)]
pub struct ChmodFlagSet;

impl FlagSet for ChmodFlagSet {
    open spec fn spec_all_bits() -> u32 {
        0x3
    }

    fn all_bits() -> (r: u32) {
        0x3
    }
}

/// The permissions granted by `PipeHandle::chmod()`.
pub type ChmodFlags = Flags<ChmodFlagSet>;

#[allow(non_snake_case)]
impl Flags<ChmodFlagSet> {
    /// Readable by all users.
    pub fn READABLE() -> (r: Self)
        ensures
            r@ == 0x1,
    {
        proof {
            lemma_named_bits();
        }
        Flags { bits: 0x1, set: PhantomData }
    }

    /// Writable by all users.
    pub fn WRITABLE() -> (r: Self)
        ensures
            r@ == 0x2,
    {
        proof {
            lemma_named_bits();
        }
        Flags { bits: 0x2, set: PhantomData }
    }
}

/// The family of `PipeFlags`.
#[derive(Debug, PartialEq, Eq, PartialOrd, Ord, Hash)]
pub struct PipeFlagSet;

impl FlagSet for PipeFlagSet {
    open spec fn spec_all_bits() -> u32 {
        0x40
    }

    fn all_bits() -> (r: u32) {
        0x40
    }
}

/// The flags of `pipe()`.
pub type PipeFlags = Flags<PipeFlagSet>;

#[allow(non_snake_case)]
impl Flags<PipeFlagSet> {
    /// Open the descriptor for non-blocking I/O.
    pub fn NONBLOCK_PIPE() -> (r: Self)
        ensures
            r@ == 0x40,
    {
        proof {
            lemma_named_bits();
        }
        Flags { bits: 0x40, set: PhantomData }
    }
}

/// The family of `TcpFlags`.
#[derive(Debug, PartialEq, Eq, PartialOrd, Ord, Hash)]
pub struct TcpFlagSet;

impl FlagSet for TcpFlagSet {
    open spec fn spec_all_bits() -> u32 {
        0xa
    }

    fn all_bits() -> (r: u32) {
        0xa
    }
}

/// The flags of `TcpHandle::new_ex()`: the address family of the socket (the values of Linux).
pub type TcpFlags = Flags<TcpFlagSet>;

#[allow(non_snake_case)]
impl Flags<TcpFlagSet> {
    /// No socket is created yet.
    pub fn AF_UNSPEC() -> (r: Self)
        ensures
            r@ == 0x0,
    {
        proof {
            lemma_named_bits();
        }
        Flags { bits: 0x0, set: PhantomData }
    }

    /// An IPv4 socket.
    pub fn AF_INET() -> (r: Self)
        ensures
            r@ == 0x2,
    {
        proof {
            lemma_named_bits();
        }
        Flags { bits: 0x2, set: PhantomData }
    }

    /// An IPv6 socket.
    pub fn AF_INET6() -> (r: Self)
        ensures
            r@ == 0xa,
    {
        proof {
            lemma_named_bits();
        }
        Flags { bits: 0xa, set: PhantomData }
    }
}

/// The family of `TcpBindFlags`.
#[derive(Debug, PartialEq, Eq, PartialOrd, Ord, Hash)]
pub struct TcpBindFlagSet;

impl FlagSet for TcpBindFlagSet {
    open spec fn spec_all_bits() -> u32 {
        0x1
    }

    fn all_bits() -> (r: u32) {
        0x1
    }
}

/// The flags of `TcpHandle::bind()`.
pub type TcpBindFlags = Flags<TcpBindFlagSet>;

#[allow(non_snake_case)]
impl Flags<TcpBindFlagSet> {
    /// Disable dual-stack support and use IPv6 only.
    pub fn IPV6ONLY() -> (r: Self)
        ensures
            r@ == 0x1,
    {
        proof {
            lemma_named_bits();
        }
        Flags { bits: 0x1, set: PhantomData }
    }
}

/// The family of `UdpFlags`.
#[derive(Debug, PartialEq, Eq, PartialOrd, Ord, Hash)]
pub struct UdpFlagSet;

impl FlagSet for UdpFlagSet {
    open spec fn spec_all_bits() -> u32 {
        0x10a
    }

    fn all_bits() -> (r: u32) {
        0x10a
    }
}

/// The flags of `UdpHandle::new_ex()`: the address family of the socket (the values of Linux), and whether recvmmsg is used.
pub type UdpFlags = Flags<UdpFlagSet>;

#[allow(non_snake_case)]
impl Flags<UdpFlagSet> {
    /// No socket is created yet.
    pub fn AF_UNSPEC() -> (r: Self)
        ensures
            r@ == 0x0,
    {
        proof {
            lemma_named_bits();
        }
        Flags { bits: 0x0, set: PhantomData }
    }

    /// An IPv4 socket.
    pub fn AF_INET() -> (r: Self)
        ensures
            r@ == 0x2,
    {
        proof {
            lemma_named_bits();
        }
        Flags { bits: 0x2, set: PhantomData }
    }

    /// An IPv6 socket.
    pub fn AF_INET6() -> (r: Self)
        ensures
            r@ == 0xa,
    {
        proof {
            lemma_named_bits();
        }
        Flags { bits: 0xa, set: PhantomData }
    }

    /// Use recvmmsg when it is available.
    pub fn RECVMMSG() -> (r: Self)
        ensures
            r@ == 0x100,
    {
        proof {
            lemma_named_bits();
        }
        Flags { bits: 0x100, set: PhantomData }
    }
}

/// The family of `UdpBindFlags`.
#[derive(Debug, PartialEq, Eq, PartialOrd, Ord, Hash)]
pub struct UdpBindFlagSet;

impl FlagSet for UdpBindFlagSet {
    open spec fn spec_all_bits() -> u32 {
        0x25
    }

    fn all_bits() -> (r: u32) {
        0x25
    }
}

/// The flags of `UdpHandle::bind()`.
pub type UdpBindFlags = Flags<UdpBindFlagSet>;

#[allow(non_snake_case)]
impl Flags<UdpBindFlagSet> {
    /// Disable dual-stack mode.
    pub fn IPV6ONLY() -> (r: Self)
        ensures
            r@ == 0x1,
    {
        proof {
            lemma_named_bits();
        }
        Flags { bits: 0x1, set: PhantomData }
    }

    /// Set SO_REUSEADDR (SO_REUSEPORT on the BSDs and macOS).
    pub fn REUSEADDR() -> (r: Self)
        ensures
            r@ == 0x4,
    {
        proof {
            lemma_named_bits();
        }
        Flags { bits: 0x4, set: PhantomData }
    }

    /// Set IP_RECVERR / IPV6_RECVERR (Linux only).
    pub fn RECVERR() -> (r: Self)
        ensures
            r@ == 0x20,
    {
        proof {
            lemma_named_bits();
        }
        Flags { bits: 0x20, set: PhantomData }
    }
}

/// The family of `UdpRecvFlags`.
#[derive(Debug, PartialEq, Eq, PartialOrd, Ord, Hash)]
pub struct UdpRecvFlagSet;

impl FlagSet for UdpRecvFlagSet {
    open spec fn spec_all_bits() -> u32 {
        0x1a
    }

    fn all_bits() -> (r: u32) {
        0x1a
    }
}

/// The flags passed to a UDP receive callback.
pub type UdpRecvFlags = Flags<UdpRecvFlagSet>;

#[allow(non_snake_case)]
impl Flags<UdpRecvFlagSet> {
    /// The message was truncated because the buffer was too small.
    pub fn PARTIAL() -> (r: Self)
        ensures
            r@ == 0x2,
    {
        proof {
            lemma_named_bits();
        }
        Flags { bits: 0x2, set: PhantomData }
    }

    /// The message was received by recvmmsg; the buffer must not be freed by the callback.
    pub fn MMSG_CHUNK() -> (r: Self)
        ensures
            r@ == 0x8,
    {
        proof {
            lemma_named_bits();
        }
        Flags { bits: 0x8, set: PhantomData }
    }

    /// The buffer filled by recvmmsg has been used up and should now be freed.
    pub fn MMSG_FREE() -> (r: Self)
        ensures
            r@ == 0x10,
    {
        proof {
            lemma_named_bits();
        }
        Flags { bits: 0x10, set: PhantomData }
    }
}

/// The family of `AddrInfoFlags`.
#[derive(Debug, PartialEq, Eq, PartialOrd, Ord, Hash)]
pub struct AddrInfoFlagSet;

impl FlagSet for AddrInfoFlagSet {
    open spec fn spec_all_bits() -> u32 {
        0x0
    }

    fn all_bits() -> (r: u32) {
        0x0
    }
}

/// The flags of an address lookup (none are named).
pub type AddrInfoFlags = Flags<AddrInfoFlagSet>;

/// Each named flag lies within the mask of its family.
proof fn lemma_named_bits()
    by (bit_vector)
    ensures
        0x1u32 & 0x7u32 == 0x1u32,
        0x2u32 & 0x7u32 == 0x2u32,
        0x4u32 & 0x7u32 == 0x4u32,
        0x1u32 & 0x3u32 == 0x1u32,
        0x2u32 & 0x3u32 == 0x2u32,
        0x1u32 & 0xfu32 == 0x1u32,
        0x2u32 & 0xfu32 == 0x2u32,
        0x4u32 & 0xfu32 == 0x4u32,
        0x8u32 & 0xfu32 == 0x8u32,
        0x0u32 & 0x77u32 == 0x0u32,
        0x1u32 & 0x77u32 == 0x1u32,
        0x2u32 & 0x77u32 == 0x2u32,
        0x4u32 & 0x77u32 == 0x4u32,
        0x10u32 & 0x77u32 == 0x10u32,
        0x20u32 & 0x77u32 == 0x20u32,
        0x40u32 & 0x77u32 == 0x40u32,
        0x1u32 & 0x7fu32 == 0x1u32,
        0x2u32 & 0x7fu32 == 0x2u32,
        0x4u32 & 0x7fu32 == 0x4u32,
        0x8u32 & 0x7fu32 == 0x8u32,
        0x10u32 & 0x7fu32 == 0x10u32,
        0x20u32 & 0x7fu32 == 0x20u32,
        0x40u32 & 0x7fu32 == 0x40u32,
        0x40u32 & 0x40u32 == 0x40u32,
        0x0u32 & 0xau32 == 0x0u32,
        0x2u32 & 0xau32 == 0x2u32,
        0xau32 & 0xau32 == 0xau32,
        0x1u32 & 0x1u32 == 0x1u32,
        0x0u32 & 0x10au32 == 0x0u32,
        0x2u32 & 0x10au32 == 0x2u32,
        0xau32 & 0x10au32 == 0xau32,
        0x100u32 & 0x10au32 == 0x100u32,
        0x1u32 & 0x25u32 == 0x1u32,
        0x4u32 & 0x25u32 == 0x4u32,
        0x20u32 & 0x25u32 == 0x20u32,
        0x2u32 & 0x1au32 == 0x2u32,
        0x8u32 & 0x1au32 == 0x8u32,
        0x10u32 & 0x1au32 == 0x10u32,
{
}

} // verus!
