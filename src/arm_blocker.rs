//! The set of reasons why the vehicle may not be armed.

use vstd::prelude::*;

verus! {

/// One independent reason why arming (or staying armed) is disallowed.
#[derive(Clone, Copy, Debug, PartialEq, Eq, Structural)]
pub enum ArmFlag {
    /// The gyroscope is not calibrated.
    NoGyrCalib,
    /// The accelerometer is not calibrated.
    NoAccCalib,
    /// The gyroscope is being calibrated.
    GyrCalibrating,
    /// The accelerometer is being calibrated.
    AccCalibrating,
    /// No gyroscope data is available.
    NoGyrData,
    /// No accelerometer data is available.
    NoAccData,
    /// The commanded throttle is higher than allowed.
    HighThrottleCmd,
    /// The commanded attitude is higher than allowed.
    HighAttitudeCmd,
    /// The measured attitude is at an abnormally high angle.
    HighAttitude,
    /// Too little time has passed since boot.
    BootGrace,
    /// The system load is too high (the loop frequency is too low).
    SystemLoad,
    /// The receiver is in failsafe.
    RxFailsafe,
    /// The operator commands the vehicle to disarm. This is the only flag
    /// that disarms a vehicle that is already armed.
    CmdDisarm,
}

/// Mask of all bits that belong to a flag.
pub const ALL_BITS: u16 = 0x1FFF;

impl ArmFlag {
    /// The bit that stands for this flag in the mask.
    pub open spec fn spec_bit(self) -> u16 {
        match self {
            ArmFlag::NoGyrCalib => 0x0001,
            ArmFlag::NoAccCalib => 0x0002,
            ArmFlag::GyrCalibrating => 0x0004,
            ArmFlag::AccCalibrating => 0x0008,
            ArmFlag::NoGyrData => 0x0010,
            ArmFlag::NoAccData => 0x0020,
            ArmFlag::HighThrottleCmd => 0x0040,
            ArmFlag::HighAttitudeCmd => 0x0080,
            ArmFlag::HighAttitude => 0x0100,
            ArmFlag::BootGrace => 0x0200,
            ArmFlag::SystemLoad => 0x0400,
            ArmFlag::RxFailsafe => 0x0800,
            ArmFlag::CmdDisarm => 0x1000,
        }
    }

    /// The bit that stands for this flag in the mask.
    pub fn bit(self) -> (r: u16)
        ensures
            r == self.spec_bit(),
    {
        match self {
            ArmFlag::NoGyrCalib => 0x0001,
            ArmFlag::NoAccCalib => 0x0002,
            ArmFlag::GyrCalibrating => 0x0004,
            ArmFlag::AccCalibrating => 0x0008,
            ArmFlag::NoGyrData => 0x0010,
            ArmFlag::NoAccData => 0x0020,
            ArmFlag::HighThrottleCmd => 0x0040,
            ArmFlag::HighAttitudeCmd => 0x0080,
            ArmFlag::HighAttitude => 0x0100,
            ArmFlag::BootGrace => 0x0200,
            ArmFlag::SystemLoad => 0x0400,
            ArmFlag::RxFailsafe => 0x0800,
            ArmFlag::CmdDisarm => 0x1000,
        }
    }
}

/// Whether `m` is the bit of one of the flags.
pub open spec fn is_flag_bit(m: u16) -> bool {
    m == 0x0001 || m == 0x0002 || m == 0x0004 || m == 0x0008 || m == 0x0010 || m == 0x0020
        || m == 0x0040 || m == 0x0080 || m == 0x0100 || m == 0x0200 || m == 0x0400
        || m == 0x0800 || m == 0x1000
}

proof fn lemma_flag_bit(f: ArmFlag)
    ensures
        is_flag_bit(f.spec_bit()),
{
}

proof fn lemma_bit_ops(a: u16, b: u16, m: u16)
    requires
        is_flag_bit(m),
    ensures
        ((a | b) & m != 0) == (a & m != 0 || b & m != 0),
        ((a & !m) & m) == 0,
        (a | m) & m != 0,
        a <= 0x1FFF ==> (a | m) <= 0x1FFF,
        a <= 0x1FFF ==> (a & !m) <= 0x1FFF,
        a <= 0x1FFF && b <= 0x1FFF ==> (a | b) <= 0x1FFF,
        (a & 0x1FFF) <= 0x1FFF,
        ((a & 0x1FFF) & m != 0) == (a & m != 0),
        m <= 0x1FFF,
        (0u16 & m) == 0,
        (0x1FFFu16 & m) != 0,
{
    assert(((a | b) & m != 0) == (a & m != 0 || b & m != 0)) by (bit_vector)
        requires is_flag_bit(m);
    assert(((a & !m) & m) == 0) by (bit_vector);
    assert(a <= 0x1FFF ==> (a | m) <= 0x1FFF) by (bit_vector)
        requires is_flag_bit(m);
    assert(a <= 0x1FFF ==> (a & !m) <= 0x1FFF) by (bit_vector);
    assert(a <= 0x1FFF && b <= 0x1FFF ==> (a | b) <= 0x1FFF) by (bit_vector);
    assert((a & 0x1FFF) <= 0x1FFF) by (bit_vector);
    assert(((a & 0x1FFF) & m != 0) == (a & m != 0)) by (bit_vector)
        requires is_flag_bit(m);
    assert((a | m) & m != 0) by (bit_vector)
        requires is_flag_bit(m);
    assert((0u16 & m) == 0) by (bit_vector);
    assert((0x1FFFu16 & m) != 0) by (bit_vector)
        requires is_flag_bit(m);
}

/// A mask in which no bit but those of the flags is set has a flag set as
/// soon as it is not zero.
proof fn lemma_nonzero_has_flag(b: u16) -> (f: ArmFlag)
    requires
        b != 0,
        b <= 0x1FFF,
    ensures
        b & f.spec_bit() != 0,
{
    assert(b & 0x0001 != 0 || b & 0x0002 != 0 || b & 0x0004 != 0 || b & 0x0008 != 0
        || b & 0x0010 != 0 || b & 0x0020 != 0 || b & 0x0040 != 0 || b & 0x0080 != 0
        || b & 0x0100 != 0 || b & 0x0200 != 0 || b & 0x0400 != 0 || b & 0x0800 != 0
        || b & 0x1000 != 0) by (bit_vector)
        requires b != 0, b <= 0x1FFF;
    if b & 0x0001 != 0 {
        ArmFlag::NoGyrCalib
    } else if b & 0x0002 != 0 {
        ArmFlag::NoAccCalib
    } else if b & 0x0004 != 0 {
        ArmFlag::GyrCalibrating
    } else if b & 0x0008 != 0 {
        ArmFlag::AccCalibrating
    } else if b & 0x0010 != 0 {
        ArmFlag::NoGyrData
    } else if b & 0x0020 != 0 {
        ArmFlag::NoAccData
    } else if b & 0x0040 != 0 {
        ArmFlag::HighThrottleCmd
    } else if b & 0x0080 != 0 {
        ArmFlag::HighAttitudeCmd
    } else if b & 0x0100 != 0 {
        ArmFlag::HighAttitude
    } else if b & 0x0200 != 0 {
        ArmFlag::BootGrace
    } else if b & 0x0400 != 0 {
        ArmFlag::SystemLoad
    } else if b & 0x0800 != 0 {
        ArmFlag::RxFailsafe
    } else {
        ArmFlag::CmdDisarm
    }
}

/// The set of reasons why arming is currently disallowed. It is empty exactly
/// when the vehicle may be armed.
#[derive(Clone, Copy, Debug, PartialEq, Eq, Structural)]
pub struct ArmBlocker {
    bits: u16,
}

/// The set of flags whose bits are set in `b`.
pub open spec fn flags_of(b: u16) -> Set<ArmFlag> {
    Set::new(|f: ArmFlag| b & f.spec_bit() != 0)
}

impl View for ArmBlocker {
    type V = Set<ArmFlag>;

    closed spec fn view(&self) -> Set<ArmFlag> {
        flags_of(self.bits)
    }
}

impl ArmBlocker {
    #[verifier::type_invariant]
    spec fn inv(self) -> bool {
        self.bits <= ALL_BITS
    }

    /// The mask with no flag set.
    pub fn empty() -> (r: ArmBlocker)
        ensures
            r@ == Set::<ArmFlag>::empty(),
    {
        let r = ArmBlocker { bits: 0 };
        assert forall|f: ArmFlag| !r@.contains(f) by {
            lemma_flag_bit(f);
            lemma_bit_ops(0, 0, f.spec_bit());
        }
        assert(r@ =~= Set::<ArmFlag>::empty());
        r
    }

    /// The mask with every flag set.
    pub fn all() -> (r: ArmBlocker)
        ensures
            r@ == Set::<ArmFlag>::full(),
    {
        let r = ArmBlocker { bits: ALL_BITS };
        assert forall|f: ArmFlag| r@.contains(f) by {
            lemma_flag_bit(f);
            lemma_bit_ops(0, 0, f.spec_bit());
        }
        assert(r@ =~= Set::<ArmFlag>::full());
        r
    }

    /// The mask that holds `f` alone.
    pub fn from_flag(f: ArmFlag) -> (r: ArmBlocker)
        ensures
            r@ == set![f],
    {
        ArmBlocker::empty().with(f)
    }

    /// The mask of the flags whose bits are set in `bits`; other bits are
    /// dropped.
    pub fn from_bits_truncate(bits: u16) -> (r: ArmBlocker)
        ensures
            r@ == flags_of(bits),
    {
        proof {
            lemma_bit_ops(bits, 0, 1);
        }
        let r = ArmBlocker { bits: bits & ALL_BITS };
        assert forall|f: ArmFlag| r@.contains(f) == flags_of(bits).contains(f) by {
            lemma_flag_bit(f);
            lemma_bit_ops(bits, 0, f.spec_bit());
        }
        assert(r@ =~= flags_of(bits));
        r
    }

    /// The bits of the mask: one for each flag in it, and no other.
    pub fn bits(&self) -> (r: u16)
        ensures
            r <= ALL_BITS,
            flags_of(r) == self@,
    {
        proof {
            use_type_invariant(self);
        }
        self.bits
    }

    /// Whether no flag is set.
    pub fn is_empty(&self) -> (r: bool)
        ensures
            r == (self@ == Set::<ArmFlag>::empty()),
    {
        proof {
            use_type_invariant(self);
            if self.bits == 0 {
                assert forall|f: ArmFlag| !self@.contains(f) by {
                    lemma_flag_bit(f);
                    lemma_bit_ops(0, 0, f.spec_bit());
                }
                assert(self@ =~= Set::<ArmFlag>::empty());
            } else {
                let f = lemma_nonzero_has_flag(self.bits);
                assert(self@.contains(f));
            }
        }
        self.bits == 0
    }

    /// Whether `f` is set.
    pub fn contains(&self, f: ArmFlag) -> (r: bool)
        ensures
            r == self@.contains(f),
    {
        self.bits & f.bit() != 0
    }

    /// The mask of the flags set in either mask.
    pub fn union(&self, other: &ArmBlocker) -> (r: ArmBlocker)
        ensures
            r@ == self@.union(other@),
    {
        proof {
            use_type_invariant(self);
            use_type_invariant(other);
            lemma_bit_ops(self.bits, other.bits, 1);
        }
        let r = ArmBlocker { bits: self.bits | other.bits };
        assert forall|f: ArmFlag| r@.contains(f) == self@.union(other@).contains(f) by {
            lemma_flag_bit(f);
            lemma_bit_ops(self.bits, other.bits, f.spec_bit());
        }
        assert(r@ =~= self@.union(other@));
        r
    }

    /// This mask with `f` set as well.
    pub fn with(&self, f: ArmFlag) -> (r: ArmBlocker)
        ensures
            r@ == self@.insert(f),
    {
        proof {
            use_type_invariant(self);
            lemma_flag_bit(f);
            lemma_bit_ops(self.bits, 0, f.spec_bit());
        }
        let r = ArmBlocker { bits: self.bits | f.bit() };
        assert forall|g: ArmFlag| r@.contains(g) == self@.insert(f).contains(g) by {
            lemma_flag_bit(g);
            lemma_bit_ops(self.bits, f.spec_bit(), g.spec_bit());
            assert(f.spec_bit() & g.spec_bit() != 0 <==> f == g) by {
                lemma_distinct_bits(f, g);
            }
        }
        assert(r@ =~= self@.insert(f));
        r
    }

    /// This mask with `f` cleared.
    pub fn without(&self, f: ArmFlag) -> (r: ArmBlocker)
        ensures
            r@ == self@.remove(f),
    {
        proof {
            use_type_invariant(self);
            lemma_flag_bit(f);
            lemma_bit_ops(self.bits, 0, f.spec_bit());
        }
        let r = ArmBlocker { bits: self.bits & !f.bit() };
        assert forall|g: ArmFlag| r@.contains(g) == self@.remove(f).contains(g) by {
            lemma_flag_bit(g);
            lemma_distinct_bits(f, g);
            let (a, m, n) = (self.bits, f.spec_bit(), g.spec_bit());
            assert(is_flag_bit(m) && is_flag_bit(n) ==> ((a & !m) & n != 0) == (a & n != 0 && m & n == 0))
                by (bit_vector);
        }
        assert(r@ =~= self@.remove(f));
        r
    }
}

proof fn lemma_distinct_bits(f: ArmFlag, g: ArmFlag)
    ensures
        (f.spec_bit() & g.spec_bit() != 0) == (f == g),
{
    let a = f.spec_bit();
    let b = g.spec_bit();
    lemma_flag_bit(f);
    lemma_flag_bit(g);
    assert(is_flag_bit(a) && is_flag_bit(b) ==> ((a & b != 0) == (a == b))) by (bit_vector);
}

} // verus!
