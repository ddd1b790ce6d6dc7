use vstd::prelude::*;
use vstd::arithmetic::power2::{pow2, lemma_pow2_adds, lemma_pow2_strictly_increases, lemma2_to64};
use vstd::arithmetic::div_mod::lemma_div_by_multiple;
use vstd::arithmetic::mul::lemma_mul_is_associative;

verus! {

/// Number of bits in one byte.
pub const BYTE_IN_BITS: u32 = 8;

/// Number of bits in one decimal kilobyte (1000 bytes).
pub const KILOBYTE_IN_BITS: u32 = 1000 * BYTE_IN_BITS;

/// Number of bits in one decimal megabyte (1000 kilobytes).
pub const MEGABYTE_IN_BITS: u32 = 1000 * KILOBYTE_IN_BITS;

/// An amount of data, modeled as a number of bits and readable
/// as an amount of bits, bytes, kilobytes or megabytes.
///
/// Can represent a maximum of `u32::MAX` bits.
#[derive(Clone, Copy, Debug, PartialEq, Eq, Structural)]
pub struct DataSize {
    // Using u32 here is an arbitrary limit
    num_bits: u32,
}

impl View for DataSize {
    type V = nat;

    /// The mathematical model of a `DataSize` is its exact bit count.
    closed spec fn view(&self) -> nat {
        self.num_bits as nat
    }
}

impl PartialOrd for DataSize {
    /// Sizes order by their bit counts alone.
    fn partial_cmp(&self, other: &DataSize) -> (r: Option<core::cmp::Ordering>) {
        if self.num_bits < other.num_bits {
            Some(core::cmp::Ordering::Less)
        } else if self.num_bits == other.num_bits {
            Some(core::cmp::Ordering::Equal)
        } else {
            Some(core::cmp::Ordering::Greater)
        }
    }
}

impl vstd::std_specs::cmp::PartialOrdSpecImpl for DataSize {
    open spec fn obeys_partial_cmp_spec() -> bool {
        true
    }

    open spec fn partial_cmp_spec(&self, other: &DataSize) -> Option<core::cmp::Ordering> {
        if self@ < other@ {
            Some(core::cmp::Ordering::Less)
        } else if self@ == other@ {
            Some(core::cmp::Ordering::Equal)
        } else {
            Some(core::cmp::Ordering::Greater)
        }
    }
}

/// An operation that would leave the representable range fails with one
/// of these; each variant carries the two offending operands.
#[derive(Clone, Copy, Debug, PartialEq, Eq, Structural)]
pub enum DataSizeError {
    /// A product or sum of bit counts would exceed `u32::MAX`.
    Overflow { lhs: u32, rhs: u32 },
    /// A difference of bit counts would be negative.
    Underflow { lhs: u32, rhs: u32 },
}

/// The largest unsigned integer representable in `width` bits, capped at
/// the largest value a 32-bit field can hold.
pub open spec fn max_value_of(width: nat) -> nat {
    if width >= 32 {
        (pow2(32) - 1) as nat
    } else {
        (pow2(width) - 1) as nat
    }
}

/// Truncating number of whole bytes in a bit count.
pub open spec fn bytes_of(num_bits: nat) -> nat {
    num_bits / (BYTE_IN_BITS as nat)
}

/// Truncating number of whole kilobytes in a bit count: derived from
/// `bytes_of`, so the truncation compounds stage by stage.
pub open spec fn kilobytes_of(num_bits: nat) -> nat {
    bytes_of(num_bits) / 1000
}

/// Truncating number of whole megabytes in a bit count: derived from
/// `kilobytes_of`, so the truncation compounds stage by stage.
pub open spec fn megabytes_of(num_bits: nat) -> nat {
    kilobytes_of(num_bits) / 1000
}

impl DataSize {
    /// Create a DataSize from a number of bits
    pub fn new_from_bits(num_bits: u32) -> (r: DataSize)
        ensures
            r@ == num_bits as nat,
    {
        DataSize { num_bits }
    }

    /// Create a DataSize from a number of bytes
    pub fn new_from_bytes(num_bytes: u32) -> (r: Result<DataSize, DataSizeError>)
        ensures
            r is Ok <==> num_bytes as nat * BYTE_IN_BITS as nat <= u32::MAX as nat,
            r matches Ok(d) ==> d@ == num_bytes as nat * BYTE_IN_BITS as nat,
            r matches Err(e) ==> e == (DataSizeError::Overflow {
                lhs: num_bytes,
                rhs: BYTE_IN_BITS,
            }),
    {
        if num_bytes <= u32::MAX / BYTE_IN_BITS {
            Ok(DataSize { num_bits: num_bytes * BYTE_IN_BITS })
        } else {
            Err(DataSizeError::Overflow { lhs: num_bytes, rhs: BYTE_IN_BITS })
        }
    }

    /// Create a DataSize from a number of kilobytes
    pub fn new_from_kilobytes(num_kilobytes: u32) -> (r: Result<DataSize, DataSizeError>)
        ensures
            r is Ok <==> num_kilobytes as nat * KILOBYTE_IN_BITS as nat <= u32::MAX as nat,
            r matches Ok(d) ==> d@ == num_kilobytes as nat * KILOBYTE_IN_BITS as nat,
            r matches Err(e) ==> e == (DataSizeError::Overflow {
                lhs: num_kilobytes,
                rhs: KILOBYTE_IN_BITS,
            }),
    {
        if num_kilobytes <= u32::MAX / KILOBYTE_IN_BITS {
            Ok(DataSize { num_bits: num_kilobytes * KILOBYTE_IN_BITS })
        } else {
            Err(DataSizeError::Overflow { lhs: num_kilobytes, rhs: KILOBYTE_IN_BITS })
        }
    }

    /// Create a DataSize from a number of megabytes
    pub fn new_from_megabytes(num_megabytes: u32) -> (r: Result<DataSize, DataSizeError>)
        ensures
            r is Ok <==> num_megabytes as nat * MEGABYTE_IN_BITS as nat <= u32::MAX as nat,
            r matches Ok(d) ==> d@ == num_megabytes as nat * MEGABYTE_IN_BITS as nat,
            r matches Err(e) ==> e == (DataSizeError::Overflow {
                lhs: num_megabytes,
                rhs: MEGABYTE_IN_BITS,
            }),
    {
        if num_megabytes <= u32::MAX / MEGABYTE_IN_BITS {
            Ok(DataSize { num_bits: num_megabytes * MEGABYTE_IN_BITS })
        } else {
            Err(DataSizeError::Overflow { lhs: num_megabytes, rhs: MEGABYTE_IN_BITS })
        }
    }

    /// Add another DataSize to this one, yielding a new DataSize whose bit
    /// count is the exact sum, or an error when the sum would not fit.
    pub fn checked_add(self, other: DataSize) -> (r: Result<DataSize, DataSizeError>)
        ensures
            r is Ok <==> self@ + other@ <= u32::MAX as nat,
            r matches Ok(d) ==> d@ == self@ + other@,
            r matches Err(e) ==> e == (DataSizeError::Overflow {
                lhs: self@ as u32,
                rhs: other@ as u32,
            }),
    {
        if self.num_bits <= u32::MAX - other.num_bits {
            Ok(DataSize { num_bits: self.num_bits + other.num_bits })
        } else {
            Err(DataSizeError::Overflow { lhs: self.num_bits, rhs: other.num_bits })
        }
    }

    /// Subtract another DataSize from this one, yielding a new DataSize whose
    /// bit count is the exact difference, or an error when the difference
    /// would be negative.
    pub fn checked_sub(self, other: DataSize) -> (r: Result<DataSize, DataSizeError>)
        ensures
            r is Ok <==> other@ <= self@,
            r matches Ok(d) ==> d@ == self@ - other@,
            r matches Err(e) ==> e == (DataSizeError::Underflow {
                lhs: self@ as u32,
                rhs: other@ as u32,
            }),
    {
        if other.num_bits <= self.num_bits {
            Ok(DataSize { num_bits: self.num_bits - other.num_bits })
        } else {
            Err(DataSizeError::Underflow { lhs: self.num_bits, rhs: other.num_bits })
        }
    }

    /// Return the number of bits represented by this DataSize
    pub fn bits(&self) -> (r: u32)
        ensures
            r as nat == self@,
    {
        self.num_bits
    }

    /// Return the (truncated) number of bytes represented by this DataSize
    pub fn bytes(&self) -> (r: u32)
        ensures
            r as nat == bytes_of(self@),
    {
        self.num_bits / BYTE_IN_BITS
    }

    /// Return the (truncated) number of kilobytes represented by this DataSize
    pub fn kilobytes(&self) -> (r: u32)
        ensures
            r as nat == kilobytes_of(self@),
    {
        self.bytes() / 1000
    }

    /// Return the (truncated) number of megabytes represented by this DataSize
    pub fn megabytes(&self) -> (r: u32)
        ensures
            r as nat == megabytes_of(self@),
    {
        self.kilobytes() / 1000
    }

    /// Return the max value this [DataSize] can hold, reading the stored
    /// bit count as a bit *width*: the largest unsigned integer
    /// representable in that many bits. A width of 0 yields 0, and a width
    /// of 32 or more yields `u32::MAX`.
    pub fn max_value(&self) -> (r: u32)
        ensures
            r as nat == max_value_of(self@),
    {
        if self.num_bits >= 32 {
            proof {
                lemma2_to64();
            }
            u32::MAX
        } else {
            let width = self.num_bits;
            let mut max_value: u32 = 0;
            let mut i: u32 = 0;
            proof {
                lemma2_to64();
            }
            while i < width
                invariant
                    i <= width < 32,
                    max_value as nat == (pow2(i as nat) - 1) as nat,
                decreases width - i,
            {
                proof {
                    lemma_pow2_adds(i as nat, 1);
                    lemma2_to64();
                    lemma_pow2_strictly_increases((i + 1) as nat, 32);
                }
                max_value = 2 * max_value + 1;
                i = i + 1;
            }
            max_value
        }
    }
}

/// A DataSize's bit count always lies in the representable range: every
/// constructor and operator that would leave it fails instead.
pub proof fn lemma_bit_count_in_range(d: DataSize)
    ensures
        d@ <= u32::MAX as nat,
{
}

/// Two sizes are equal exactly when their bit counts are: the bit count is
/// the whole of a DataSize's state.
pub proof fn lemma_eq_bits(a: DataSize, b: DataSize)
    ensures
        a == b <==> a@ == b@,
{
}

/// Constructing a size from a bit count and reading the bit count back
/// gives the count unchanged, for every count.
pub proof fn lemma_bits_round_trip(d: DataSize, n: u32)
    requires
        d@ == n as nat,
    ensures
        d@ as u32 == n,
{
}

/// Constructing a size from a byte count and reading back whole bytes gives
/// the count unchanged whenever the construction succeeded: truncating
/// division by 8 inverts the constructor's multiplication.
pub proof fn lemma_bytes_round_trip(d: DataSize, n: u32)
    requires
        d@ == n as nat * BYTE_IN_BITS as nat,
    ensures
        bytes_of(d@) == n as nat,
{
    lemma_div_by_multiple(n as int, BYTE_IN_BITS as int);
}

/// Constructing a size from a kilobyte count and reading back whole
/// kilobytes gives the count unchanged whenever the construction succeeded,
/// even though whole kilobytes are computed by truncating twice.
pub proof fn lemma_kilobytes_round_trip(d: DataSize, n: u32)
    requires
        d@ == n as nat * KILOBYTE_IN_BITS as nat,
    ensures
        kilobytes_of(d@) == n as nat,
{
    lemma_mul_is_associative(n as int, 1000, BYTE_IN_BITS as int);
    lemma_div_by_multiple(n as int * 1000, BYTE_IN_BITS as int);
    lemma_div_by_multiple(n as int, 1000);
}

/// Constructing a size from a megabyte count and reading back whole
/// megabytes gives the count unchanged whenever the construction succeeded,
/// even though whole megabytes are computed by truncating three times.
pub proof fn lemma_megabytes_round_trip(d: DataSize, n: u32)
    requires
        d@ == n as nat * MEGABYTE_IN_BITS as nat,
    ensures
        megabytes_of(d@) == n as nat,
{
    lemma_mul_is_associative(n as int, 1000000int, BYTE_IN_BITS as int);
    lemma_div_by_multiple(n as int * 1000000, BYTE_IN_BITS as int);
    lemma_mul_is_associative(n as int, 1000, 1000);
    lemma_div_by_multiple(n as int * 1000, 1000);
    lemma_div_by_multiple(n as int, 1000);
}

} // verus!
