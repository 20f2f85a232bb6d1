//! Endianness-tagging wrappers for fixed-size scalar values.
//!
//! A value read from a binary source can be wrapped as [`Endian::Native`]
//! and carried around untouched; only when it is consumed does the caller
//! decide whether to read it as little-endian, big-endian, or in the
//! machine's own byte order. The wrapper then reverses the payload's bytes
//! exactly when the source order and the requested order disagree.

use vstd::prelude::*;

pub mod scalar;

pub use scalar::Scalar;

verus! {

/// The byte-order probe observed neither of the two expected byte
/// patterns. No conventional architecture produces this; the variant is
/// kept so that the failure stays a checked outcome rather than an
/// assumed impossibility.
#[derive(Clone, Copy, Debug, PartialEq, Eq)]
pub enum Error {
    UnknownArchitecture,
}

/// A scalar value tagged with the byte order its payload is stored in.
///
/// `Little` and `Big` mean the payload's bytes are known to be in that
/// order; `Native` means the payload is laid out however the current
/// machine lays out scalars, left unresolved until a cast asks for it.
/// With payload type `()` the same enum serves as a bare byte-order tag.
#[derive(Clone, Copy, Debug, PartialEq, Eq)]
pub enum Endian<T> {
    Little(T),
    Big(T),
    Native(T),
}

/// Relies on `u16::to_ne_bytes`: the result is the value's memory
/// representation, its two bytes either in little-endian order (low byte
/// first) or in big-endian order (high byte first), whichever the machine
/// uses.
#[verifier::external_body]
fn native_order_bytes(value: u16) -> (r: (u8, u8))
    ensures
        (r.0 == (value & 0xff) as u8 && r.1 == ((value >> 8) & 0xff) as u8) || (r.0 == ((value >> 8)
            & 0xff) as u8 && r.1 == (value & 0xff) as u8),
{
    let bytes = value.to_ne_bytes();
    (bytes[0], bytes[1])
}

/// Determines at runtime whether the machine stores scalars little- or
/// big-endian, by writing a two-byte pattern and looking at which byte
/// comes first in memory.
///
/// The error branch is kept although no conventional architecture can
/// reach it: the contract still promises an order, so callers may rely on
/// the probe succeeding while the failure stays representable.
pub fn get_native_endianness() -> (r: Result<Endian<()>, Error>)
    ensures
        r == Ok::<Endian<()>, Error>(Endian::Little(())) || r == Ok::<Endian<()>, Error>(
            Endian::Big(()),
        ),
{
    let (first, _second) = native_order_bytes(0x1234u16);
    proof {
        assert((0x1234u16 & 0xff) as u8 == 0x34u8 && ((0x1234u16 >> 8) & 0xff) as u8 == 0x12u8)
            by (bit_vector);
    }
    match first {
        0x34u8 => Ok(Endian::Little(())),
        0x12u8 => Ok(Endian::Big(())),
        _ => Err(Error::UnknownArchitecture),
    }
}

/// What a cast to little-endian returns, once the probe's answer is
/// known: a payload tagged `Little` is handed back as it is, one tagged
/// `Big` is byte-reversed, and one tagged `Native` goes by the probed
/// order, failing if the probe failed or answered with the unresolvable
/// `Native` tag.
pub open spec fn as_little_spec<T: Scalar>(e: Endian<T>, probe: Result<Endian<()>, Error>) -> Option<
    T,
> {
    match e {
        Endian::Little(v) => Some(v),
        Endian::Big(v) => Some(v.swapped_spec()),
        Endian::Native(v) => match probe {
            Ok(Endian::Little(())) => Some(v),
            Ok(Endian::Big(())) => Some(v.swapped_spec()),
            _ => None,
        },
    }
}

/// What a cast to big-endian returns once the probe's answer is known;
/// the mirror image of [`as_little_spec`].
pub open spec fn as_big_spec<T: Scalar>(e: Endian<T>, probe: Result<Endian<()>, Error>) -> Option<
    T,
> {
    match e {
        Endian::Little(v) => Some(v.swapped_spec()),
        Endian::Big(v) => Some(v),
        Endian::Native(v) => match probe {
            Ok(Endian::Little(())) => Some(v.swapped_spec()),
            Ok(Endian::Big(())) => Some(v),
            _ => None,
        },
    }
}

/// What a cast to the machine's own order returns once the probe's answer
/// is known: a `Native` payload already is in that order; a `Little` or
/// `Big` payload is byte-reversed exactly when its tag disagrees with the
/// probed order.
pub open spec fn as_native_spec<T: Scalar>(e: Endian<T>, probe: Result<Endian<()>, Error>) -> Option<
    T,
> {
    match e {
        Endian::Little(v) => match probe {
            Ok(Endian::Little(())) => Some(v),
            Ok(Endian::Big(())) => Some(v.swapped_spec()),
            _ => None,
        },
        Endian::Big(v) => match probe {
            Ok(Endian::Little(())) => Some(v.swapped_spec()),
            Ok(Endian::Big(())) => Some(v),
            _ => None,
        },
        Endian::Native(v) => Some(v),
    }
}

/// What [`Endian::cast`] returns once the probe's answer is known:
/// dispatch on the requested order.
pub open spec fn cast_spec<T: Scalar>(
    e: Endian<T>,
    order: Endian<()>,
    probe: Result<Endian<()>, Error>,
) -> Option<T> {
    match order {
        Endian::Little(()) => as_little_spec(e, probe),
        Endian::Big(()) => as_big_spec(e, probe),
        Endian::Native(()) => as_native_spec(e, probe),
    }
}

/// What [`Endian::unpack`] returns once the probe's answer is known: the
/// native cast's value, or the payload type's zero value where that cast
/// fails.
pub open spec fn unpack_spec<T: Scalar>(e: Endian<T>, probe: Result<Endian<()>, Error>) -> T {
    match as_native_spec(e, probe) {
        Some(v) => v,
        None => T::zero_spec(),
    }
}

/// The value `v` wrapped under the byte-order tag `order`.
pub open spec fn with_order<T: Scalar>(v: T, order: Endian<()>) -> Endian<T> {
    match order {
        Endian::Little(()) => Endian::Little(v),
        Endian::Big(()) => Endian::Big(v),
        Endian::Native(()) => Endian::Native(v),
    }
}

impl<T> Endian<T> {
    /// Wraps a freshly parsed value; its bytes are whatever the machine
    /// produced, so the tag is `Native`.
    pub fn new(value: T) -> (r: Endian<T>)
        ensures
            r == Endian::Native(value),
    {
        Endian::Native(value)
    }

    /// True exactly when the tag is `Little`.
    pub fn is_little(&self) -> (r: bool)
        ensures
            r == (*self is Little),
    {
        match self {
            Endian::Little(_) => true,
            Endian::Big(_) => false,
            Endian::Native(_) => false,
        }
    }

    /// True exactly when the tag is `Big`.
    pub fn is_big(&self) -> (r: bool)
        ensures
            r == (*self is Big),
    {
        match self {
            Endian::Little(_) => false,
            Endian::Big(_) => true,
            Endian::Native(_) => false,
        }
    }

    /// True exactly when the tag is `Native`.
    pub fn is_native(&self) -> (r: bool)
        ensures
            r == (*self is Native),
    {
        match self {
            Endian::Little(_) => false,
            Endian::Big(_) => false,
            Endian::Native(_) => true,
        }
    }
}

impl<T: Scalar> Endian<T> {
    /// Builds the `Native`-tagged value whose memory representation is
    /// `bytes`, `probe` standing in for the byte-order probe's answer:
    /// under a little-endian answer the value's little-endian bytes are
    /// `bytes` themselves, under a big-endian answer their reversal. A
    /// buffer of the wrong length, a failed probe, or an unresolvable
    /// probe answer yields no value.
    pub fn from_ne_bytes_with(bytes: &Vec<u8>, probe: Result<Endian<()>, Error>) -> (r: Option<
        Endian<T>,
    >)
        ensures
            bytes@.len() != T::width_spec() ==> r is None,
            (probe matches Ok(o) && o is Little && bytes@.len() == T::width_spec()) ==> (r matches
                Some(e) && e matches Endian::Native(v) && v.le_bytes() == bytes@),
            (probe matches Ok(o) && o is Big && bytes@.len() == T::width_spec()) ==> (r matches
                Some(e) && e matches Endian::Native(v) && v.le_bytes() == bytes@.reverse()),
            (probe matches Ok(o) ==> o is Native) ==> r is None,
    {
        let n = T::width();
        if bytes.len() != n {
            return None;
        }
        let value = T::from_le(bytes);
        match probe {
            Ok(Endian::Little(())) => Some(Endian::Native(value)),
            Ok(Endian::Big(())) => {
                proof {
                    value.lemma_swapped_le_bytes();
                }
                Some(Endian::Native(value.swapped()))
            },
            _ => None,
        }
    }

    /// Reads `T`'s width in bytes from the stream and wraps the scalar
    /// they spell as `Native`, the stream having handed them over in the
    /// machine's own layout. A short read, any other stream error, or a
    /// failed probe yields no value — never partial data.
    pub fn from_stream<StreamT: std::io::Read>(stream: &mut StreamT) -> (r: Option<Endian<T>>)
        ensures
            r matches Some(e) ==> e is Native,
    {
        let n = T::width();
        let mut buffer: Vec<u8> = Vec::new();
        let mut i: usize = 0;
        while i < n
            invariant
                i <= n,
                buffer@.len() == i,
            decreases n - i,
        {
            buffer.push(0u8);
            i = i + 1;
        }
        if read_exact_into(stream, &mut buffer) {
            Self::from_ne_bytes_with(&buffer, get_native_endianness())
        } else {
            None
        }
    }

    /// Casts to little-endian, `probe` standing in for the byte-order
    /// probe's answer. Exact on every outcome, including a failed probe.
    pub fn as_little_with(&self, probe: Result<Endian<()>, Error>) -> (r: Option<T>)
        ensures
            r == as_little_spec(*self, probe),
    {
        match self {
            Endian::Little(value) => Some(*value),
            Endian::Big(value) => Some(value.swapped()),
            Endian::Native(value) => match probe {
                Err(_) => None,
                Ok(order) => match order {
                    Endian::Little(()) => Some(*value),
                    Endian::Big(()) => Some(value.swapped()),
                    // the machine's order resolving to `Native` again would never resolve
                    Endian::Native(()) => None,
                },
            },
        }
    }

    /// Casts the wrapped value to little-endian byte order.
    ///
    /// A `Little` payload is returned unchanged, whatever the probe would
    /// say; a `Big` payload is byte-reversed; a `Native` payload is
    /// resolved by the byte-order probe.
    pub fn as_little(&self) -> (r: Option<T>)
        ensures
            *self matches Endian::Little(v) ==> r == Some(v),
            *self matches Endian::Big(v) ==> r == Some(v.swapped_spec()),
            *self matches Endian::Native(v) ==> r == Some(v) || r == Some(v.swapped_spec()),
            r is Some,
    {
        self.as_little_with(get_native_endianness())
    }

    /// Casts to big-endian, `probe` standing in for the byte-order
    /// probe's answer. Exact on every outcome, including a failed probe.
    pub fn as_big_with(&self, probe: Result<Endian<()>, Error>) -> (r: Option<T>)
        ensures
            r == as_big_spec(*self, probe),
    {
        match self {
            Endian::Little(value) => Some(value.swapped()),
            Endian::Big(value) => Some(*value),
            Endian::Native(value) => match probe {
                Err(_) => None,
                Ok(order) => match order {
                    Endian::Little(()) => Some(value.swapped()),
                    Endian::Big(()) => Some(*value),
                    // the machine's order resolving to `Native` again would never resolve
                    Endian::Native(()) => None,
                },
            },
        }
    }

    /// Casts the wrapped value to big-endian byte order.
    ///
    /// A `Big` payload is returned unchanged, whatever the probe would
    /// say; a `Little` payload is byte-reversed; a `Native` payload is
    /// resolved by the byte-order probe.
    pub fn as_big(&self) -> (r: Option<T>)
        ensures
            *self matches Endian::Big(v) ==> r == Some(v),
            *self matches Endian::Little(v) ==> r == Some(v.swapped_spec()),
            *self matches Endian::Native(v) ==> r == Some(v) || r == Some(v.swapped_spec()),
            r is Some,
    {
        self.as_big_with(get_native_endianness())
    }

    /// Casts to the machine's own order, `probe` standing in for the
    /// byte-order probe's answer. Exact on every outcome, including a
    /// failed probe.
    pub fn as_native_with(&self, probe: Result<Endian<()>, Error>) -> (r: Option<T>)
        ensures
            r == as_native_spec(*self, probe),
    {
        match self {
            Endian::Little(value) => match probe {
                Err(_) => None,
                Ok(order) => match order {
                    Endian::Little(()) => Some(*value),
                    Endian::Big(()) => Some(value.swapped()),
                    // the machine's order resolving to `Native` again would never resolve
                    Endian::Native(()) => None,
                },
            },
            Endian::Big(value) => match probe {
                Err(_) => None,
                Ok(order) => match order {
                    Endian::Little(()) => Some(value.swapped()),
                    Endian::Big(()) => Some(*value),
                    // the machine's order resolving to `Native` again would never resolve
                    Endian::Native(()) => None,
                },
            },
            Endian::Native(value) => Some(*value),
        }
    }

    /// Casts the wrapped value to the machine's own byte order.
    ///
    /// A `Native` payload is returned unchanged, with no probe needed; a
    /// `Little` or `Big` payload is byte-reversed exactly when its tag
    /// disagrees with the probed machine order.
    pub fn as_native(&self) -> (r: Option<T>)
        ensures
            *self matches Endian::Native(v) ==> r == Some(v),
            *self matches Endian::Little(v) ==> r == Some(v) || r == Some(v.swapped_spec()),
            *self matches Endian::Big(v) ==> r == Some(v) || r == Some(v.swapped_spec()),
            r is Some,
    {
        self.as_native_with(get_native_endianness())
    }

    /// Casts to the requested order, `probe` standing in for the
    /// byte-order probe's answer. Exact on every outcome, including a
    /// failed probe.
    pub fn cast_with(&self, order: Endian<()>, probe: Result<Endian<()>, Error>) -> (r: Option<T>)
        ensures
            r == cast_spec(*self, order, probe),
    {
        match order {
            Endian::Little(()) => self.as_little_with(probe),
            Endian::Big(()) => self.as_big_with(probe),
            Endian::Native(()) => self.as_native_with(probe),
        }
    }

    /// Casts the wrapped value to the order requested by `order`, a bare
    /// byte-order tag held as data: the one entry point for callers that
    /// carry the target order in a variable.
    pub fn cast(&self, order: Endian<()>) -> (r: Option<T>)
        ensures
            r == cast_spec(*self, order, Ok::<Endian<()>, Error>(Endian::Little(()))) || r
                == cast_spec(*self, order, Ok::<Endian<()>, Error>(Endian::Big(()))),
            r is Some,
    {
        match order {
            Endian::Little(()) => self.as_little(),
            Endian::Big(()) => self.as_big(),
            Endian::Native(()) => self.as_native(),
        }
    }

    /// Unpacks as a native-endian value, `probe` standing in for the
    /// byte-order probe's answer; the zero value stands in where the cast
    /// fails.
    pub fn unpack_with(&self, probe: Result<Endian<()>, Error>) -> (r: T)
        ensures
            r == unpack_spec(*self, probe),
    {
        match self.as_native_with(probe) {
            Some(value) => value,
            None => T::zeroed(),
        }
    }

    /// Unpacks the wrapped value as a native-endian scalar, substituting
    /// the payload type's zero value if the cast fails.
    ///
    /// Lossy: a failed cast is indistinguishable from a genuine zero, so
    /// callers that cannot afford silent substitution must use
    /// [`Endian::as_native`] or [`Endian::cast`] and handle the failure
    /// themselves.
    pub fn unpack(&self) -> (r: T)
        ensures
            *self matches Endian::Native(v) ==> r == v,
            *self matches Endian::Little(v) ==> r == v || r == v.swapped_spec(),
            *self matches Endian::Big(v) ==> r == v || r == v.swapped_spec(),
    {
        match self.as_native() {
            Some(value) => value,
            None => T::zeroed(),
        }
    }
}

/// Relies on `std::io::Read::read_exact`: on success the whole buffer has
/// been filled with the stream's next bytes; on any error, a short read
/// included, no value is produced. Either way the buffer keeps its
/// length.
#[verifier::external_body]
fn read_exact_into<StreamT: std::io::Read>(stream: &mut StreamT, buffer: &mut Vec<u8>) -> (r: bool)
    ensures
        final(buffer)@.len() == old(buffer)@.len(),
{
    stream.read_exact(buffer.as_mut_slice()).is_ok()
}

/// A cast whose requested order already matches the tag hands the payload
/// back unchanged, whatever the probe answered — even a failed probe:
/// those casts never consult it.
pub proof fn lemma_matching_cast_unconditional<T: Scalar>(v: T, probe: Result<Endian<()>, Error>)
    ensures
        as_little_spec(Endian::Little(v), probe) == Some(v),
        as_big_spec(Endian::Big(v), probe) == Some(v),
{
}

/// On a `Native`-tagged value the little and big casts both succeed and
/// return byte reversals of each other; for a single-byte payload they
/// coincide.
pub proof fn lemma_little_big_reversal<T: Scalar>(v: T, probe: Result<Endian<()>, Error>)
    requires
        probe == Ok::<Endian<()>, Error>(Endian::Little(())) || probe == Ok::<Endian<()>, Error>(
            Endian::Big(()),
        ),
    ensures
        as_little_spec(Endian::Native(v), probe) matches Some(x) && as_big_spec(
            Endian::Native(v),
            probe,
        ) matches Some(y) && y == x.swapped_spec() && x == y.swapped_spec() && y.le_bytes()
            == x.le_bytes().reverse(),
        T::width_spec() == 1 ==> as_little_spec(Endian::Native(v), probe) == as_big_spec(
            Endian::Native(v),
            probe,
        ),
{
    scalar::lemma_swapped_involutive(v);
    v.lemma_swapped_le_bytes();
    v.swapped_spec().lemma_swapped_le_bytes();
    v.lemma_width();
    if T::width_spec() == 1 {
        scalar::lemma_single_byte_swap_identity(v);
    }
}

/// Casting a tagged value to some order and the raw result, re-tagged
/// with that order, back again recovers the original payload, for every
/// pair of orders, as long as the probe answered `Little` or `Big`.
pub proof fn lemma_cast_round_trip<T: Scalar>(
    v: T,
    o1: Endian<()>,
    o2: Endian<()>,
    probe: Result<Endian<()>, Error>,
)
    requires
        probe == Ok::<Endian<()>, Error>(Endian::Little(())) || probe == Ok::<Endian<()>, Error>(
            Endian::Big(()),
        ),
    ensures
        cast_spec(with_order(v, o1), o2, probe) matches Some(u) && cast_spec(
            with_order(u, o2),
            o1,
            probe,
        ) == Some(v),
{
    scalar::lemma_swapped_involutive(v);
}

/// Where the first tag is `Native`, or names the very order the probe
/// answered, the two-cast round trip lands on the same value as a direct
/// cast to the machine's order.
pub proof fn lemma_cast_round_trip_native<T: Scalar>(
    v: T,
    o1: Endian<()>,
    o2: Endian<()>,
    probe: Result<Endian<()>, Error>,
)
    requires
        probe == Ok::<Endian<()>, Error>(Endian::Little(())) || probe == Ok::<Endian<()>, Error>(
            Endian::Big(()),
        ),
        o1 is Native || probe == Ok::<Endian<()>, Error>(o1),
    ensures
        cast_spec(with_order(v, o1), o2, probe) matches Some(u) && cast_spec(
            with_order(u, o2),
            o1,
            probe,
        ) == as_native_spec(with_order(v, o1), probe),
{
    lemma_cast_round_trip(v, o1, o2, probe);
}

} // verus!
