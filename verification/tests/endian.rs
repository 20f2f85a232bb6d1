use scalar_types::get_native_endianness;
use scalar_types::Endian;
use scalar_types::Error;
use scalar_types::Scalar;

#[test]
fn new_wraps_native() {
    let wrapped = Endian::new(42u16);
    assert!(wrapped.is_native());
    assert_eq!(wrapped, Endian::Native(42u16));
    assert_eq!(wrapped.unpack(), 42u16);
}

#[test]
fn exactly_one_tag_predicate_holds() {
    let little = Endian::Little(1u32);
    assert!(little.is_little());
    assert!(!little.is_big());
    assert!(!little.is_native());

    let big = Endian::Big(1u32);
    assert!(!big.is_little());
    assert!(big.is_big());
    assert!(!big.is_native());

    let native = Endian::Native(1u32);
    assert!(!native.is_little());
    assert!(!native.is_big());
    assert!(native.is_native());
}

#[test]
fn matching_cast_is_identity() {
    assert_eq!(Endian::Little(0xABCDu16).as_little(), Some(0xABCDu16));
    assert_eq!(Endian::Big(0xABCDu16).as_big(), Some(0xABCDu16));
    assert_eq!(
        Endian::Little(0x0102030405060708u64).as_little(),
        Some(0x0102030405060708u64)
    );
    assert_eq!(
        Endian::Big(0x0102030405060708u64).as_big(),
        Some(0x0102030405060708u64)
    );
}

#[test]
fn opposite_cast_reverses_bytes() {
    assert_eq!(Endian::Big(0x0102u16).as_little(), Some(0x0201u16));
    assert_eq!(Endian::Little(0x0102u16).as_big(), Some(0x0201u16));
    assert_eq!(Endian::Big(0x01020304u32).as_little(), Some(0x04030201u32));
    assert_eq!(
        Endian::Big(0x0102030405060708u64).as_little(),
        Some(0x0807060504030201u64)
    );
    assert_eq!(Endian::Big(0x42u8).as_little(), Some(0x42u8));
}

#[test]
fn native_little_and_big_are_reversals() {
    let wrapped = Endian::new(0x0102u16);
    let little = wrapped.as_little().unwrap();
    let big = wrapped.as_big().unwrap();
    assert_eq!(little.swapped(), big);
    assert_eq!(big.swapped(), little);

    let wide = Endian::new(0x1122334455667788u64);
    let little_wide = wide.as_little().unwrap();
    let big_wide = wide.as_big().unwrap();
    assert_eq!(little_wide.swapped(), big_wide);

    let single = Endian::new(0x7Fu8);
    assert_eq!(single.as_little(), single.as_big());
}

#[test]
fn byte_reversal_is_its_own_inverse() {
    assert_eq!(0x12u8.swapped().swapped(), 0x12u8);
    assert_eq!(0x1234u16.swapped().swapped(), 0x1234u16);
    assert_eq!(0x01020304u32.swapped().swapped(), 0x01020304u32);
    assert_eq!(
        0x0102030405060708u64.swapped().swapped(),
        0x0102030405060708u64
    );

    assert_eq!(0x12u8.swapped(), 0x12u8);
    assert_eq!(0x1234u16.swapped(), 0x3412u16);
    assert_eq!(0x01020304u32.swapped(), 0x04030201u32);
    assert_eq!(0x0102030405060708u64.swapped(), 0x0807060504030201u64);
}

#[test]
fn cast_round_trip_recovers_payload() {
    let value: u32 = 0x11223344;
    assert_eq!(Endian::new(value).cast(Endian::Native(())), Some(value));
    let orders = [Endian::Little(()), Endian::Big(()), Endian::Native(())];
    for first in orders {
        for second in orders {
            let once = match first {
                Endian::Little(()) => Endian::Little(value),
                Endian::Big(()) => Endian::Big(value),
                Endian::Native(()) => Endian::Native(value),
            }
            .cast(second)
            .unwrap();
            let back = match second {
                Endian::Little(()) => Endian::Little(once),
                Endian::Big(()) => Endian::Big(once),
                Endian::Native(()) => Endian::Native(once),
            }
            .cast(first)
            .unwrap();
            assert_eq!(back, value);
        }
    }
}

#[test]
fn cast_round_trip_with_injected_orders() {
    let value: u16 = 0xBEEF;
    for probe in [Ok(Endian::Little(())), Ok(Endian::Big(()))] {
        let once = Endian::Little(value)
            .cast_with(Endian::Big(()), probe)
            .unwrap();
        assert_eq!(once, 0xEFBEu16);
        let back = Endian::Big(once).cast_with(Endian::Little(()), probe).unwrap();
        assert_eq!(back, value);
    }
}

#[test]
fn probe_succeeds_with_a_definite_order() {
    let order = get_native_endianness().unwrap();
    assert!(order.is_little() || order.is_big());
    assert!(!order.is_native());
}

#[test]
fn probe_is_stable_across_calls() {
    let first = get_native_endianness();
    let second = get_native_endianness();
    let third = get_native_endianness();
    assert_eq!(first, second);
    assert_eq!(second, third);
}

#[test]
fn from_stream_reads_native_value() {
    let bytes: [u8; 4] = [0x02, 0x00, 0x00, 0x00];
    let mut source: &[u8] = &bytes;
    let value = Endian::<u32>::from_stream(&mut source).unwrap();
    assert!(value.is_native());
    assert_eq!(value.as_little(), Some(2u32));
    assert_eq!(value.as_big(), Some(0x02000000u32));
    if get_native_endianness() == Ok(Endian::Little(())) {
        assert_eq!(value, Endian::Native(2u32));
    }
}

#[test]
fn from_stream_fails_on_short_read() {
    let bytes: [u8; 2] = [0x02, 0x00];
    let mut source: &[u8] = &bytes;
    assert_eq!(Endian::<u32>::from_stream(&mut source), None);
}

#[test]
fn from_ne_bytes_with_injected_orders() {
    let bytes: Vec<u8> = vec![0x01, 0x02];
    assert_eq!(
        Endian::<u16>::from_ne_bytes_with(&bytes, Ok(Endian::Little(()))),
        Some(Endian::Native(0x0201u16))
    );
    assert_eq!(
        Endian::<u16>::from_ne_bytes_with(&bytes, Ok(Endian::Big(()))),
        Some(Endian::Native(0x0102u16))
    );
    assert_eq!(
        Endian::<u16>::from_ne_bytes_with(&bytes, Err(Error::UnknownArchitecture)),
        None
    );
    let short: Vec<u8> = vec![0x01];
    assert_eq!(
        Endian::<u16>::from_ne_bytes_with(&short, Ok(Endian::Little(()))),
        None
    );
}

#[test]
fn injected_probe_failure_makes_casts_fail() {
    let failed: Result<Endian<()>, Error> = Err(Error::UnknownArchitecture);
    let native = Endian::new(5u32);
    assert_eq!(native.as_little_with(failed), None);
    assert_eq!(native.as_big_with(failed), None);
    assert_eq!(native.as_native_with(failed), Some(5u32));

    let little = Endian::Little(5u32);
    assert_eq!(little.as_native_with(failed), None);
    assert_eq!(little.cast_with(Endian::Native(()), failed), None);
    assert_eq!(little.as_little_with(failed), Some(5u32));

    assert_eq!(little.unpack_with(failed), 0u32);
    assert_eq!(Endian::Big(7u64).unpack_with(failed), 0u64);
}

#[test]
fn unresolvable_probe_answer_makes_casts_fail() {
    let unresolvable: Result<Endian<()>, Error> = Ok(Endian::Native(()));
    let native = Endian::new(9u16);
    assert_eq!(native.as_little_with(unresolvable), None);
    assert_eq!(native.as_big_with(unresolvable), None);
    assert_eq!(Endian::Little(9u16).as_native_with(unresolvable), None);
    assert_eq!(Endian::Little(9u16).unpack_with(unresolvable), 0u16);
}

#[test]
fn cast_dispatches_on_requested_order() {
    let wrapped = Endian::Big(0x0102u16);
    assert_eq!(wrapped.cast(Endian::Little(())), Some(0x0201u16));
    assert_eq!(wrapped.cast(Endian::Big(())), Some(0x0102u16));
    let resolved = wrapped.cast(Endian::Native(())).unwrap();
    assert!(resolved == 0x0102u16 || resolved == 0x0201u16);
}

#[test]
fn unpack_returns_native_payload() {
    assert_eq!(Endian::Native(0xCAFEu16).unpack(), 0xCAFEu16);
    let little = Endian::Little(0x0102u16);
    let unpacked = little.unpack();
    assert!(unpacked == 0x0102u16 || unpacked == 0x0201u16);
    assert_eq!(little.unpack(), little.as_native().unwrap());
}

#[test]
fn signed_scalars_reverse_bytes() {
    assert_eq!(0x0102i16.swapped(), 0x0201i16);
    assert_eq!((-2i16).swapped(), i16::from_le_bytes([0xFF, 0xFE]));
    assert_eq!((-2i8).swapped(), -2i8);
    assert_eq!(
        (-2i64).swapped(),
        i64::from_le_bytes([0xFF, 0xFF, 0xFF, 0xFF, 0xFF, 0xFF, 0xFF, 0xFE])
    );
    assert_eq!((-5i32).swapped().swapped(), -5i32);
    assert_eq!(Endian::Big(0x01020304i32).as_little(), Some(0x04030201i32));
}

#[test]
fn from_stream_reads_signed_value() {
    let bytes: [u8; 4] = [0xFE, 0xFF, 0xFF, 0xFF];
    let mut source: &[u8] = &bytes;
    let value = Endian::<i32>::from_stream(&mut source).unwrap();
    assert_eq!(value.as_little(), Some(-2i32));
}

#[test]
fn scalar_width_matches_type_size() {
    assert_eq!(u8::width(), 1);
    assert_eq!(u16::width(), 2);
    assert_eq!(u32::width(), 4);
    assert_eq!(u64::width(), 8);
}

#[test]
fn scalar_zeroed_is_zero() {
    assert_eq!(u8::zeroed(), 0u8);
    assert_eq!(u16::zeroed(), 0u16);
    assert_eq!(u32::zeroed(), 0u32);
    assert_eq!(u64::zeroed(), 0u64);
}

#[test]
fn scalar_from_le_reads_little_endian() {
    let bytes: Vec<u8> = vec![0x04, 0x03, 0x02, 0x01];
    assert_eq!(<u32 as Scalar>::from_le(&bytes), 0x01020304u32);
    let bytes: Vec<u8> = vec![0xAA];
    assert_eq!(<u8 as Scalar>::from_le(&bytes), 0xAAu8);
    let bytes: Vec<u8> = vec![0x08, 0x07, 0x06, 0x05, 0x04, 0x03, 0x02, 0x01];
    assert_eq!(<u64 as Scalar>::from_le(&bytes), 0x0102030405060708u64);
}
