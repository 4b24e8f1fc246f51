use cast_trait::cast;
use cast_trait::Cast;
use cast_trait::Wrapping;

#[test]
fn test_cast_slice() {
    let mut x: [i32; 32] = [0_i32; 32];

    for i in 0..32 {
        x[i] = i as i32;
    }

    let mut y: [f32; 32] = [0_f32; 32];

    for i in 0..32 {
        y[i] = i as f32;
    }

    // The verified library holds no floating-point conversions, so the cast
    // runs through it up to the float step, which is a native cast here.
    let w: [i64; 32] = x.cast();

    let mut z: [f32; 32] = [0_f32; 32];

    for i in 0..32 {
        z[i] = w[i] as f32;
    }

    assert_eq!(z, y);
}

#[test]
fn test_i128_u128() {
    let x: i128 = 1;
    let y: u128 = x.cast();
    // The verified library holds no floating-point conversions, so the last
    // step to `f32` is a native cast.
    let z: f32 = y as f32;
    assert_eq!(x, 1_i128);
    assert_eq!(y, 1_u128);
    assert_eq!(z, 1_f32);
}

#[test]
fn round_trip_identity() {
    assert_eq!(cast::<i8, i8>(-128_i8), -128_i8);
    assert_eq!(cast::<i16, i16>(-1_i16), -1_i16);
    assert_eq!(cast::<i32, i32>(i32::MAX), i32::MAX);
    assert_eq!(cast::<i64, i64>(i64::MIN), i64::MIN);
    assert_eq!(cast::<i128, i128>(i128::MAX), i128::MAX);
    assert_eq!(cast::<isize, isize>(-7_isize), -7_isize);
    assert_eq!(cast::<u8, u8>(255_u8), 255_u8);
    assert_eq!(cast::<u16, u16>(0_u16), 0_u16);
    assert_eq!(cast::<u32, u32>(u32::MAX), u32::MAX);
    assert_eq!(cast::<u64, u64>(u64::MAX), u64::MAX);
    assert_eq!(cast::<u128, u128>(u128::MAX), u128::MAX);
    assert_eq!(cast::<usize, usize>(7_usize), 7_usize);
}

#[test]
fn widening_preserves_value() {
    assert_eq!(cast::<u8, u16>(255_u8), 255_u16);
    assert_eq!(cast::<u16, u32>(u16::MAX), 65535_u32);
    assert_eq!(cast::<u32, u64>(u32::MAX), 4294967295_u64);
    assert_eq!(cast::<u64, u128>(u64::MAX), 18446744073709551615_u128);
    assert_eq!(cast::<u8, usize>(200_u8), 200_usize);
    assert_eq!(cast::<i8, i16>(-128_i8), -128_i16);
    assert_eq!(cast::<i16, i32>(i16::MIN), -32768_i32);
    assert_eq!(cast::<i32, i64>(i32::MIN), -2147483648_i64);
    assert_eq!(cast::<i64, i128>(i64::MIN), -9223372036854775808_i128);
    assert_eq!(cast::<i8, isize>(-100_i8), -100_isize);
}

#[test]
fn narrowing_truncates() {
    assert_eq!(cast::<u16, u8>(257_u16), 1_u8);
    assert_eq!(cast::<u16, u8>(256_u16), 0_u8);
    assert_eq!(cast::<i32, u8>(-1_i32), 255_u8);
    assert_eq!(cast::<i32, i8>(128_i32), -128_i8);
    assert_eq!(cast::<u32, i32>(u32::MAX), -1_i32);
    assert_eq!(cast::<i64, i32>(4294967296_i64 + 5), 5_i32);
    assert_eq!(cast::<u128, u64>(u128::MAX), u64::MAX);
    assert_eq!(cast::<i128, i64>(-1_i128), -1_i64);
    assert_eq!(cast::<u16, u8>(300_u16), 44_u8);
    assert_eq!(cast::<u8, i8>(200_u8), -56_i8);
    assert_eq!(cast::<u8, i8>(127_u8), 127_i8);
}

#[test]
fn boolean_round_trip() {
    assert_eq!(cast::<u8, bool>(cast::<bool, u8>(true)), true);
    assert_eq!(cast::<u8, bool>(cast::<bool, u8>(false)), false);
    assert_eq!(cast::<i8, bool>(cast::<bool, i8>(true)), true);
    assert_eq!(cast::<i8, bool>(cast::<bool, i8>(false)), false);
    assert_eq!(cast::<i32, bool>(cast::<bool, i32>(true)), true);
    assert_eq!(cast::<u64, bool>(cast::<bool, u64>(false)), false);
    assert_eq!(cast::<i128, bool>(cast::<bool, i128>(true)), true);
    assert_eq!(cast::<u128, bool>(cast::<bool, u128>(false)), false);
    assert_eq!(cast::<usize, bool>(cast::<bool, usize>(true)), true);
    assert_eq!(cast::<isize, bool>(cast::<bool, isize>(false)), false);
}

#[test]
fn boolean_zero_rule() {
    assert_eq!(cast::<u8, bool>(0_u8), false);
    assert_eq!(cast::<u8, bool>(3_u8), true);
    assert_eq!(cast::<i32, bool>(0_i32), false);
    assert_eq!(cast::<i32, bool>(-5_i32), true);
    assert_eq!(cast::<u64, bool>(0_u64), false);
    assert_eq!(cast::<u64, bool>(u64::MAX), true);
    assert_eq!(cast::<i128, bool>(0_i128), false);
    assert_eq!(cast::<i128, bool>(i128::MIN), true);
    assert_eq!(cast::<usize, bool>(0_usize), false);
    assert_eq!(cast::<usize, bool>(42_usize), true);
    assert_eq!(cast::<bool, u8>(true), 1_u8);
    assert_eq!(cast::<bool, u8>(false), 0_u8);
    assert_eq!(cast::<bool, i64>(true), 1_i64);
    assert_eq!(cast::<bool, i64>(false), 0_i64);
}

#[test]
fn wrapper_transparency() {
    assert_eq!(cast::<Wrapping<u8>, Wrapping<u16>>(Wrapping(7_u8)), Wrapping(7_u16));
    assert_eq!(cast::<Wrapping<u16>, Wrapping<u8>>(Wrapping(257_u16)), Wrapping(1_u8));
    assert_eq!(cast::<Wrapping<i32>, Wrapping<bool>>(Wrapping(0_i32)), Wrapping(false));
    assert_eq!(cast::<Wrapping<u64>, Wrapping<usize>>(Wrapping(1_u64)), Wrapping(1_usize));
    let nested: Wrapping<Wrapping<u16>> = cast(Wrapping(Wrapping(200_u8)));
    assert_eq!(nested, Wrapping(Wrapping(200_u16)));
}

#[test]
fn array_cast_preserves_length_and_order() {
    let empty: [u8; 0] = [];
    let out0: [u16; 0] = empty.cast();
    assert_eq!(out0.len(), 0);

    let one: [i32; 1] = [-1_i32];
    let out1: [u8; 1] = one.cast();
    assert_eq!(out1, [255_u8]);

    let five: [u16; 5] = [0_u16, 1_u16, 255_u16, 256_u16, 257_u16];
    let out5: [u8; 5] = five.cast();
    assert_eq!(out5, [0_u8, 1_u8, 255_u8, 0_u8, 1_u8]);

    let mut big: [u8; 32] = [0_u8; 32];
    for i in 0..32 {
        big[i] = i as u8;
    }
    let out32: [u64; 32] = big.cast();
    for i in 0..32 {
        assert_eq!(out32[i], i as u64);
    }
}

#[test]
fn array_of_wrappers() {
    let xs: [Wrapping<u16>; 3] = [Wrapping(1_u16), Wrapping(258_u16), Wrapping(0_u16)];
    let ys: [Wrapping<u8>; 3] = xs.cast();
    assert_eq!(ys, [Wrapping(1_u8), Wrapping(2_u8), Wrapping(0_u8)]);
}

#[test]
fn scenario_arithmetic() {
    assert_eq!(Cast::<isize>::cast(2_usize) * 2_isize, 4_isize);
    assert_eq!(Cast::<bool>::cast(1_u32), true);
    assert_eq!(Cast::<usize>::cast(true), 1_usize);
    assert_eq!(
        Cast::<Wrapping<usize>>::cast(Wrapping(1_u64)),
        Wrapping(1_usize)
    );
}
