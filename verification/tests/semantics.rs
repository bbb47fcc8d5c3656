use cil_lower::semantics::{
    checked_add_i16, checked_add_i32, checked_add_i64, checked_add_i8, checked_add_u16,
    checked_add_u32, checked_add_u64, checked_add_u8, checked_mul_i8, checked_mul_u8,
    checked_sub_i16, checked_sub_i32, checked_sub_i64, checked_sub_i8, checked_sub_u16,
    checked_sub_u32, checked_sub_u64, checked_sub_u8,
};

#[test]
fn unsigned_8_bit_add_scenarios() {
    assert_eq!(checked_add_u8(200, 100), (44, true));
    assert_eq!(checked_add_u8(10, 20), (30, false));
    assert_eq!(checked_add_u8(255, 255), (254, true));
    assert_eq!(checked_add_u8(0, 0), (0, false));
    assert_eq!(checked_add_u8(255, 1), (0, true));
}

#[test]
fn signed_8_bit_add_scenarios() {
    assert_eq!(checked_add_i8(120, 10), (-126, true));
    assert_eq!(checked_add_i8(-100, -100), (56, true));
    assert_eq!(checked_add_i8(-128, -128), (0, true));
    assert_eq!(checked_add_i8(127, -128), (-1, false));
}

#[test]
fn signed_8_bit_sub_scenarios() {
    assert_eq!(checked_sub_i8(-128, 1), (127, true));
    assert_eq!(checked_sub_i8(127, -1), (-128, true));
    assert_eq!(checked_sub_i8(5, 10), (-5, false));
}

#[test]
fn unsigned_32_bit_sub_scenarios() {
    assert_eq!(checked_sub_u32(5, 10), (4294967291, true));
    assert_eq!(checked_sub_u32(10, 5), (5, false));
    assert_eq!(checked_sub_u32(0, u32::MAX), (1, true));
}

#[test]
fn eight_bit_paths_match_std_exhaustively() {
    for a in 0..=u8::MAX {
        for b in 0..=u8::MAX {
            let (v, ov) = checked_add_u8(a, b);
            assert_eq!(v, a.wrapping_add(b), "add {a} {b}");
            assert_eq!(ov, a.checked_add(b).is_none(), "add flag {a} {b}");
            let (v, ov) = checked_sub_u8(a, b);
            assert_eq!(v, a.wrapping_sub(b), "sub {a} {b}");
            assert_eq!(ov, a.checked_sub(b).is_none(), "sub flag {a} {b}");
            let (v, ov) = checked_mul_u8(a, b);
            assert_eq!(v, a.wrapping_mul(b), "mul {a} {b}");
            assert_eq!(ov, a.checked_mul(b).is_none(), "mul flag {a} {b}");
            let sa = a as i8;
            let sb = b as i8;
            let (v, ov) = checked_add_i8(sa, sb);
            assert_eq!(v, sa.wrapping_add(sb), "signed add {sa} {sb}");
            assert_eq!(ov, sa.checked_add(sb).is_none(), "signed add flag {sa} {sb}");
            let (v, ov) = checked_sub_i8(sa, sb);
            assert_eq!(v, sa.wrapping_sub(sb), "signed sub {sa} {sb}");
            assert_eq!(ov, sa.checked_sub(sb).is_none(), "signed sub flag {sa} {sb}");
            let (v, ov) = checked_mul_i8(sa, sb);
            assert_eq!(v, sa.wrapping_mul(sb), "signed mul {sa} {sb}");
            assert_eq!(ov, sa.checked_mul(sb).is_none(), "signed mul flag {sa} {sb}");
        }
    }
}

#[test]
fn sixteen_bit_paths_match_std_on_edges() {
    let us: [u16; 6] = [0, 1, 2, 0x7fff, 0xfffe, 0xffff];
    for &a in &us {
        for &b in &us {
            assert_eq!(checked_add_u16(a, b), (a.wrapping_add(b), a.checked_add(b).is_none()));
            assert_eq!(checked_sub_u16(a, b), (a.wrapping_sub(b), a.checked_sub(b).is_none()));
        }
    }
    let is: [i16; 7] = [i16::MIN, -1, 0, 1, 2, 0x7ffe, i16::MAX];
    for &a in &is {
        for &b in &is {
            assert_eq!(checked_add_i16(a, b), (a.wrapping_add(b), a.checked_add(b).is_none()));
            assert_eq!(checked_sub_i16(a, b), (a.wrapping_sub(b), a.checked_sub(b).is_none()));
        }
    }
}

#[test]
fn thirty_two_bit_paths_match_std_on_edges() {
    let us: [u32; 6] = [0, 1, 5, 10, u32::MAX - 1, u32::MAX];
    for &a in &us {
        for &b in &us {
            assert_eq!(checked_add_u32(a, b), (a.wrapping_add(b), a.checked_add(b).is_none()));
            assert_eq!(checked_sub_u32(a, b), (a.wrapping_sub(b), a.checked_sub(b).is_none()));
        }
    }
    let is: [i32; 7] = [i32::MIN, i32::MIN + 1, -1, 0, 1, i32::MAX - 1, i32::MAX];
    for &a in &is {
        for &b in &is {
            assert_eq!(checked_add_i32(a, b), (a.wrapping_add(b), a.checked_add(b).is_none()));
            assert_eq!(checked_sub_i32(a, b), (a.wrapping_sub(b), a.checked_sub(b).is_none()));
        }
    }
}

#[test]
fn sixty_four_bit_escape_paths_match_std_on_edges() {
    let us: [u64; 6] = [0, 1, 5, 10, u64::MAX - 1, u64::MAX];
    for &a in &us {
        for &b in &us {
            assert_eq!(checked_add_u64(a, b), (a.wrapping_add(b), a.checked_add(b).is_none()));
            assert_eq!(checked_sub_u64(a, b), (a.wrapping_sub(b), a.checked_sub(b).is_none()));
        }
    }
    let is: [i64; 7] = [i64::MIN, i64::MIN + 1, -1, 0, 1, i64::MAX - 1, i64::MAX];
    for &a in &is {
        for &b in &is {
            assert_eq!(checked_add_i64(a, b), (a.wrapping_add(b), a.checked_add(b).is_none()));
            assert_eq!(checked_sub_i64(a, b), (a.wrapping_sub(b), a.checked_sub(b).is_none()));
        }
    }
}
