use wasmedge_value::Value;

fn one_of_each() -> Vec<Value> {
    vec![
        Value::I32(-3),
        Value::I64(-4),
        Value::F32(1.5f32.to_bits()),
        Value::F64(2.5f64.to_bits()),
        Value::V128(6),
        Value::FuncRef(7),
        Value::ExternRef(8),
    ]
}

#[test]
fn as_i32_accepts_i32_and_f32_only() {
    let got: Vec<bool> = one_of_each().iter().map(|v| v.as_i32().is_some()).collect();
    assert_eq!(got, vec![true, false, true, false, false, false, false]);
}

#[test]
fn as_u32_accepts_i32_and_f64_only() {
    let got: Vec<bool> = one_of_each().iter().map(|v| v.as_u32().is_some()).collect();
    assert_eq!(got, vec![true, false, false, true, false, false, false]);
}

#[test]
fn as_i64_accepts_integers_and_floats_only() {
    let got: Vec<bool> = one_of_each().iter().map(|v| v.as_i64().is_some()).collect();
    assert_eq!(got, vec![true, true, true, true, false, false, false]);
}

#[test]
fn as_f32_accepts_f32_only() {
    let got: Vec<bool> = one_of_each().iter().map(|v| v.as_f32().is_some()).collect();
    assert_eq!(got, vec![false, false, true, false, false, false, false]);
}

#[test]
fn as_f64_accepts_floats_only() {
    let got: Vec<bool> = one_of_each().iter().map(|v| v.as_f64().is_some()).collect();
    assert_eq!(got, vec![false, false, true, true, false, false, false]);
}

#[test]
fn as_u128_accepts_v128_only() {
    let got: Vec<bool> = one_of_each().iter().map(|v| v.as_u128().is_some()).collect();
    assert_eq!(got, vec![false, false, false, false, true, false, false]);
}

#[test]
fn as_i64_of_f64_is_the_bit_pattern() {
    let value = Value::F64(3.14f64.to_bits());
    assert_eq!(value.as_i64(), Some(0x4009_1EB8_51EB_851F));
    assert_eq!(value.as_i64(), Some(3.14f64.to_bits() as i64));
    // not the number 3
    assert_ne!(value.as_i64(), Some(3));
}

#[test]
fn as_i64_of_f64_with_the_sign_bit_is_negative() {
    assert_eq!(
        Value::F64((-1.0f64).to_bits()).as_i64(),
        Some(-0x4010_0000_0000_0000)
    );
    assert_eq!(Value::F64(u64::MAX).as_i64(), Some(-1));
    assert_eq!(Value::F64(0x8000_0000_0000_0000).as_i64(), Some(i64::MIN));
}

#[test]
fn as_f32_of_i64_is_absent() {
    assert_eq!(Value::I64(0).as_f32(), None);
    assert_eq!(Value::I64(-1).as_f32(), None);
    assert_eq!(Value::I64(i64::MAX).as_f32(), None);
}

#[test]
fn as_i32_values() {
    assert_eq!(Value::I32(-3).as_i32(), Some(-3));
    assert_eq!(Value::I32(i32::MIN).as_i32(), Some(i32::MIN));
    assert_eq!(Value::F32(1.5f32.to_bits()).as_i32(), Some(0x3FC0_0000));
    assert_eq!(Value::F32((-1.5f32).to_bits()).as_i32(), Some(-0x4040_0000));
    assert_eq!(Value::F32(u32::MAX).as_i32(), Some(-1));
    assert_eq!(Value::F32(0x8000_0000).as_i32(), Some(i32::MIN));
}

#[test]
fn as_u32_values() {
    assert_eq!(Value::I32(5).as_u32(), Some(5));
    assert_eq!(Value::I32(-1).as_u32(), Some(0xFFFF_FFFF));
    assert_eq!(Value::I32(i32::MIN).as_u32(), Some(0x8000_0000));
    assert_eq!(Value::F64(0x1_2345_6789).as_u32(), Some(0x2345_6789));
    assert_eq!(Value::F64(3.14f64.to_bits()).as_u32(), Some(0x51EB_851F));
    assert_eq!(Value::F64(u64::MAX).as_u32(), Some(u32::MAX));
}

#[test]
fn as_i64_values() {
    assert_eq!(Value::I32(-3).as_i64(), Some(-3));
    assert_eq!(Value::I32(i32::MIN).as_i64(), Some(-0x8000_0000));
    assert_eq!(Value::I64(i64::MIN).as_i64(), Some(i64::MIN));
    assert_eq!(Value::F32(1.5f32.to_bits()).as_i64(), Some(0x3FC0_0000));
    assert_eq!(Value::F32(u32::MAX).as_i64(), Some(0xFFFF_FFFF));
}

#[test]
fn as_f32_gives_the_bit_pattern() {
    let got = Value::F32(3.14f32.to_bits()).as_f32();
    assert_eq!(got, Some(0x4048_F5C3));
    assert_eq!(got.map(f32::from_bits), Some(3.14f32));
    assert_eq!(Value::F32(0x7FC0_0001).as_f32(), Some(0x7FC0_0001));
}

#[test]
fn as_f64_gives_the_bit_pattern() {
    let got = Value::F64(3.14f64.to_bits()).as_f64();
    assert_eq!(got, Some(0x4009_1EB8_51EB_851F));
    assert_eq!(got.map(f64::from_bits), Some(3.14f64));
}

#[test]
fn as_f64_of_f32_zero_extends_the_pattern() {
    assert_eq!(Value::F32(1.0f32.to_bits()).as_f64(), Some(0x3F80_0000));
    assert_eq!(Value::F32(u32::MAX).as_f64(), Some(0xFFFF_FFFF));
    // the pattern is kept, the number is not converted
    assert_ne!(Value::F32(1.0f32.to_bits()).as_f64(), Some(1.0f64.to_bits()));
}

#[test]
fn as_u128_values() {
    assert_eq!(Value::V128(0).as_u128(), Some(0));
    assert_eq!(Value::V128(u128::MAX).as_u128(), Some(u128::MAX));
    assert_eq!(Value::FuncRef(3).as_u128(), None);
    assert_eq!(Value::ExternRef(3).as_u128(), None);
}

#[test]
fn accessors_read_the_payload_of_the_record() {
    for value in one_of_each() {
        let payload = wasmedge_value::WasmEdgeValue::from(value).value;
        if let Some(x) = value.as_i32() {
            assert_eq!(x, payload as i32);
        }
        if let Some(x) = value.as_u32() {
            assert_eq!(x, payload as u32);
        }
        if let Some(x) = value.as_i64() {
            assert_eq!(x, payload as i64);
        }
        if let Some(x) = value.as_f32() {
            assert_eq!(x, payload as u32);
        }
        if let Some(x) = value.as_f64() {
            assert_eq!(x, payload as u64);
        }
        if let Some(x) = value.as_u128() {
            assert_eq!(x, payload);
        }
    }
}
