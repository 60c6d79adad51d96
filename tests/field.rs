use zkvm_air::field::{Fq, FqConfig, GENERATOR, MODULUS};

#[test]
fn test_field_addition() {
    let a = Fq::from(10u64);
    let b = Fq::from(20u64);
    let c = a.add(b);
    assert_eq!(c, Fq::from(30u64));
}

#[test]
fn test_field_multiplication() {
    let a = Fq::from(10u64);
    let b = Fq::from(20u64);
    let c = a.mul(b);
    assert_eq!(c, Fq::from(6u64)); // 200 mod 97 = 6
}

#[test]
fn field_reduces_and_wraps() {
    assert_eq!(Fq::from_u64(97).value(), 0);
    assert_eq!(Fq::from_u64(200).value(), 6);
    assert_eq!(Fq::from_u64(96).add(Fq::from_u64(5)).value(), 4);
    assert_eq!(Fq::from_u64(3).sub(Fq::from_u64(5)).value(), 95);
    assert_eq!(Fq::from_u64(5).pow(12).value(), 64);
    assert_eq!(Fq::from_u64(5).pow(0), Fq::one());
    assert!(Fq::zero().is_zero());
    assert!(!Fq::one().is_zero());
}

#[test]
fn field_configuration() {
    assert_eq!(FqConfig::modulus(), MODULUS);
    assert_eq!(FqConfig::generator(), GENERATOR);
    assert_eq!(MODULUS, 97);
    assert_eq!(GENERATOR, 5);
}
