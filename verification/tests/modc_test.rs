use modc::math::Field;
use modc::wide::U256;

#[test]
#[allow(non_snake_case)]
fn test_modc_addition() {
    let modu = U256::from_u64(7);
    let F = Field::new(modu).unwrap();
    let addition = F.add(U256::from_u64(3), U256::from_u64(6)).unwrap();
    assert_eq!(addition, U256::from_u64(2));
}

#[test]
#[allow(non_snake_case)]
fn test_modc_subtraction_1() {
    let F = Field::new(U256::from_u64(7)).unwrap();
    let difference = F.sub(U256::from_u64(9), U256::from_u64(6));
    assert_eq!(difference.unwrap(), U256::from_u64(3));
}

#[test]
#[allow(non_snake_case)]
fn test_modc_subtraction_2() {
    let F = Field::new(U256::from_u64(7)).unwrap();
    let difference = F.sub(U256::from_u64(6), U256::from_u64(9));
    assert_eq!(difference.unwrap(), U256::from_u64(4));
}

#[test]
#[allow(non_snake_case)]
fn test_modc_addv_inv() {
    let F = Field::new(U256::from_u64(7)).unwrap();
    let addv_inv = F.add_inv(U256::from_u64(6));
    assert_eq!(addv_inv.unwrap(), U256::from_u64(1));
}

#[test]
#[allow(non_snake_case)]
fn test_modc_mult_inv() {
    let F = Field::new(U256::from_u64(7)).unwrap();
    let mult_inv = F.mult_inv(U256::from_u64(2));
    assert_eq!(mult_inv.unwrap(), U256::from_u64(4));
}

#[test]
#[allow(non_snake_case)]
fn test_modc_div() {
    let F = Field::new(U256::from_u64(7)).unwrap();
    let remainder = F.div(U256::from_u64(4), U256::from_u64(2));
    assert_eq!(remainder.unwrap(), U256::from_u64(2));
}

#[test]
#[allow(non_snake_case)]
fn test_modc_pow() {
    let F = Field::new(U256::from_u64(7)).unwrap();
    let remainder = F.pow(U256::from_u64(8), U256::from_u64(2));
    assert_eq!(remainder.unwrap(), U256::from_u64(1));
}
