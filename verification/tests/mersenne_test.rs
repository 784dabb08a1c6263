use modc::math::Field;
use modc::wide::U256;

#[test]
#[allow(non_snake_case)]
fn test_mersenne_addition() {
    let mersenne_mod = get_mersenne_mod(7);
    let F = Field::new(mersenne_mod).unwrap();
    let addition = F.add(U256::from_u64(91), U256::from_u64(108)).unwrap();
    assert_eq!(addition, U256::from_u64(72));
}

fn get_mersenne_mod(n: u16) -> U256 {
    if !is_prime(n as usize) {
        panic!("n is not prime. Mersenne is not possible!");
    }
    let p = (2_u64).pow(n as u32) - 1;
    U256::from_u64(p)
}

fn is_prime(n: usize) -> bool {
    if n <= 1 {
        return false;
    } else if n <= 3 {
        return true;
    } else if n % 2 == 0 || n % 3 == 0 {
        return false;
    } else {
        let limit = (n as f64).sqrt() as usize + 1;
        for i in (5..limit).step_by(6) {
            if n % i == 0 || n % (i + 2) == 0 {
                return false;
            }
        }
        true
    }
}
