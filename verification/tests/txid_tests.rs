use two_phase_commit::txid::decimal_string;
use two_phase_commit::txid::transaction_id_string;

#[test]
fn decimal_of_zero() {
    assert_eq!(decimal_string(0), "0");
}

#[test]
fn decimal_of_each_digit() {
    let expected = ["0", "1", "2", "3", "4", "5", "6", "7", "8", "9"];
    for d in 0..10u64 {
        assert_eq!(decimal_string(d), expected[d as usize]);
    }
}

#[test]
fn decimal_of_powers_of_ten() {
    assert_eq!(decimal_string(10), "10");
    assert_eq!(decimal_string(100), "100");
    assert_eq!(decimal_string(1000), "1000");
    assert_eq!(decimal_string(99), "99");
    assert_eq!(decimal_string(101), "101");
}

#[test]
fn decimal_of_the_largest_number() {
    assert_eq!(decimal_string(u64::MAX), "18446744073709551615");
    assert_eq!(decimal_string(4294967295), "4294967295");
}

#[test]
fn decimal_agrees_with_the_standard_rendering() {
    let mut n: u64 = 1;
    for _ in 0..60 {
        assert_eq!(decimal_string(n), n.to_string());
        assert_eq!(decimal_string(n - 1), (n - 1).to_string());
        n = n * 2 + 1;
    }
}

#[test]
fn transaction_id_has_the_documented_format() {
    assert_eq!(transaction_id_string(0, 1), "client0_op_1");
    assert_eq!(transaction_id_string(3, 12), "client3_op_12");
    assert_eq!(transaction_id_string(10, 100), "client10_op_100");
}

#[test]
fn transaction_id_of_the_largest_numbers() {
    assert_eq!(
        transaction_id_string(u32::MAX, u32::MAX),
        "client4294967295_op_4294967295"
    );
}

#[test]
fn transaction_ids_of_different_requests_differ() {
    assert_ne!(transaction_id_string(11, 1), transaction_id_string(1, 11));
    assert_ne!(transaction_id_string(1, 1), transaction_id_string(1, 2));
    assert_ne!(transaction_id_string(1, 1), transaction_id_string(2, 1));
    assert_ne!(transaction_id_string(1, 10), transaction_id_string(11, 0));
    let mut seen: Vec<String> = Vec::new();
    for client in 0..12u32 {
        for seq in 0..12u32 {
            let id = transaction_id_string(client, seq);
            assert!(!seen.contains(&id));
            seen.push(id);
        }
    }
}
