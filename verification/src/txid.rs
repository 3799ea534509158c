//! The text of transaction ids: `client`, the client's number, `_op_`, and
//! the number of the request, both numbers in decimal.

use vstd::prelude::*;
use vstd::string::*;

verus! {

/// The character of the digit `d`.
pub open spec fn digit(d: nat) -> char {
    if d == 0 {
        '0'
    } else if d == 1 {
        '1'
    } else if d == 2 {
        '2'
    } else if d == 3 {
        '3'
    } else if d == 4 {
        '4'
    } else if d == 5 {
        '5'
    } else if d == 6 {
        '6'
    } else if d == 7 {
        '7'
    } else if d == 8 {
        '8'
    } else {
        '9'
    }
}

/// Whether `c` is one of the ten digits.
pub open spec fn is_digit(c: char) -> bool {
    c == '0' || c == '1' || c == '2' || c == '3' || c == '4' || c == '5' || c == '6' || c == '7'
        || c == '8' || c == '9'
}

/// The number `n` in decimal, without leading zeros.
pub open spec fn decimal(n: nat) -> Seq<char>
    decreases n,
{
    if n < 10 {
        seq![digit(n)]
    } else {
        decimal(n / 10).push(digit(n % 10))
    }
}

/// The text that every transaction id begins with.
pub open spec fn id_prefix() -> Seq<char> {
    seq!['c', 'l', 'i', 'e', 'n', 't']
}

/// The text between the two numbers of a transaction id.
pub open spec fn id_infix() -> Seq<char> {
    seq!['_', 'o', 'p', '_']
}

/// The id of the request number `seq` of the client `client`.
pub open spec fn transaction_id(client: u32, seq: u32) -> Seq<char> {
    id_prefix() + decimal(client as nat) + id_infix() + decimal(seq as nat)
}

/// The digit `d` as a string.
fn digit_str(d: u64) -> (s: &'static str)
    requires
        d < 10,
    ensures
        s@ == seq![digit(d as nat)],
{
    proof {
        reveal_strlit("0");
        reveal_strlit("1");
        reveal_strlit("2");
        reveal_strlit("3");
        reveal_strlit("4");
        reveal_strlit("5");
        reveal_strlit("6");
        reveal_strlit("7");
        reveal_strlit("8");
        reveal_strlit("9");
    }
    let s = if d == 0 {
        "0"
    } else if d == 1 {
        "1"
    } else if d == 2 {
        "2"
    } else if d == 3 {
        "3"
    } else if d == 4 {
        "4"
    } else if d == 5 {
        "5"
    } else if d == 6 {
        "6"
    } else if d == 7 {
        "7"
    } else if d == 8 {
        "8"
    } else {
        "9"
    };
    assert(s@ =~= seq![digit(d as nat)]);
    s
}

/// The number `n` in decimal.
pub fn decimal_string(n: u64) -> (s: String)
    ensures
        s@ == decimal(n as nat),
    decreases n,
{
    if n < 10 {
        String::from_str(digit_str(n))
    } else {
        let mut s = decimal_string(n / 10);
        s.append(digit_str(n % 10));
        assert(s@ =~= decimal(n as nat));
        s
    }
}

/// The id of the request number `seq` of the client `client`.
pub fn transaction_id_string(client: u32, seq: u32) -> (s: String)
    ensures
        s@ == transaction_id(client, seq),
{
    proof {
        reveal_strlit("client");
        reveal_strlit("_op_");
    }
    let mut s = String::from_str("client");
    assert(s@ =~= id_prefix());
    let c = decimal_string(client as u64);
    s.append(c.as_str());
    assert("_op_"@ =~= id_infix());
    s.append("_op_");
    let n = decimal_string(seq as u64);
    s.append(n.as_str());
    s
}

/// A decimal numeral is not empty and holds digits only.
pub proof fn lemma_decimal_digits(n: nat)
    ensures
        decimal(n).len() >= 1,
        forall|i: int| 0 <= i < decimal(n).len() ==> is_digit(#[trigger] decimal(n)[i]),
        n >= 10 ==> decimal(n).len() >= 2,
    decreases n,
{
    if n >= 10 {
        lemma_decimal_digits(n / 10);
    }
}

/// Two numbers with the same decimal numeral are the same number.
pub proof fn lemma_decimal_injective(a: nat, b: nat)
    requires
        decimal(a) == decimal(b),
    ensures
        a == b,
    decreases a,
{
    lemma_decimal_digits(a);
    lemma_decimal_digits(b);
    if a < 10 || b < 10 {
        assert(a < 10 && b < 10);
        assert(decimal(a)[0] == digit(a));
        assert(decimal(b)[0] == digit(b));
    } else {
        let x = decimal(a / 10);
        let y = decimal(b / 10);
        assert(decimal(a) == x.push(digit(a % 10)));
        assert(decimal(b) == y.push(digit(b % 10)));
        assert(x.push(digit(a % 10)).last() == digit(a % 10));
        assert(y.push(digit(b % 10)).last() == digit(b % 10));
        assert(x.push(digit(a % 10)).drop_last() =~= x);
        assert(y.push(digit(b % 10)).drop_last() =~= y);
        lemma_decimal_injective(a / 10, b / 10);
        assert(a % 10 == b % 10);
    }
}

/// Transaction ids are unique: two requests with the same id are the same
/// request of the same client.
pub proof fn law_transaction_ids_differ(client1: u32, seq1: u32, client2: u32, seq2: u32)
    requires
        transaction_id(client1, seq1) == transaction_id(client2, seq2),
    ensures
        client1 == client2,
        seq1 == seq2,
{
    let c1 = decimal(client1 as nat);
    let c2 = decimal(client2 as nat);
    let s1 = decimal(seq1 as nat);
    let s2 = decimal(seq2 as nat);
    let t1 = transaction_id(client1, seq1);
    let t2 = transaction_id(client2, seq2);
    let n1 = c1.len() as int;
    let n2 = c2.len() as int;
    lemma_decimal_digits(client1 as nat);
    lemma_decimal_digits(client2 as nat);
    lemma_decimal_digits(seq1 as nat);
    lemma_decimal_digits(seq2 as nat);
    assert(t1.len() == 6 + c1.len() + 4 + s1.len());
    assert(t2.len() == 6 + c2.len() + 4 + s2.len());
    // The first character after the client's number is no digit, so both
    // numerals of the client end at the same place.
    assert(t1[6 + n1] == '_');
    assert(t2[6 + n2] == '_');
    if n1 < n2 {
        assert(t2[6 + n1] == c2[n1]);
        assert(is_digit(c2[n1]));
    }
    if n2 < n1 {
        assert(t1[6 + n2] == c1[n2]);
        assert(is_digit(c1[n2]));
    }
    assert(n1 == n2);
    assert(c1 =~= c2) by {
        assert forall|i: int| 0 <= i < c1.len() implies c1[i] == c2[i] by {
            assert(t1[6 + i] == c1[i]);
            assert(t2[6 + i] == c2[i]);
        }
    }
    assert(s1 =~= s2) by {
        assert forall|i: int| 0 <= i < s1.len() implies s1[i] == s2[i] by {
            assert(t1[6 + n1 + 4 + i] == s1[i]);
            assert(t2[6 + n2 + 4 + i] == s2[i]);
        }
    }
    lemma_decimal_injective(client1 as nat, client2 as nat);
    lemma_decimal_injective(seq1 as nat, seq2 as nat);
}

} // verus!
