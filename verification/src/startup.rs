use vstd::prelude::*;
use crate::text::push_char;

verus! {

/// The base URL under which the application is reached from outside, handed
/// to the request handlers to build confirmation links.
pub struct ApplicationBaseUrl(pub String);

/// The decimal digit character for `d` (0 to 9).
pub open spec fn digit_char(d: nat) -> char {
    ((d + 48) as u8) as char
}

/// `n` written in decimal, without sign or leading zeros, as `Display`
/// writes an unsigned integer.
pub open spec fn decimal(n: nat) -> Seq<char>
    decreases n,
{
    if n < 10 {
        seq![digit_char(n)]
    } else {
        decimal(n / 10).push(digit_char(n % 10))
    }
}

/// Appends `n` in decimal to `s`.
fn push_decimal(s: &mut String, n: u16)
    ensures
        final(s)@ == old(s)@ + decimal(n as nat),
    decreases n,
{
    if n >= 10 {
        push_decimal(s, n / 10);
    }
    let d: u8 = (n % 10) as u8;
    push_char(s, (d + 48) as char);
    proof {
        if n < 10 {
            assert(old(s)@ + decimal(n as nat) =~= old(s)@.push(digit_char(n as nat)));
        } else {
            assert(old(s)@ + decimal(n as nat) =~= (old(s)@ + decimal((n / 10) as nat)).push(
                digit_char((n % 10) as nat),
            ));
        }
    }
}

/// The address the server listens on: `host:port`.
pub fn listen_address(host: &str, port: u16) -> (address: String)
    ensures
        address@ == host@ + ":"@ + decimal(port as nat),
{
    let mut address = host.to_owned();
    address.append(":");
    push_decimal(&mut address, port);
    address
}

/// The number a string of decimal digits stands for, each character `c`
/// read as the digit `c - '0'`.
pub open spec fn decimal_value(s: Seq<char>) -> int
    decreases s.len(),
{
    if s.len() == 0 {
        0
    } else {
        decimal_value(s.drop_last()) * 10 + (s.last() as int - 48)
    }
}

/// Writing a number in decimal gives only the characters `0` to `9`, no
/// leading zero, and a string that reads back as the number.
pub proof fn lemma_decimal_reads_back(n: nat)
    ensures
        decimal(n).len() >= 1,
        forall|i: int| 0 <= i < decimal(n).len() ==> '0' <= #[trigger] decimal(n)[i] <= '9',
        decimal(n).len() > 1 ==> decimal(n)[0] != '0',
        decimal_value(decimal(n)) == n,
    decreases n,
{
    if n < 10 {
        let d = decimal(n);
        assert(d.drop_last() =~= Seq::<char>::empty());
        assert(decimal_value(d.drop_last()) == 0);
        assert(d.last() as int == n + 48);
    } else {
        lemma_decimal_reads_back(n / 10);
        let d = decimal(n);
        assert(d.drop_last() =~= decimal(n / 10));
        assert(d.last() as int == n % 10 + 48);
        assert forall|i: int| 0 <= i < d.len() implies '0' <= #[trigger] d[i] <= '9' by {
            if i < d.len() - 1 {
                assert(d[i] == decimal(n / 10)[i]);
            }
        }
        assert(d[0] == decimal(n / 10)[0]);
        if n / 10 < 10 {
            assert(decimal(n / 10)[0] as int == n / 10 + 48);
        } else {
            lemma_decimal_reads_back(n / 10 / 10);
            assert(decimal(n / 10).len() > 1);
        }
        assert(decimal_value(d) == decimal_value(decimal(n / 10)) * 10 + (d.last() as int - 48));
        assert(n / 10 * 10 + n % 10 == n);
    }
}

/// The listen address is the host, a colon, then the port's digits, which
/// read back as the port.
pub proof fn lemma_listen_address_reads_back(host: Seq<char>, port: u16)
    ensures
        ({
            let a = host + ":"@ + decimal(port as nat);
            &&& a.subrange(0, host.len() as int) == host
            &&& a[host.len() as int] == ':'
            &&& forall|i: int| host.len() < i < a.len() ==> '0' <= #[trigger] a[i] <= '9'
            &&& decimal_value(a.subrange((host.len() + 1) as int, a.len() as int)) == port
        }),
{
    reveal_strlit(":");
    lemma_decimal_reads_back(port as nat);
    let a = host + ":"@ + decimal(port as nat);
    assert(a.subrange(0, host.len() as int) =~= host);
    assert(a.subrange((host.len() + 1) as int, a.len() as int) =~= decimal(port as nat));
    assert forall|i: int| host.len() < i < a.len() implies '0' <= #[trigger] a[i] <= '9' by {
        assert(a[i] == decimal(port as nat)[i - host.len() - 1]);
    }
}

} // verus!
