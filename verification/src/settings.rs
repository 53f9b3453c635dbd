use vstd::prelude::*;

verus! {

/// A decimal digit.
pub open spec fn is_dec_digit(c: char) -> bool {
    '0' <= c && c <= '9'
}

/// The numeric value of a sequence of decimal digits, most significant
/// digit first.
pub open spec fn dec_value(s: Seq<char>) -> nat
    decreases s.len(),
{
    if s.len() == 0 {
        0
    } else {
        (dec_value(s.drop_last()) * 10 + (s.last() as u32 - '0' as u32)) as nat
    }
}

/// The text forms accepted for the listening port: a non-empty, all-decimal
/// string whose value fits in sixteen bits.
pub open spec fn valid_port_text(s: Seq<char>) -> bool {
    &&& s.len() > 0
    &&& (forall|i: int| 0 <= i < s.len() ==> is_dec_digit(#[trigger] s[i]))
    &&& dec_value(s) <= 65535
}

/// Once the value of a prefix exceeds the port range, every longer prefix
/// exceeds it as well: appending a digit multiplies the value by ten.
proof fn lemma_dec_value_grows(s: Seq<char>, i: int, j: int)
    requires
        0 <= i <= j <= s.len(),
        dec_value(s.take(i)) > 65535,
    ensures
        dec_value(s.take(j)) > 65535,
    decreases j - i,
{
    if i < j {
        lemma_dec_value_grows(s, i, j - 1);
        assert(s.take(j).drop_last() =~= s.take(j - 1));
        assert(s.take(j).len() == j);
        assert(dec_value(s.take(j)) == (dec_value(s.take(j - 1)) * 10 + (s.take(j).last() as u32
            - '0' as u32)) as nat);
        assert(s.take(j).last() as u32 >= 0);
        assert(dec_value(s.take(j - 1)) * 10 + (s.take(j).last() as u32 - '0' as u32) > 65535);
    }
}

/// Parses the decimal text of a port number. Returns the value exactly when
/// the text is a non-empty string of decimal digits whose value fits in
/// sixteen bits, and nothing otherwise.
pub fn parse_port(s: &str) -> (r: Option<u16>)
    ensures
        valid_port_text(s@) ==> r == Some((dec_value(s@) as u16)),
        !valid_port_text(s@) ==> r is None,
{
    let n = s.unicode_len();
    if n == 0 {
        return None;
    }
    let mut i: usize = 0;
    let mut acc: u32 = 0;
    while i < n
        invariant
            n == s@.len(),
            0 < n,
            i <= n,
            forall|j: int| 0 <= j < i ==> is_dec_digit(#[trigger] s@[j]),
            acc == dec_value(s@.take(i as int)),
            acc <= 65535,
        decreases n - i,
    {
        let c = s.get_char(i);
        if !('0' <= c && c <= '9') {
            return None;
        }
        let d: u32 = c as u32 - '0' as u32;
        let next: u32 = acc * 10 + d;
        proof {
            assert(s@.take(i + 1).drop_last() =~= s@.take(i as int));
            assert(s@.take(i + 1).last() == s@[i as int]);
            assert(next == dec_value(s@.take(i + 1)));
        }
        if next > 65535 {
            proof {
                lemma_dec_value_grows(s@, i + 1, n as int);
                assert(s@.take(n as int) =~= s@);
            }
            return None;
        }
        acc = next;
        i = i + 1;
    }
    proof {
        assert(s@.take(n as int) =~= s@);
    }
    Some(acc as u16)
}

/// The settings an instance of the service runs with. Every value is
/// required; the process does not start without a complete, well-formed
/// set (the caller reads the raw values from its environment).
pub struct Settings {
    /// The web server port to run on.
    pub port: u16,
    /// The document store url.
    pub database_url: String,
    /// The message broker address.
    pub amqp_addr: String,
    /// The cache service url.
    pub redis_url: String,
}

impl Settings {
    /// Builds the settings from the configured raw values. Succeeds exactly
    /// when the port text is a well-formed port number; the three addresses
    /// are opaque here and carried through unchanged.
    pub fn from_values(port_text: &str, database_url: String, amqp_addr: String, redis_url: String) -> (r:
        Option<Settings>)
        ensures
            !valid_port_text(port_text@) ==> r is None,
            valid_port_text(port_text@) ==> (r matches Some(s) && s.port == dec_value(port_text@) as u16
                && s.database_url@ == database_url@ && s.amqp_addr@ == amqp_addr@ && s.redis_url@
                == redis_url@),
    {
        match parse_port(port_text) {
            Some(port) => Some(
                Settings { port, database_url, amqp_addr, redis_url },
            ),
            None => None,
        }
    }
}

} // verus!
