use vstd::prelude::*;
use vstd::string::*;

verus! {

pub const DEFAULT_PORT: u16 = 50051;

pub const DEFAULT_THREADS: usize = 50;

pub const DEFAULT_REQUESTS_PER_THREAD: usize = 100;

/// The decimal digit for `d`, which is below ten.
pub open spec fn digit_char(d: nat) -> char {
    "0123456789"@[d as int]
}

/// `n` written in decimal, without leading zeros.
pub open spec fn decimal(n: nat) -> Seq<char>
    decreases n,
{
    if n < 10 {
        seq![digit_char(n)]
    } else {
        decimal(n / 10) + seq![digit_char(n % 10)]
    }
}

fn digit_str(d: u16) -> (r: &'static str)
    requires
        d < 10,
    ensures
        r@ == seq![digit_char(d as nat)],
{
    proof {
        reveal_strlit("0123456789");
    }
    let r = match d {
        0 => {
            proof {
                reveal_strlit("0");
            }
            "0"
        },
        1 => {
            proof {
                reveal_strlit("1");
            }
            "1"
        },
        2 => {
            proof {
                reveal_strlit("2");
            }
            "2"
        },
        3 => {
            proof {
                reveal_strlit("3");
            }
            "3"
        },
        4 => {
            proof {
                reveal_strlit("4");
            }
            "4"
        },
        5 => {
            proof {
                reveal_strlit("5");
            }
            "5"
        },
        6 => {
            proof {
                reveal_strlit("6");
            }
            "6"
        },
        7 => {
            proof {
                reveal_strlit("7");
            }
            "7"
        },
        8 => {
            proof {
                reveal_strlit("8");
            }
            "8"
        },
        _ => {
            proof {
                reveal_strlit("9");
            }
            "9"
        },
    };
    assert(r@ =~= seq![digit_char(d as nat)]);
    r
}

/// Appends `n` in decimal to `s`.
fn append_decimal(s: &mut String, n: u16)
    ensures
        final(s)@ == old(s)@ + decimal(n as nat),
    decreases n,
{
    if n >= 10 {
        append_decimal(s, n / 10);
    }
    s.append(digit_str(n % 10));
    assert(final(s)@ =~= old(s)@ + decimal(n as nat));
}

/// An ASCII decimal digit.
pub open spec fn is_digit_byte(c: u8) -> bool {
    48 <= c <= 57
}

/// The number that the ASCII digits `d` write in decimal.
pub open spec fn digits_value(d: Seq<u8>) -> nat
    decreases d.len(),
{
    if d.len() == 0 {
        0
    } else {
        digits_value(d.drop_last()) * 10 + (d.last() - 48) as nat
    }
}

/// The digits of a port number: the text after an optional leading `+`.
pub open spec fn port_digits(b: Seq<u8>) -> Seq<u8> {
    if b.len() > 0 && b[0] == 43 {
        b.drop_first()
    } else {
        b
    }
}

/// The port that the text `b` names: one or more decimal digits, after an
/// optional `+`, of a value that fits in 16 bits.
pub open spec fn port_of(b: Seq<u8>) -> Option<u16> {
    let d = port_digits(b);
    if d.len() > 0 && (forall|i: int| 0 <= i < d.len() ==> is_digit_byte(#[trigger] d[i]))
        && digits_value(d) <= u16::MAX {
        Some(digits_value(d) as u16)
    } else {
        None
    }
}

/// Reads a port number written in decimal.
pub fn parse_port(s: &str) -> (r: Option<u16>)
    ensures
        r == port_of(s.spec_bytes()),
{
    let b = s.as_bytes();
    let ghost d = port_digits(b@);
    let start: usize = if b.len() > 0 && b[0] == 43 { 1 } else { 0 };
    if start >= b.len() {
        return None;
    }
    assert(d =~= b@.subrange(start as int, b@.len() as int));
    // `acc` is the value read so far, or 65536 once it exceeds 16 bits
    let mut acc: u32 = 0;
    let mut i: usize = start;
    while i < b.len()
        invariant
            b@ == s.spec_bytes(),
            d == port_digits(b@),
            start <= i <= b.len(),
            d == b@.subrange(start as int, b@.len() as int),
            forall|j: int| 0 <= j < i - start ==> is_digit_byte(#[trigger] d[j]),
            acc == if digits_value(d.take(i - start)) > 65535 {
                65536
            } else {
                digits_value(d.take(i - start))
            },
        decreases b.len() - i,
    {
        let c = b[i];
        assert(d[i - start] == c);
        if c < 48 || c > 57 {
            let ghost k: int = i - start;
            assert(0 <= k < d.len() && !is_digit_byte(d[k]));
            assert(!(forall|j: int| 0 <= j < d.len() ==> is_digit_byte(#[trigger] d[j])));
            return None;
        }
        let ghost k: int = i - start;
        assert(d.take(k + 1).drop_last() =~= d.take(k));
        let ghost prev = digits_value(d.take(k));
        let ghost next = digits_value(d.take(k + 1));
        assert(next == prev * 10 + (c - 48) as nat);
        if acc > 65535 {
            assert(next > 65535) by (nonlinear_arith)
                requires
                    prev > 65535,
                    next == prev * 10 + (c - 48) as nat,
            ;
        } else {
            acc = acc * 10 + (c - 48) as u32;
            if acc > 65535 {
                acc = 65536;
            }
        }
        i = i + 1;
    }
    assert(d.take(d.len() as int) =~= d);
    if acc > 65535 {
        None
    } else {
        Some(acc as u16)
    }
}

/// Settings of a load-generation run.
#[derive(Clone, Debug)]
pub struct LoadTestConfig {
    pub num_threads: usize,
    pub requests_per_thread: usize,
    pub server_url: String,
}

impl Default for LoadTestConfig {
    fn default() -> (r: LoadTestConfig)
        ensures
            r.num_threads == DEFAULT_THREADS,
            r.requests_per_thread == DEFAULT_REQUESTS_PER_THREAD,
            r.server_url@ == "http://127.0.0.1:50051"@,
    {
        LoadTestConfig {
            num_threads: DEFAULT_THREADS,
            requests_per_thread: DEFAULT_REQUESTS_PER_THREAD,
            server_url: String::from_str("http://127.0.0.1:50051"),
        }
    }
}

impl LoadTestConfig {
    /// Requests sent over the whole run.
    pub fn total_requests(&self) -> (r: usize)
        requires
            self.num_threads * self.requests_per_thread <= usize::MAX,
        ensures
            r == self.num_threads * self.requests_per_thread,
    {
        self.num_threads * self.requests_per_thread
    }
}

/// Where the service listens.
#[derive(Clone, Debug)]
pub struct ServerConfig {
    pub bind_address: String,
    pub port: u16,
}

impl Default for ServerConfig {
    fn default() -> (r: ServerConfig)
        ensures
            r.bind_address@ == "127.0.0.1"@,
            r.port == DEFAULT_PORT,
    {
        ServerConfig { bind_address: String::from_str("127.0.0.1"), port: DEFAULT_PORT }
    }
}

impl ServerConfig {
    /// The settings given, with the default in place of each one missing.
    pub fn from_parts(bind_address: Option<String>, port: Option<u16>) -> (r: ServerConfig)
        ensures
            r.bind_address@ == match bind_address {
                Some(a) => a@,
                None => "127.0.0.1"@,
            },
            r.port == match port {
                Some(p) => p,
                None => DEFAULT_PORT,
            },
    {
        let bind_address = match bind_address {
            Some(a) => a,
            None => String::from_str("127.0.0.1"),
        };
        let port = match port {
            Some(p) => p,
            None => DEFAULT_PORT,
        };
        ServerConfig { bind_address, port }
    }

    /// `address:port`, the port in decimal.
    pub fn socket_addr(&self) -> (r: String)
        ensures
            r@ == self.bind_address@ + seq![':'] + decimal(self.port as nat),
    {
        let mut r = self.bind_address.clone();
        r.append(":");
        proof {
            reveal_strlit(":");
        }
        append_decimal(&mut r, self.port);
        r
    }
}

} // verus!
