//! The puppet's startup decisions.
//!
//! On startup the in-container agent asks the runner for its SSH keys
//! and writes them to the authorized-keys file, one per line; if a
//! network configuration script is configured, it asks for the
//! network identity and hands it to the script through environment
//! variables; a zero exit of the script is success, a non-zero exit
//! or a termination by signal only a warning.  The texts and the
//! variable list are computed here; the surrounding application does
//! the file writing and process running.

use vstd::prelude::*;

use crate::config::{Ipv4Address, Ipv6Address};
use crate::ids::{hex_digit_char, hex_digit_str};
use crate::messages::NetworkConfig;
use crate::zfs::strs;

verus! {

/// A non-negative number in decimal.
pub open spec fn dec_chars(n: int) -> Seq<char>
    decreases n,
{
    if n < 10 {
        seq![hex_digit_char(n)]
    } else {
        dec_chars(n / 10) + seq![hex_digit_char(n % 10)]
    }
}

/// A non-negative number in lowercase hex without leading zeros.
pub open spec fn hexu_chars(n: int) -> Seq<char>
    decreases n,
{
    if n < 16 {
        seq![hex_digit_char(n)]
    } else {
        hexu_chars(n / 16) + seq![hex_digit_char(n % 16)]
    }
}

/// An IPv4 address in dotted decimal.
pub open spec fn v4_text(a: Ipv4Address) -> Seq<char> {
    dec_chars(a.o0 as int) + "."@ + dec_chars(a.o1 as int) + "."@ + dec_chars(a.o2 as int)
        + "."@ + dec_chars(a.o3 as int)
}

/// An IPv6 address as its eight hex groups, colon-separated, without
/// zero-run compression: the library's fixed textual form.
pub open spec fn v6_text(a: Ipv6Address) -> Seq<char> {
    hexu_chars(a.s0 as int) + ":"@ + hexu_chars(a.s1 as int) + ":"@ + hexu_chars(a.s2 as int)
        + ":"@ + hexu_chars(a.s3 as int) + ":"@ + hexu_chars(a.s4 as int) + ":"@ + hexu_chars(
        a.s5 as int,
    ) + ":"@ + hexu_chars(a.s6 as int) + ":"@ + hexu_chars(a.s7 as int)
}

/// Decimal text of a byte-sized value.
pub fn dec_u8(n: u8) -> (r: String)
    ensures
        r@ == dec_chars(n as int),
{
    let mut s = String::new();
    if n >= 100 {
        s.append(hex_digit_str(n / 100));
    }
    if n >= 10 {
        s.append(hex_digit_str((n / 10) % 10));
    }
    s.append(hex_digit_str(n % 10));
    proof {
        let m = n as int;
        if n >= 100 {
            assert(m / 10 / 10 == m / 100) by (nonlinear_arith)
                requires
                    m >= 100,
            ;
            assert(dec_chars(m) == dec_chars(m / 10) + seq![hex_digit_char(m % 10)]);
            assert(dec_chars(m / 10) == dec_chars(m / 10 / 10) + seq![
                hex_digit_char(m / 10 % 10),
            ]);
            assert(m / 100 < 10);
            assert(dec_chars(m / 100) == seq![hex_digit_char(m / 100)]);
            assert(s@ =~= dec_chars(m));
        } else if n >= 10 {
            assert(dec_chars(m) == dec_chars(m / 10) + seq![hex_digit_char(m % 10)]);
            assert(m / 10 < 10);
            assert(dec_chars(m / 10) == seq![hex_digit_char(m / 10)]);
            assert(s@ =~= dec_chars(m));
        } else {
            assert(dec_chars(m) == seq![hex_digit_char(m)]);
            assert(s@ =~= dec_chars(m));
        }
    }
    s
}

/// Lowercase hex text of a 16-bit value, no leading zeros.
pub fn hex_u16(n: u16) -> (r: String)
    ensures
        r@ == hexu_chars(n as int),
{
    let mut s = String::new();
    if n >= 4096 {
        s.append(hex_digit_str((n / 4096) as u8));
    }
    if n >= 256 {
        s.append(hex_digit_str(((n / 256) % 16) as u8));
    }
    if n >= 16 {
        s.append(hex_digit_str(((n / 16) % 16) as u8));
    }
    s.append(hex_digit_str((n % 16) as u8));
    proof {
        let m = n as int;
        assert(m / 16 / 16 == m / 256) by (nonlinear_arith);
        assert(m / 256 / 16 == m / 4096) by (nonlinear_arith);
        if n >= 16 {
            assert(hexu_chars(m) == hexu_chars(m / 16) + seq![hex_digit_char(m % 16)]);
        }
        if n >= 256 {
            assert(hexu_chars(m / 16) == hexu_chars(m / 256) + seq![
                hex_digit_char(m / 16 % 16),
            ]);
        }
        if n >= 4096 {
            assert(hexu_chars(m / 256) == hexu_chars(m / 4096) + seq![
                hex_digit_char(m / 256 % 16),
            ]);
            assert(m / 4096 < 16);
            assert(hexu_chars(m / 4096) == seq![hex_digit_char(m / 4096)]);
        } else if n >= 256 {
            assert(m / 256 < 16);
            assert(hexu_chars(m / 256) == seq![hex_digit_char(m / 256)]);
        } else if n >= 16 {
            assert(m / 16 < 16);
            assert(hexu_chars(m / 16) == seq![hex_digit_char(m / 16)]);
        } else {
            assert(hexu_chars(m) == seq![hex_digit_char(m)]);
        }
        assert(s@ =~= hexu_chars(m));
    }
    s
}

/// Dotted decimal text of an IPv4 address.
pub fn v4_address_text(a: &Ipv4Address) -> (r: String)
    ensures
        r@ == v4_text(*a),
{
    proof {
        reveal_strlit(".");
    }
    let mut s = dec_u8(a.o0);
    s.append(".");
    let t1 = dec_u8(a.o1);
    s.append(t1.as_str());
    s.append(".");
    let t2 = dec_u8(a.o2);
    s.append(t2.as_str());
    s.append(".");
    let t3 = dec_u8(a.o3);
    s.append(t3.as_str());
    proof {
        assert(s@ =~= v4_text(*a));
    }
    s
}

/// Hex-group text of an IPv6 address.
pub fn v6_address_text(a: &Ipv6Address) -> (r: String)
    ensures
        r@ == v6_text(*a),
{
    proof {
        reveal_strlit(":");
    }
    let mut s = hex_u16(a.s0);
    s.append(":");
    let t1 = hex_u16(a.s1);
    s.append(t1.as_str());
    s.append(":");
    let t2 = hex_u16(a.s2);
    s.append(t2.as_str());
    s.append(":");
    let t3 = hex_u16(a.s3);
    s.append(t3.as_str());
    s.append(":");
    let t4 = hex_u16(a.s4);
    s.append(t4.as_str());
    s.append(":");
    let t5 = hex_u16(a.s5);
    s.append(t5.as_str());
    s.append(":");
    let t6 = hex_u16(a.s6);
    s.append(t6.as_str());
    s.append(":");
    let t7 = hex_u16(a.s7);
    s.append(t7.as_str());
    proof {
        assert(s@ =~= v6_text(*a));
    }
    s
}

/// The authorized-keys file: the keys joined by newlines, in order.
pub open spec fn keys_file_chars(keys: Seq<Seq<char>>) -> Seq<char>
    decreases keys.len(),
{
    if keys.len() == 0 {
        Seq::<char>::empty()
    } else if keys.len() == 1 {
        keys[0]
    } else {
        keys_file_chars(keys.drop_last()) + seq!['\n'] + keys.last()
    }
}

/// The content written to the authorized-keys file.
pub fn authorized_keys_content(keys: &Vec<String>) -> (r: String)
    ensures
        r@ == keys_file_chars(strs(keys@)),
{
    proof {
        reveal_strlit("\n");
    }
    let mut s = String::new();
    let mut i: usize = 0;
    while i < keys.len()
        invariant
            i <= keys@.len(),
            s@ == keys_file_chars(strs(keys@).take(i as int)),
        decreases keys@.len() - i,
    {
        if i > 0 {
            s.append("\n");
        }
        s.append(keys[i].as_str());
        proof {
            reveal_strlit("\n");
            assert(strs(keys@).take(i + 1).drop_last() =~= strs(keys@).take(i as int));
            assert(strs(keys@).take(i + 1).last() == strs(keys@)[i as int]);
            assert(s@ =~= keys_file_chars(strs(keys@).take(i + 1)));
        }
        i = i + 1;
    }
    proof {
        assert(strs(keys@).take(strs(keys@).len() as int) =~= strs(keys@));
    }
    s
}

/// Nameserver list variable value: the addresses joined by pipes.
pub open spec fn v4_join_chars(l: Seq<Ipv4Address>) -> Seq<char>
    decreases l.len(),
{
    if l.len() == 0 {
        Seq::<char>::empty()
    } else if l.len() == 1 {
        v4_text(l[0])
    } else {
        v4_join_chars(l.drop_last()) + "|"@ + v4_text(l.last())
    }
}

pub open spec fn v6_join_chars(l: Seq<Ipv6Address>) -> Seq<char>
    decreases l.len(),
{
    if l.len() == 0 {
        Seq::<char>::empty()
    } else if l.len() == 1 {
        v6_text(l[0])
    } else {
        v6_join_chars(l.drop_last()) + "|"@ + v6_text(l.last())
    }
}

fn v4_join(l: &Vec<Ipv4Address>) -> (r: String)
    ensures
        r@ == v4_join_chars(l@),
{
    proof {
        reveal_strlit("|");
    }
    let mut s = String::new();
    let mut i: usize = 0;
    while i < l.len()
        invariant
            i <= l@.len(),
            s@ == v4_join_chars(l@.take(i as int)),
        decreases l@.len() - i,
    {
        if i > 0 {
            s.append("|");
        }
        let t = v4_address_text(&l[i]);
        s.append(t.as_str());
        proof {
            reveal_strlit("|");
            assert(l@.take(i + 1).drop_last() =~= l@.take(i as int));
            assert(l@.take(i + 1).last() == l@[i as int]);
            assert(s@ =~= v4_join_chars(l@.take(i + 1)));
        }
        i = i + 1;
    }
    proof {
        assert(l@.take(l@.len() as int) =~= l@);
    }
    s
}

fn v6_join(l: &Vec<Ipv6Address>) -> (r: String)
    ensures
        r@ == v6_join_chars(l@),
{
    proof {
        reveal_strlit("|");
    }
    let mut s = String::new();
    let mut i: usize = 0;
    while i < l.len()
        invariant
            i <= l@.len(),
            s@ == v6_join_chars(l@.take(i as int)),
        decreases l@.len() - i,
    {
        if i > 0 {
            s.append("|");
        }
        let t = v6_address_text(&l[i]);
        s.append(t.as_str());
        proof {
            reveal_strlit("|");
            assert(l@.take(i + 1).drop_last() =~= l@.take(i as int));
            assert(l@.take(i + 1).last() == l@[i as int]);
            assert(s@ =~= v6_join_chars(l@.take(i + 1)));
        }
        i = i + 1;
    }
    proof {
        assert(l@.take(l@.len() as int) =~= l@);
    }
    s
}

/// The environment handed to the network configuration script.
pub open spec fn spec_script_env(nc: NetworkConfig) -> Seq<(Seq<char>, Seq<char>)> {
    seq![("HOSTNAME"@, nc.hostname@)] + (match nc.interface {
        Option::Some(ifc) => seq![("INTERFACE"@, ifc@)],
        Option::None => Seq::<(Seq<char>, Seq<char>)>::empty(),
    }) + (match nc.ipv4 {
        Option::Some(c) => seq![
            ("IPV4_ADDRESS"@, v4_text(c.address)),
            ("IPV4_PREFIX_LENGTH"@, dec_chars(c.prefix_length as int)),
        ] + (match c.gateway {
            Option::Some(g) => seq![("IPV4_GATEWAY"@, v4_text(g))],
            Option::None => Seq::<(Seq<char>, Seq<char>)>::empty(),
        }) + seq![("IPV4_NAMESERVERS"@, v4_join_chars(c.nameservers@))],
        Option::None => Seq::<(Seq<char>, Seq<char>)>::empty(),
    }) + (match nc.ipv6 {
        Option::Some(c) => seq![
            ("IPV6_ADDRESS"@, v6_text(c.address)),
            ("IPV6_PREFIX_LENGTH"@, dec_chars(c.prefix_length as int)),
        ] + (match c.gateway {
            Option::Some(g) => seq![("IPV6_GATEWAY"@, v6_text(g))],
            Option::None => Seq::<(Seq<char>, Seq<char>)>::empty(),
        }) + seq![("IPV6_NAMESERVERS"@, v6_join_chars(c.nameservers@))],
        Option::None => Seq::<(Seq<char>, Seq<char>)>::empty(),
    })
}

/// The views of a list of name/value pairs.
pub open spec fn pair_strs(v: Seq<(String, String)>) -> Seq<(Seq<char>, Seq<char>)> {
    v.map_values(|p: (String, String)| (p.0@, p.1@))
}

/// Compute the environment variables for the network script.
pub fn network_script_env(nc: &NetworkConfig) -> (r: Vec<(String, String)>)
    ensures
        pair_strs(r@) == spec_script_env(*nc),
{
    proof {
        reveal_strlit("HOSTNAME");
        reveal_strlit("INTERFACE");
        reveal_strlit("IPV4_ADDRESS");
        reveal_strlit("IPV4_PREFIX_LENGTH");
        reveal_strlit("IPV4_GATEWAY");
        reveal_strlit("IPV4_NAMESERVERS");
        reveal_strlit("IPV6_ADDRESS");
        reveal_strlit("IPV6_PREFIX_LENGTH");
        reveal_strlit("IPV6_GATEWAY");
        reveal_strlit("IPV6_NAMESERVERS");
    }
    let mut r: Vec<(String, String)> = Vec::new();
    r.push((String::from_str("HOSTNAME"), nc.hostname.clone()));
    if let Option::Some(ifc) = &nc.interface {
        r.push((String::from_str("INTERFACE"), ifc.clone()));
    }
    if let Option::Some(c) = &nc.ipv4 {
        r.push((String::from_str("IPV4_ADDRESS"), v4_address_text(&c.address)));
        r.push((String::from_str("IPV4_PREFIX_LENGTH"), dec_u8(c.prefix_length)));
        if let Option::Some(g) = &c.gateway {
            r.push((String::from_str("IPV4_GATEWAY"), v4_address_text(g)));
        }
        r.push((String::from_str("IPV4_NAMESERVERS"), v4_join(&c.nameservers)));
    }
    if let Option::Some(c) = &nc.ipv6 {
        r.push((String::from_str("IPV6_ADDRESS"), v6_address_text(&c.address)));
        r.push((String::from_str("IPV6_PREFIX_LENGTH"), dec_u8(c.prefix_length)));
        if let Option::Some(g) = &c.gateway {
            r.push((String::from_str("IPV6_GATEWAY"), v6_address_text(g)));
        }
        r.push((String::from_str("IPV6_NAMESERVERS"), v6_join(&c.nameservers)));
    }
    proof {
        assert(pair_strs(r@) =~~= spec_script_env(*nc));
    }
    r
}

/// How the network script ended.
#[derive(Clone, Copy, Debug, PartialEq, Eq, Structural)]
pub enum ScriptOutcome {
    Success,
    NonZeroExit(i32),
    KilledBySignal,
}

/// A zero exit code is success, any other exit code is a warning,
/// and termination by a signal (no exit code) is a warning too.
pub fn classify_script_status(code: Option<i32>) -> (r: ScriptOutcome)
    ensures
        match code {
            Option::Some(c) => r == (if c == 0 {
                ScriptOutcome::Success
            } else {
                ScriptOutcome::NonZeroExit(c)
            }),
            Option::None => r == ScriptOutcome::KilledBySignal,
        },
{
    match code {
        Option::Some(c) => {
            if c == 0 {
                ScriptOutcome::Success
            } else {
                ScriptOutcome::NonZeroExit(c)
            }
        },
        Option::None => ScriptOutcome::KilledBySignal,
    }
}

} // verus!
