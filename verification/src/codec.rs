//! The control-socket wire format.
//!
//! One datagram carries one message as UTF-8 text: a discriminant
//! keyword per message kind, numbers as 64-bit lowercase hex, and
//! strings length-prefixed — every field terminated by a newline, so
//! a message is self-delimited and never ambiguous.  The spec
//! functions `spec_encode_*` define the format; the encoders produce
//! exactly those texts, the decoders return exactly what the spec
//! parsers `p_*` accept, and the round-trip laws at the end prove
//! that decoding an encoded message gives the message back, in both
//! directions.

use vstd::arithmetic::power2::pow2;
use vstd::prelude::*;

use crate::config::{Ipv4Address, Ipv6Address};
use crate::ids::{hex_digit_char, hex_digit_str};
use crate::messages::{
    Ipv4NetworkConfig, Ipv6NetworkConfig, NetworkConfig, PuppetEvent, PuppetMsg, PuppetReq,
    RunnerMsg, RunnerResp,
};

verus! {

// ---------------------------------------------------------------
// Abstract message contents.
// ---------------------------------------------------------------

#[verifier::ext_equal]
pub struct Ipv4NetView {
    pub address: Ipv4Address,
    pub prefix_length: u8,
    pub gateway: Option<Ipv4Address>,
    pub nameservers: Seq<Ipv4Address>,
}

#[verifier::ext_equal]
pub struct Ipv6NetView {
    pub address: Ipv6Address,
    pub prefix_length: u8,
    pub gateway: Option<Ipv6Address>,
    pub nameservers: Seq<Ipv6Address>,
}

#[verifier::ext_equal]
pub struct NetworkConfigView {
    pub hostname: Seq<char>,
    pub interface: Option<Seq<char>>,
    pub ipv4: Option<Ipv4NetView>,
    pub ipv6: Option<Ipv6NetView>,
}

#[verifier::ext_equal]
pub enum RunnerRespView {
    SSHKeysResp { ssh_keys: Seq<Seq<char>> },
    NetworkConfig(NetworkConfigView),
    JobNotFound,
}

#[verifier::ext_equal]
pub enum RunnerMsgView {
    Response { request_id: u64, response: RunnerRespView },
    Event { runner_event_id: u64 },
    Error { message: Seq<char> },
}

#[verifier::ext_equal]
pub enum PuppetMsgView {
    Request { request_id: u64, request: PuppetReq },
    Event { puppet_event_id: u64, event: PuppetEvent },
}

pub open spec fn v4net_view(c: Ipv4NetworkConfig) -> Ipv4NetView {
    Ipv4NetView {
        address: c.address,
        prefix_length: c.prefix_length,
        gateway: c.gateway,
        nameservers: c.nameservers@,
    }
}

pub open spec fn v6net_view(c: Ipv6NetworkConfig) -> Ipv6NetView {
    Ipv6NetView {
        address: c.address,
        prefix_length: c.prefix_length,
        gateway: c.gateway,
        nameservers: c.nameservers@,
    }
}

pub open spec fn netcfg_view(c: NetworkConfig) -> NetworkConfigView {
    NetworkConfigView {
        hostname: c.hostname@,
        interface: match c.interface {
            Option::Some(s) => Option::Some(s@),
            Option::None => Option::None,
        },
        ipv4: match c.ipv4 {
            Option::Some(n) => Option::Some(v4net_view(n)),
            Option::None => Option::None,
        },
        ipv6: match c.ipv6 {
            Option::Some(n) => Option::Some(v6net_view(n)),
            Option::None => Option::None,
        },
    }
}

pub open spec fn resp_view(r: RunnerResp) -> RunnerRespView {
    match r {
        RunnerResp::SSHKeysResp { ssh_keys } => RunnerRespView::SSHKeysResp {
            ssh_keys: ssh_keys@.map_values(|s: String| s@),
        },
        RunnerResp::NetworkConfig(nc) => RunnerRespView::NetworkConfig(netcfg_view(nc)),
        RunnerResp::JobNotFound => RunnerRespView::JobNotFound,
    }
}

pub open spec fn runner_msg_view(m: RunnerMsg) -> RunnerMsgView {
    match m {
        RunnerMsg::Response { request_id, response } => RunnerMsgView::Response {
            request_id,
            response: resp_view(response),
        },
        RunnerMsg::Event { runner_event_id } => RunnerMsgView::Event { runner_event_id },
        RunnerMsg::Error { message } => RunnerMsgView::Error { message: message@ },
    }
}

pub open spec fn puppet_msg_view(m: PuppetMsg) -> PuppetMsgView {
    match m {
        PuppetMsg::Request { request_id, request } => PuppetMsgView::Request {
            request_id,
            request,
        },
        PuppetMsg::Event { puppet_event_id, event } => PuppetMsgView::Event {
            puppet_event_id,
            event,
        },
    }
}

// ---------------------------------------------------------------
// The format, as text.
// ---------------------------------------------------------------

/// The k-th nibble of a 64-bit value, from the most significant end.
pub open spec fn nibble64(v: u64, k: int) -> u64 {
    (v >> ((4 * (15 - k)) as u64)) & 0xf
}

/// A number on the wire: 16 lowercase hex digits and a newline.
pub open spec fn num_chars(v: u64) -> Seq<char> {
    Seq::new(16, |k: int| hex_digit_char(nibble64(v, k) as int)) + seq!['\n']
}

/// A string on the wire: its character count, the characters, a
/// newline.
pub open spec fn str_chars(s: Seq<char>) -> Seq<char> {
    num_chars(s.len() as u64) + s + seq!['\n']
}

/// A keyword on the wire: its characters and a newline.
pub open spec fn kw_chars(k: Seq<char>) -> Seq<char> {
    k + seq!['\n']
}

pub open spec fn enc_v4addr(a: Ipv4Address) -> Seq<char> {
    num_chars(a.o0 as u64) + num_chars(a.o1 as u64) + num_chars(a.o2 as u64) + num_chars(
        a.o3 as u64,
    )
}

pub open spec fn enc_v6addr(a: Ipv6Address) -> Seq<char> {
    num_chars(a.s0 as u64) + num_chars(a.s1 as u64) + num_chars(a.s2 as u64) + num_chars(
        a.s3 as u64,
    ) + num_chars(a.s4 as u64) + num_chars(a.s5 as u64) + num_chars(a.s6 as u64) + num_chars(
        a.s7 as u64,
    )
}

pub open spec fn enc_opt_v4addr(g: Option<Ipv4Address>) -> Seq<char> {
    match g {
        Option::Some(a) => kw_chars("some"@) + enc_v4addr(a),
        Option::None => kw_chars("none"@),
    }
}

pub open spec fn enc_opt_v6addr(g: Option<Ipv6Address>) -> Seq<char> {
    match g {
        Option::Some(a) => kw_chars("some"@) + enc_v6addr(a),
        Option::None => kw_chars("none"@),
    }
}

pub open spec fn enc_v4list(l: Seq<Ipv4Address>) -> Seq<char>
    decreases l.len(),
{
    if l.len() == 0 {
        Seq::<char>::empty()
    } else {
        enc_v4list(l.drop_last()) + enc_v4addr(l.last())
    }
}

pub open spec fn enc_v6list(l: Seq<Ipv6Address>) -> Seq<char>
    decreases l.len(),
{
    if l.len() == 0 {
        Seq::<char>::empty()
    } else {
        enc_v6list(l.drop_last()) + enc_v6addr(l.last())
    }
}

pub open spec fn enc_v4net(n: Ipv4NetView) -> Seq<char> {
    enc_v4addr(n.address) + num_chars(n.prefix_length as u64) + enc_opt_v4addr(n.gateway)
        + num_chars(n.nameservers.len() as u64) + enc_v4list(n.nameservers)
}

pub open spec fn enc_v6net(n: Ipv6NetView) -> Seq<char> {
    enc_v6addr(n.address) + num_chars(n.prefix_length as u64) + enc_opt_v6addr(n.gateway)
        + num_chars(n.nameservers.len() as u64) + enc_v6list(n.nameservers)
}

pub open spec fn enc_opt_str(s: Option<Seq<char>>) -> Seq<char> {
    match s {
        Option::Some(t) => kw_chars("some"@) + str_chars(t),
        Option::None => kw_chars("none"@),
    }
}

pub open spec fn enc_opt_v4net(n: Option<Ipv4NetView>) -> Seq<char> {
    match n {
        Option::Some(v) => kw_chars("some"@) + enc_v4net(v),
        Option::None => kw_chars("none"@),
    }
}

pub open spec fn enc_opt_v6net(n: Option<Ipv6NetView>) -> Seq<char> {
    match n {
        Option::Some(v) => kw_chars("some"@) + enc_v6net(v),
        Option::None => kw_chars("none"@),
    }
}

pub open spec fn enc_netcfg(nc: NetworkConfigView) -> Seq<char> {
    str_chars(nc.hostname) + enc_opt_str(nc.interface) + enc_opt_v4net(nc.ipv4) + enc_opt_v6net(
        nc.ipv6,
    )
}

pub open spec fn enc_str_list(l: Seq<Seq<char>>) -> Seq<char>
    decreases l.len(),
{
    if l.len() == 0 {
        Seq::<char>::empty()
    } else {
        enc_str_list(l.drop_last()) + str_chars(l.last())
    }
}

pub open spec fn enc_resp(r: RunnerRespView) -> Seq<char> {
    match r {
        RunnerRespView::SSHKeysResp { ssh_keys } => kw_chars("ssh_keys"@) + num_chars(
            ssh_keys.len() as u64,
        ) + enc_str_list(ssh_keys),
        RunnerRespView::NetworkConfig(nc) => kw_chars("network_config"@) + enc_netcfg(nc),
        RunnerRespView::JobNotFound => kw_chars("job_not_found"@),
    }
}

/// A runner-to-puppet datagram, as text.
pub open spec fn spec_encode_runner_msg(m: RunnerMsgView) -> Seq<char> {
    match m {
        RunnerMsgView::Response { request_id, response } => kw_chars("response"@) + num_chars(
            request_id,
        ) + enc_resp(response),
        RunnerMsgView::Event { runner_event_id } => kw_chars("runner_event"@) + num_chars(
            runner_event_id,
        ),
        RunnerMsgView::Error { message } => kw_chars("error"@) + str_chars(message),
    }
}

pub open spec fn enc_req(r: PuppetReq) -> Seq<char> {
    match r {
        PuppetReq::SSHKeys => kw_chars("ssh_keys"@),
        PuppetReq::NetworkConfig => kw_chars("network_config"@),
    }
}

pub open spec fn enc_puppet_event(e: PuppetEvent) -> Seq<char> {
    match e {
        PuppetEvent::Ready => kw_chars("ready"@),
    }
}

/// A puppet-to-runner datagram, as text.
pub open spec fn spec_encode_puppet_msg(m: PuppetMsgView) -> Seq<char> {
    match m {
        PuppetMsgView::Request { request_id, request } => kw_chars("request"@) + num_chars(
            request_id,
        ) + enc_req(request),
        PuppetMsgView::Event { puppet_event_id, event } => kw_chars("event"@) + num_chars(
            puppet_event_id,
        ) + enc_puppet_event(event),
    }
}

// ---------------------------------------------------------------
// Encoders.
// ---------------------------------------------------------------

fn put_newline(out: &mut String)
    ensures
        final(out)@ == old(out)@ + seq!['\n'],
{
    proof {
        reveal_strlit("\n");
    }
    out.append("\n");
    proof {
        assert(final(out)@ =~= old(out)@ + seq!['\n']);
    }
}

fn put_num(out: &mut String, v: u64)
    ensures
        final(out)@ == old(out)@ + num_chars(v),
{
    let ghost base = out@;
    let mut k: usize = 0;
    while k < 16
        invariant
            k <= 16,
            out@ == base + Seq::new(k as nat, |j: int| hex_digit_char(nibble64(v, j) as int)),
        decreases 16 - k,
    {
        let sh: u64 = 4 * (15 - (k as u64));
        let nib: u8 = ((v >> sh) & 0xf) as u8;
        proof {
            assert((v >> sh) & 0xf < 16) by (bit_vector);
            assert(nib as u64 == nibble64(v, k as int));
        }
        out.append(hex_digit_str(nib));
        proof {
            assert(out@ =~= base + Seq::new(
                (k + 1) as nat,
                |j: int| hex_digit_char(nibble64(v, j) as int),
            ));
        }
        k = k + 1;
    }
    put_newline(out);
    proof {
        assert(final(out)@ =~= base + num_chars(v));
    }
}

fn put_kw(out: &mut String, kw: &str)
    ensures
        final(out)@ == old(out)@ + kw_chars(kw@),
{
    out.append(kw);
    put_newline(out);
    proof {
        assert(final(out)@ =~= old(out)@ + kw_chars(kw@));
    }
}

fn put_str(out: &mut String, s: &str)
    ensures
        final(out)@ == old(out)@ + str_chars(s@),
{
    let n = s.unicode_len();
    put_num(out, n as u64);
    out.append(s);
    put_newline(out);
    proof {
        assert(final(out)@ =~= old(out)@ + str_chars(s@));
    }
}

fn put_v4addr(out: &mut String, a: &Ipv4Address)
    ensures
        final(out)@ == old(out)@ + enc_v4addr(*a),
{
    put_num(out, a.o0 as u64);
    put_num(out, a.o1 as u64);
    put_num(out, a.o2 as u64);
    put_num(out, a.o3 as u64);
    proof {
        assert(final(out)@ =~= old(out)@ + enc_v4addr(*a));
    }
}

fn put_v6addr(out: &mut String, a: &Ipv6Address)
    ensures
        final(out)@ == old(out)@ + enc_v6addr(*a),
{
    put_num(out, a.s0 as u64);
    put_num(out, a.s1 as u64);
    put_num(out, a.s2 as u64);
    put_num(out, a.s3 as u64);
    put_num(out, a.s4 as u64);
    put_num(out, a.s5 as u64);
    put_num(out, a.s6 as u64);
    put_num(out, a.s7 as u64);
    proof {
        assert(final(out)@ =~= old(out)@ + enc_v6addr(*a));
    }
}

fn put_v4net(out: &mut String, n: &Ipv4NetworkConfig)
    ensures
        final(out)@ == old(out)@ + enc_v4net(v4net_view(*n)),
{
    put_v4addr(out, &n.address);
    put_num(out, n.prefix_length as u64);
    match &n.gateway {
        Option::Some(g) => {
            put_kw(out, "some");
            put_v4addr(out, g);
        },
        Option::None => {
            put_kw(out, "none");
        },
    }
    put_num(out, n.nameservers.len() as u64);
    let ghost mid = out@;
    let mut i: usize = 0;
    while i < n.nameservers.len()
        invariant
            i <= n.nameservers@.len(),
            out@ == mid + enc_v4list(n.nameservers@.take(i as int)),
        decreases n.nameservers@.len() - i,
    {
        put_v4addr(out, &n.nameservers[i]);
        proof {
            assert(n.nameservers@.take(i + 1).drop_last() =~= n.nameservers@.take(i as int));
            assert(n.nameservers@.take(i + 1).last() == n.nameservers@[i as int]);
            assert(out@ =~= mid + enc_v4list(n.nameservers@.take(i + 1)));
        }
        i = i + 1;
    }
    proof {
        assert(n.nameservers@.take(n.nameservers@.len() as int) =~= n.nameservers@);
        assert(final(out)@ =~= old(out)@ + enc_v4net(v4net_view(*n)));
    }
}

fn put_v6net(out: &mut String, n: &Ipv6NetworkConfig)
    ensures
        final(out)@ == old(out)@ + enc_v6net(v6net_view(*n)),
{
    put_v6addr(out, &n.address);
    put_num(out, n.prefix_length as u64);
    match &n.gateway {
        Option::Some(g) => {
            put_kw(out, "some");
            put_v6addr(out, g);
        },
        Option::None => {
            put_kw(out, "none");
        },
    }
    put_num(out, n.nameservers.len() as u64);
    let ghost mid = out@;
    let mut i: usize = 0;
    while i < n.nameservers.len()
        invariant
            i <= n.nameservers@.len(),
            out@ == mid + enc_v6list(n.nameservers@.take(i as int)),
        decreases n.nameservers@.len() - i,
    {
        put_v6addr(out, &n.nameservers[i]);
        proof {
            assert(n.nameservers@.take(i + 1).drop_last() =~= n.nameservers@.take(i as int));
            assert(n.nameservers@.take(i + 1).last() == n.nameservers@[i as int]);
            assert(out@ =~= mid + enc_v6list(n.nameservers@.take(i + 1)));
        }
        i = i + 1;
    }
    proof {
        assert(n.nameservers@.take(n.nameservers@.len() as int) =~= n.nameservers@);
        assert(final(out)@ =~= old(out)@ + enc_v6net(v6net_view(*n)));
    }
}

#[verifier::rlimit(60)]
fn put_netcfg(out: &mut String, nc: &NetworkConfig)
    ensures
        final(out)@ == old(out)@ + enc_netcfg(netcfg_view(*nc)),
{
    put_str(out, nc.hostname.as_str());
    match &nc.interface {
        Option::Some(s) => {
            put_kw(out, "some");
            put_str(out, s.as_str());
        },
        Option::None => {
            put_kw(out, "none");
        },
    }
    match &nc.ipv4 {
        Option::Some(n) => {
            put_kw(out, "some");
            put_v4net(out, n);
        },
        Option::None => {
            put_kw(out, "none");
        },
    }
    match &nc.ipv6 {
        Option::Some(n) => {
            put_kw(out, "some");
            put_v6net(out, n);
        },
        Option::None => {
            put_kw(out, "none");
        },
    }
    proof {
        assert(final(out)@ =~= old(out)@ + enc_netcfg(netcfg_view(*nc)));
    }
}

/// Encode a runner-to-puppet datagram.
pub fn encode_runner_msg(m: &RunnerMsg) -> (r: String)
    ensures
        r@ == spec_encode_runner_msg(runner_msg_view(*m)),
{
    let mut out = String::new();
    match m {
        RunnerMsg::Response { request_id, response } => {
            put_kw(&mut out, "response");
            put_num(&mut out, *request_id);
            match response {
                RunnerResp::SSHKeysResp { ssh_keys } => {
                    put_kw(&mut out, "ssh_keys");
                    put_num(&mut out, ssh_keys.len() as u64);
                    let ghost mid = out@;
                    let ghost keys_view = ssh_keys@.map_values(|s: String| s@);
                    let mut i: usize = 0;
                    while i < ssh_keys.len()
                        invariant
                            i <= ssh_keys@.len(),
                            keys_view == ssh_keys@.map_values(|s: String| s@),
                            out@ == mid + enc_str_list(keys_view.take(i as int)),
                        decreases ssh_keys@.len() - i,
                    {
                        put_str(&mut out, ssh_keys[i].as_str());
                        proof {
                            assert(keys_view.take(i + 1).drop_last() =~= keys_view.take(
                                i as int,
                            ));
                            assert(keys_view.take(i + 1).last() == keys_view[i as int]);
                            assert(out@ =~= mid + enc_str_list(keys_view.take(i + 1)));
                        }
                        i = i + 1;
                    }
                    proof {
                        assert(keys_view.take(keys_view.len() as int) =~= keys_view);
                    }
                },
                RunnerResp::NetworkConfig(nc) => {
                    put_kw(&mut out, "network_config");
                    put_netcfg(&mut out, nc);
                },
                RunnerResp::JobNotFound => {
                    put_kw(&mut out, "job_not_found");
                },
            }
        },
        RunnerMsg::Event { runner_event_id } => {
            put_kw(&mut out, "runner_event");
            put_num(&mut out, *runner_event_id);
        },
        RunnerMsg::Error { message } => {
            put_kw(&mut out, "error");
            put_str(&mut out, message.as_str());
        },
    }
    proof {
        assert(out@ =~= spec_encode_runner_msg(runner_msg_view(*m)));
    }
    out
}

/// Encode a puppet-to-runner datagram.
pub fn encode_puppet_msg(m: &PuppetMsg) -> (r: String)
    ensures
        r@ == spec_encode_puppet_msg(puppet_msg_view(*m)),
{
    let mut out = String::new();
    match m {
        PuppetMsg::Request { request_id, request } => {
            put_kw(&mut out, "request");
            put_num(&mut out, *request_id);
            match request {
                PuppetReq::SSHKeys => put_kw(&mut out, "ssh_keys"),
                PuppetReq::NetworkConfig => put_kw(&mut out, "network_config"),
            }
        },
        PuppetMsg::Event { puppet_event_id, event } => {
            put_kw(&mut out, "event");
            put_num(&mut out, *puppet_event_id);
            match event {
                PuppetEvent::Ready => put_kw(&mut out, "ready"),
            }
        },
    }
    proof {
        assert(out@ =~= spec_encode_puppet_msg(puppet_msg_view(*m)));
    }
    out
}

} // verus!

// ---------------------------------------------------------------
// Parsers.
// ---------------------------------------------------------------

verus! {

/// The value of a lowercase hex digit.
pub open spec fn hex_val(c: char) -> Option<u64> {
    if c == '0' {
        Option::Some(0u64)
    } else if c == '1' {
        Option::Some(1u64)
    } else if c == '2' {
        Option::Some(2u64)
    } else if c == '3' {
        Option::Some(3u64)
    } else if c == '4' {
        Option::Some(4u64)
    } else if c == '5' {
        Option::Some(5u64)
    } else if c == '6' {
        Option::Some(6u64)
    } else if c == '7' {
        Option::Some(7u64)
    } else if c == '8' {
        Option::Some(8u64)
    } else if c == '9' {
        Option::Some(9u64)
    } else if c == 'a' {
        Option::Some(10u64)
    } else if c == 'b' {
        Option::Some(11u64)
    } else if c == 'c' {
        Option::Some(12u64)
    } else if c == 'd' {
        Option::Some(13u64)
    } else if c == 'e' {
        Option::Some(14u64)
    } else if c == 'f' {
        Option::Some(15u64)
    } else {
        Option::None
    }
}

pub open spec fn p_num_digits(s: Seq<char>, pos: int, acc: int) -> Option<(u64, int)>
    decreases s.len() - pos,
{
    if pos < 0 || pos >= s.len() {
        Option::None
    } else if s[pos] == '\n' {
        Option::Some((acc as u64, pos + 1))
    } else {
        match hex_val(s[pos]) {
            Option::Some(d) => {
                if acc * 16 + d > u64::MAX {
                    Option::None
                } else {
                    p_num_digits(s, pos + 1, acc * 16 + d)
                }
            },
            Option::None => Option::None,
        }
    }
}

/// A number: at least one hex digit, then a newline.
pub open spec fn p_num(s: Seq<char>, pos: int) -> Option<(u64, int)> {
    if 0 <= pos < s.len() && hex_val(s[pos]) is Some {
        p_num_digits(s, pos, 0)
    } else {
        Option::None
    }
}

/// A fixed keyword followed by a newline.
pub open spec fn p_kw(s: Seq<char>, pos: int, kw: Seq<char>) -> Option<int> {
    if 0 <= pos && pos + kw.len() + 1 <= s.len() && s.subrange(pos, pos + kw.len()) == kw && s[pos
        + kw.len()] == '\n' {
        Option::Some(pos + kw.len() + 1)
    } else {
        Option::None
    }
}

/// A length-prefixed string followed by a newline.
pub open spec fn p_str(s: Seq<char>, pos: int) -> Option<(Seq<char>, int)> {
    match p_num(s, pos) {
        Option::Some((nv, p1)) => {
            if p1 + nv + 1 <= s.len() && s[p1 + nv] == '\n' {
                Option::Some((s.subrange(p1, p1 + nv), p1 + nv + 1))
            } else {
                Option::None
            }
        },
        Option::None => Option::None,
    }
}

pub open spec fn p_v4addr(s: Seq<char>, pos: int) -> Option<(Ipv4Address, int)> {
    match p_num(s, pos) {
        Option::Some((v0, p0)) => if v0 > 255 {
            Option::None
        } else {
            match p_num(s, p0) {
                Option::Some((v1, p1)) => if v1 > 255 {
                    Option::None
                } else {
                    match p_num(s, p1) {
                        Option::Some((v2, p2)) => if v2 > 255 {
                            Option::None
                        } else {
                            match p_num(s, p2) {
                                Option::Some((v3, p3)) => if v3 > 255 {
                                    Option::None
                                } else {
                                    Option::Some(
                                        (
                                            Ipv4Address {
                                                o0: v0 as u8,
                                                o1: v1 as u8,
                                                o2: v2 as u8,
                                                o3: v3 as u8,
                                            },
                                            p3,
                                        ),
                                    )
                                },
                                Option::None => Option::None,
                            }
                        },
                        Option::None => Option::None,
                    }
                },
                Option::None => Option::None,
            }
        },
        Option::None => Option::None,
    }
}

pub open spec fn p_u16(s: Seq<char>, pos: int) -> Option<(u16, int)> {
    match p_num(s, pos) {
        Option::Some((v, p)) => if v > 0xffff {
            Option::None
        } else {
            Option::Some((v as u16, p))
        },
        Option::None => Option::None,
    }
}

pub open spec fn p_v6addr(s: Seq<char>, pos: int) -> Option<(Ipv6Address, int)> {
    match p_u16(s, pos) {
        Option::Some((s0, p0)) => match p_u16(s, p0) {
            Option::Some((s1, p1)) => match p_u16(s, p1) {
                Option::Some((s2, p2)) => match p_u16(s, p2) {
                    Option::Some((s3, p3)) => match p_u16(s, p3) {
                        Option::Some((s4, p4)) => match p_u16(s, p4) {
                            Option::Some((s5, p5)) => match p_u16(s, p5) {
                                Option::Some((s6, p6)) => match p_u16(s, p6) {
                                    Option::Some((s7, p7)) => Option::Some(
                                        (Ipv6Address { s0, s1, s2, s3, s4, s5, s6, s7 }, p7),
                                    ),
                                    Option::None => Option::None,
                                },
                                Option::None => Option::None,
                            },
                            Option::None => Option::None,
                        },
                        Option::None => Option::None,
                    },
                    Option::None => Option::None,
                },
                Option::None => Option::None,
            },
            Option::None => Option::None,
        },
        Option::None => Option::None,
    }
}

pub open spec fn p_opt_v4addr(s: Seq<char>, pos: int) -> Option<(Option<Ipv4Address>, int)> {
    match p_kw(s, pos, "none"@) {
        Option::Some(p1) => Option::Some((Option::None, p1)),
        Option::None => match p_kw(s, pos, "some"@) {
            Option::Some(p1) => match p_v4addr(s, p1) {
                Option::Some((a, p2)) => Option::Some((Option::Some(a), p2)),
                Option::None => Option::None,
            },
            Option::None => Option::None,
        },
    }
}

pub open spec fn p_opt_v6addr(s: Seq<char>, pos: int) -> Option<(Option<Ipv6Address>, int)> {
    match p_kw(s, pos, "none"@) {
        Option::Some(p1) => Option::Some((Option::None, p1)),
        Option::None => match p_kw(s, pos, "some"@) {
            Option::Some(p1) => match p_v6addr(s, p1) {
                Option::Some((a, p2)) => Option::Some((Option::Some(a), p2)),
                Option::None => Option::None,
            },
            Option::None => Option::None,
        },
    }
}

pub open spec fn p_v4list(s: Seq<char>, pos: int, count: int) -> Option<(Seq<Ipv4Address>, int)>
    decreases count,
{
    if count <= 0 {
        Option::Some((Seq::<Ipv4Address>::empty(), pos))
    } else {
        match p_v4addr(s, pos) {
            Option::Some((a, p1)) => match p_v4list(s, p1, count - 1) {
                Option::Some((rest, p2)) => Option::Some((seq![a] + rest, p2)),
                Option::None => Option::None,
            },
            Option::None => Option::None,
        }
    }
}

pub open spec fn p_v6list(s: Seq<char>, pos: int, count: int) -> Option<(Seq<Ipv6Address>, int)>
    decreases count,
{
    if count <= 0 {
        Option::Some((Seq::<Ipv6Address>::empty(), pos))
    } else {
        match p_v6addr(s, pos) {
            Option::Some((a, p1)) => match p_v6list(s, p1, count - 1) {
                Option::Some((rest, p2)) => Option::Some((seq![a] + rest, p2)),
                Option::None => Option::None,
            },
            Option::None => Option::None,
        }
    }
}

pub open spec fn p_v4net(s: Seq<char>, pos: int) -> Option<(Ipv4NetView, int)> {
    match p_v4addr(s, pos) {
        Option::Some((address, p1)) => match p_num(s, p1) {
            Option::Some((pl, p2)) => if pl > 255 {
                Option::None
            } else {
                match p_opt_v4addr(s, p2) {
                    Option::Some((gateway, p3)) => match p_num(s, p3) {
                        Option::Some((count, p4)) => match p_v4list(s, p4, count as int) {
                            Option::Some((nameservers, p5)) => Option::Some(
                                (
                                    Ipv4NetView {
                                        address,
                                        prefix_length: pl as u8,
                                        gateway,
                                        nameservers,
                                    },
                                    p5,
                                ),
                            ),
                            Option::None => Option::None,
                        },
                        Option::None => Option::None,
                    },
                    Option::None => Option::None,
                }
            },
            Option::None => Option::None,
        },
        Option::None => Option::None,
    }
}

pub open spec fn p_v6net(s: Seq<char>, pos: int) -> Option<(Ipv6NetView, int)> {
    match p_v6addr(s, pos) {
        Option::Some((address, p1)) => match p_num(s, p1) {
            Option::Some((pl, p2)) => if pl > 255 {
                Option::None
            } else {
                match p_opt_v6addr(s, p2) {
                    Option::Some((gateway, p3)) => match p_num(s, p3) {
                        Option::Some((count, p4)) => match p_v6list(s, p4, count as int) {
                            Option::Some((nameservers, p5)) => Option::Some(
                                (
                                    Ipv6NetView {
                                        address,
                                        prefix_length: pl as u8,
                                        gateway,
                                        nameservers,
                                    },
                                    p5,
                                ),
                            ),
                            Option::None => Option::None,
                        },
                        Option::None => Option::None,
                    },
                    Option::None => Option::None,
                }
            },
            Option::None => Option::None,
        },
        Option::None => Option::None,
    }
}

pub open spec fn p_opt_str(s: Seq<char>, pos: int) -> Option<(Option<Seq<char>>, int)> {
    match p_kw(s, pos, "none"@) {
        Option::Some(p1) => Option::Some((Option::None, p1)),
        Option::None => match p_kw(s, pos, "some"@) {
            Option::Some(p1) => match p_str(s, p1) {
                Option::Some((t, p2)) => Option::Some((Option::Some(t), p2)),
                Option::None => Option::None,
            },
            Option::None => Option::None,
        },
    }
}

pub open spec fn p_netcfg(s: Seq<char>, pos: int) -> Option<(NetworkConfigView, int)> {
    match p_str(s, pos) {
        Option::Some((hostname, p1)) => match p_opt_str(s, p1) {
            Option::Some((interface, p2)) => {
                let v4r = match p_kw(s, p2, "none"@) {
                    Option::Some(p3) => Option::Some((Option::<Ipv4NetView>::None, p3)),
                    Option::None => match p_kw(s, p2, "some"@) {
                        Option::Some(p3) => match p_v4net(s, p3) {
                            Option::Some((n, p4)) => Option::Some((Option::Some(n), p4)),
                            Option::None => Option::None,
                        },
                        Option::None => Option::None,
                    },
                };
                match v4r {
                    Option::Some((ipv4, p4)) => {
                        let v6r = match p_kw(s, p4, "none"@) {
                            Option::Some(p5) => Option::Some((Option::<Ipv6NetView>::None, p5)),
                            Option::None => match p_kw(s, p4, "some"@) {
                                Option::Some(p5) => match p_v6net(s, p5) {
                                    Option::Some((n, p6)) => Option::Some(
                                        (Option::Some(n), p6),
                                    ),
                                    Option::None => Option::None,
                                },
                                Option::None => Option::None,
                            },
                        };
                        match v6r {
                            Option::Some((ipv6, p6)) => Option::Some(
                                (NetworkConfigView { hostname, interface, ipv4, ipv6 }, p6),
                            ),
                            Option::None => Option::None,
                        }
                    },
                    Option::None => Option::None,
                }
            },
            Option::None => Option::None,
        },
        Option::None => Option::None,
    }
}

pub open spec fn p_str_list(s: Seq<char>, pos: int, count: int) -> Option<(Seq<Seq<char>>, int)>
    decreases count,
{
    if count <= 0 {
        Option::Some((Seq::<Seq<char>>::empty(), pos))
    } else {
        match p_str(s, pos) {
            Option::Some((t, p1)) => match p_str_list(s, p1, count - 1) {
                Option::Some((rest, p2)) => Option::Some((seq![t] + rest, p2)),
                Option::None => Option::None,
            },
            Option::None => Option::None,
        }
    }
}

pub open spec fn p_resp(s: Seq<char>, pos: int) -> Option<(RunnerRespView, int)> {
    match p_kw(s, pos, "ssh_keys"@) {
        Option::Some(p1) => match p_num(s, p1) {
            Option::Some((count, p2)) => match p_str_list(s, p2, count as int) {
                Option::Some((ssh_keys, p3)) => Option::Some(
                    (RunnerRespView::SSHKeysResp { ssh_keys }, p3),
                ),
                Option::None => Option::None,
            },
            Option::None => Option::None,
        },
        Option::None => match p_kw(s, pos, "network_config"@) {
            Option::Some(p1) => match p_netcfg(s, p1) {
                Option::Some((nc, p2)) => Option::Some(
                    (RunnerRespView::NetworkConfig(nc), p2),
                ),
                Option::None => Option::None,
            },
            Option::None => match p_kw(s, pos, "job_not_found"@) {
                Option::Some(p1) => Option::Some((RunnerRespView::JobNotFound, p1)),
                Option::None => Option::None,
            },
        },
    }
}

pub open spec fn p_runner_msg(s: Seq<char>, pos: int) -> Option<(RunnerMsgView, int)> {
    match p_kw(s, pos, "response"@) {
        Option::Some(p1) => match p_num(s, p1) {
            Option::Some((request_id, p2)) => match p_resp(s, p2) {
                Option::Some((response, p3)) => Option::Some(
                    (RunnerMsgView::Response { request_id, response }, p3),
                ),
                Option::None => Option::None,
            },
            Option::None => Option::None,
        },
        Option::None => match p_kw(s, pos, "runner_event"@) {
            Option::Some(p1) => match p_num(s, p1) {
                Option::Some((runner_event_id, p2)) => Option::Some(
                    (RunnerMsgView::Event { runner_event_id }, p2),
                ),
                Option::None => Option::None,
            },
            Option::None => match p_kw(s, pos, "error"@) {
                Option::Some(p1) => match p_str(s, p1) {
                    Option::Some((message, p2)) => Option::Some(
                        (RunnerMsgView::Error { message }, p2),
                    ),
                    Option::None => Option::None,
                },
                Option::None => Option::None,
            },
        },
    }
}

pub open spec fn p_puppet_msg(s: Seq<char>, pos: int) -> Option<(PuppetMsgView, int)> {
    match p_kw(s, pos, "request"@) {
        Option::Some(p1) => match p_num(s, p1) {
            Option::Some((request_id, p2)) => match p_kw(s, p2, "ssh_keys"@) {
                Option::Some(p3) => Option::Some(
                    (PuppetMsgView::Request { request_id, request: PuppetReq::SSHKeys }, p3),
                ),
                Option::None => match p_kw(s, p2, "network_config"@) {
                    Option::Some(p3) => Option::Some(
                        (
                            PuppetMsgView::Request {
                                request_id,
                                request: PuppetReq::NetworkConfig,
                            },
                            p3,
                        ),
                    ),
                    Option::None => Option::None,
                },
            },
            Option::None => Option::None,
        },
        Option::None => match p_kw(s, pos, "event"@) {
            Option::Some(p1) => match p_num(s, p1) {
                Option::Some((puppet_event_id, p2)) => match p_kw(s, p2, "ready"@) {
                    Option::Some(p3) => Option::Some(
                        (
                            PuppetMsgView::Event {
                                puppet_event_id,
                                event: PuppetEvent::Ready,
                            },
                            p3,
                        ),
                    ),
                    Option::None => Option::None,
                },
                Option::None => Option::None,
            },
            Option::None => Option::None,
        },
    }
}

/// What a whole runner-to-puppet datagram decodes to: the parse must
/// consume all of it.
pub open spec fn spec_decode_runner_msg(s: Seq<char>) -> Option<RunnerMsgView> {
    match p_runner_msg(s, 0) {
        Option::Some((m, p)) => if p == s.len() {
            Option::Some(m)
        } else {
            Option::None
        },
        Option::None => Option::None,
    }
}

/// What a whole puppet-to-runner datagram decodes to.
pub open spec fn spec_decode_puppet_msg(s: Seq<char>) -> Option<PuppetMsgView> {
    match p_puppet_msg(s, 0) {
        Option::Some((m, p)) => if p == s.len() {
            Option::Some(m)
        } else {
            Option::None
        },
        Option::None => Option::None,
    }
}

} // verus!

// ---------------------------------------------------------------
// Decoders.
// ---------------------------------------------------------------

verus! {

fn hex_value(c: char) -> (r: Option<u64>)
    ensures
        r == hex_val(c),
{
    match c {
        '0' => Option::Some(0),
        '1' => Option::Some(1),
        '2' => Option::Some(2),
        '3' => Option::Some(3),
        '4' => Option::Some(4),
        '5' => Option::Some(5),
        '6' => Option::Some(6),
        '7' => Option::Some(7),
        '8' => Option::Some(8),
        '9' => Option::Some(9),
        'a' => Option::Some(10),
        'b' => Option::Some(11),
        'c' => Option::Some(12),
        'd' => Option::Some(13),
        'e' => Option::Some(14),
        'f' => Option::Some(15),
        _ => Option::None,
    }
}

fn e_num_digits(s: &str, pos: usize, acc: u64) -> (r: Option<(u64, usize)>)
    requires
        pos <= s@.len(),
    ensures
        match r {
            Option::Some((v, p)) => p_num_digits(s@, pos as int, acc as int) == Option::Some(
                (v, p as int),
            ) && pos < p <= s@.len(),
            Option::None => p_num_digits(s@, pos as int, acc as int) is None,
        },
    decreases s@.len() - pos,
{
    let n = s.unicode_len();
    if pos >= n {
        return Option::None;
    }
    let c = s.get_char(pos);
    if c == '\n' {
        return Option::Some((acc, pos + 1));
    }
    match hex_value(c) {
        Option::Some(d) => {
            let wide: u128 = (acc as u128) * 16 + (d as u128);
            if wide > (u64::MAX as u128) {
                Option::None
            } else {
                e_num_digits(s, pos + 1, wide as u64)
            }
        },
        Option::None => Option::None,
    }
}

fn e_num(s: &str, pos: usize) -> (r: Option<(u64, usize)>)
    requires
        pos <= s@.len(),
    ensures
        match r {
            Option::Some((v, p)) => p_num(s@, pos as int) == Option::Some((v, p as int)) && pos
                < p <= s@.len(),
            Option::None => p_num(s@, pos as int) is None,
        },
{
    let n = s.unicode_len();
    if pos >= n {
        return Option::None;
    }
    let c = s.get_char(pos);
    if hex_value(c).is_some() {
        e_num_digits(s, pos, 0)
    } else {
        Option::None
    }
}

fn e_kw(s: &str, pos: usize, kw: &str) -> (r: Option<usize>)
    requires
        pos <= s@.len(),
    ensures
        match r {
            Option::Some(p) => p_kw(s@, pos as int, kw@) == Option::Some(p as int) && pos < p
                <= s@.len(),
            Option::None => p_kw(s@, pos as int, kw@) is None,
        },
{
    let n = s.unicode_len();
    let m = kw.unicode_len();
    if m >= n - pos {
        return Option::None;
    }
    let mut i: usize = 0;
    while i < m
        invariant
            n == s@.len(),
            m == kw@.len(),
            pos <= n,
            m < n - pos,
            i <= m,
            forall|j: int| 0 <= j < i ==> s@[pos + j] == kw@[j],
        decreases m - i,
    {
        if s.get_char(pos + i) != kw.get_char(i) {
            proof {
                assert(s@.subrange(pos as int, pos + kw@.len())[i as int] != kw@[i as int]);
            }
            return Option::None;
        }
        i = i + 1;
    }
    if s.get_char(pos + m) != '\n' {
        return Option::None;
    }
    proof {
        assert(s@.subrange(pos as int, pos + kw@.len()) =~= kw@);
    }
    Option::Some(pos + m + 1)
}

fn e_str(s: &str, pos: usize) -> (r: Option<(String, usize)>)
    requires
        pos <= s@.len(),
    ensures
        match r {
            Option::Some((t, p)) => p_str(s@, pos as int) == Option::Some((t@, p as int)) && pos
                < p <= s@.len(),
            Option::None => p_str(s@, pos as int) is None,
        },
{
    let n = s.unicode_len();
    match e_num(s, pos) {
        Option::Some((nv, p1)) => {
            let remaining = n - p1;
            if nv >= remaining as u64 {
                return Option::None;
            }
            let nn = nv as usize;
            if s.get_char(p1 + nn) != '\n' {
                return Option::None;
            }
            let t = s.substring_char(p1, p1 + nn).to_owned();
            Option::Some((t, p1 + nn + 1))
        },
        Option::None => Option::None,
    }
}

fn e_v4addr(s: &str, pos: usize) -> (r: Option<(Ipv4Address, usize)>)
    requires
        pos <= s@.len(),
    ensures
        match r {
            Option::Some((a, p)) => p_v4addr(s@, pos as int) == Option::Some((a, p as int))
                && pos < p <= s@.len(),
            Option::None => p_v4addr(s@, pos as int) is None,
        },
{
    let (v0, p0) = match e_num(s, pos) {
        Option::Some(x) => x,
        Option::None => {
            return Option::None;
        },
    };
    if v0 > 255 {
        return Option::None;
    }
    let (v1, p1) = match e_num(s, p0) {
        Option::Some(x) => x,
        Option::None => {
            return Option::None;
        },
    };
    if v1 > 255 {
        return Option::None;
    }
    let (v2, p2) = match e_num(s, p1) {
        Option::Some(x) => x,
        Option::None => {
            return Option::None;
        },
    };
    if v2 > 255 {
        return Option::None;
    }
    let (v3, p3) = match e_num(s, p2) {
        Option::Some(x) => x,
        Option::None => {
            return Option::None;
        },
    };
    if v3 > 255 {
        return Option::None;
    }
    Option::Some(
        (Ipv4Address { o0: v0 as u8, o1: v1 as u8, o2: v2 as u8, o3: v3 as u8 }, p3),
    )
}

fn e_u16(s: &str, pos: usize) -> (r: Option<(u16, usize)>)
    requires
        pos <= s@.len(),
    ensures
        match r {
            Option::Some((v, p)) => p_u16(s@, pos as int) == Option::Some((v, p as int)) && pos
                < p <= s@.len(),
            Option::None => p_u16(s@, pos as int) is None,
        },
{
    match e_num(s, pos) {
        Option::Some((v, p)) => {
            if v > 0xffff {
                Option::None
            } else {
                Option::Some((v as u16, p))
            }
        },
        Option::None => Option::None,
    }
}

fn e_v6addr(s: &str, pos: usize) -> (r: Option<(Ipv6Address, usize)>)
    requires
        pos <= s@.len(),
    ensures
        match r {
            Option::Some((a, p)) => p_v6addr(s@, pos as int) == Option::Some((a, p as int))
                && pos < p <= s@.len(),
            Option::None => p_v6addr(s@, pos as int) is None,
        },
{
    let (s0, p0) = match e_u16(s, pos) {
        Option::Some(x) => x,
        Option::None => {
            return Option::None;
        },
    };
    let (s1, p1) = match e_u16(s, p0) {
        Option::Some(x) => x,
        Option::None => {
            return Option::None;
        },
    };
    let (s2, p2) = match e_u16(s, p1) {
        Option::Some(x) => x,
        Option::None => {
            return Option::None;
        },
    };
    let (s3, p3) = match e_u16(s, p2) {
        Option::Some(x) => x,
        Option::None => {
            return Option::None;
        },
    };
    let (s4, p4) = match e_u16(s, p3) {
        Option::Some(x) => x,
        Option::None => {
            return Option::None;
        },
    };
    let (s5, p5) = match e_u16(s, p4) {
        Option::Some(x) => x,
        Option::None => {
            return Option::None;
        },
    };
    let (s6, p6) = match e_u16(s, p5) {
        Option::Some(x) => x,
        Option::None => {
            return Option::None;
        },
    };
    let (s7, p7) = match e_u16(s, p6) {
        Option::Some(x) => x,
        Option::None => {
            return Option::None;
        },
    };
    Option::Some((Ipv6Address { s0, s1, s2, s3, s4, s5, s6, s7 }, p7))
}

fn e_v4list(s: &str, pos: usize, count: u64) -> (r: Option<(Vec<Ipv4Address>, usize)>)
    requires
        pos <= s@.len(),
    ensures
        match r {
            Option::Some((l, p)) => p_v4list(s@, pos as int, count as int) == Option::Some(
                (l@, p as int),
            ) && pos <= p <= s@.len(),
            Option::None => p_v4list(s@, pos as int, count as int) is None,
        },
    decreases count,
{
    if count == 0 {
        let empty: Vec<Ipv4Address> = Vec::new();
        proof {
            assert(empty@ =~= Seq::<Ipv4Address>::empty());
        }
        return Option::Some((empty, pos));
    }
    let (a, p1) = match e_v4addr(s, pos) {
        Option::Some(x) => x,
        Option::None => {
            return Option::None;
        },
    };
    match e_v4list(s, p1, count - 1) {
        Option::Some((mut rest, p2)) => {
            let ghost rest0 = rest@;
            rest.insert(0, a);
            proof {
                assert(rest@ =~= seq![a] + rest0);
            }
            Option::Some((rest, p2))
        },
        Option::None => Option::None,
    }
}

fn e_v6list(s: &str, pos: usize, count: u64) -> (r: Option<(Vec<Ipv6Address>, usize)>)
    requires
        pos <= s@.len(),
    ensures
        match r {
            Option::Some((l, p)) => p_v6list(s@, pos as int, count as int) == Option::Some(
                (l@, p as int),
            ) && pos <= p <= s@.len(),
            Option::None => p_v6list(s@, pos as int, count as int) is None,
        },
    decreases count,
{
    if count == 0 {
        let empty: Vec<Ipv6Address> = Vec::new();
        proof {
            assert(empty@ =~= Seq::<Ipv6Address>::empty());
        }
        return Option::Some((empty, pos));
    }
    let (a, p1) = match e_v6addr(s, pos) {
        Option::Some(x) => x,
        Option::None => {
            return Option::None;
        },
    };
    match e_v6list(s, p1, count - 1) {
        Option::Some((mut rest, p2)) => {
            let ghost rest0 = rest@;
            rest.insert(0, a);
            proof {
                assert(rest@ =~= seq![a] + rest0);
            }
            Option::Some((rest, p2))
        },
        Option::None => Option::None,
    }
}

fn e_v4net(s: &str, pos: usize) -> (r: Option<(Ipv4NetworkConfig, usize)>)
    requires
        pos <= s@.len(),
    ensures
        match r {
            Option::Some((n, p)) => p_v4net(s@, pos as int) == Option::Some(
                (v4net_view(n), p as int),
            ) && pos <= p <= s@.len(),
            Option::None => p_v4net(s@, pos as int) is None,
        },
{
    let (address, p1) = match e_v4addr(s, pos) {
        Option::Some(x) => x,
        Option::None => {
            return Option::None;
        },
    };
    let (pl, p2) = match e_num(s, p1) {
        Option::Some(x) => x,
        Option::None => {
            return Option::None;
        },
    };
    if pl > 255 {
        return Option::None;
    }
    let (gateway, p3) = match e_kw(s, p2, "none") {
        Option::Some(p) => (Option::None, p),
        Option::None => match e_kw(s, p2, "some") {
            Option::Some(p) => match e_v4addr(s, p) {
                Option::Some((g, p4)) => (Option::Some(g), p4),
                Option::None => {
                    return Option::None;
                },
            },
            Option::None => {
                return Option::None;
            },
        },
    };
    let (count, p4) = match e_num(s, p3) {
        Option::Some(x) => x,
        Option::None => {
            return Option::None;
        },
    };
    match e_v4list(s, p4, count) {
        Option::Some((nameservers, p5)) => Option::Some(
            (
                Ipv4NetworkConfig { address, prefix_length: pl as u8, gateway, nameservers },
                p5,
            ),
        ),
        Option::None => Option::None,
    }
}

fn e_v6net(s: &str, pos: usize) -> (r: Option<(Ipv6NetworkConfig, usize)>)
    requires
        pos <= s@.len(),
    ensures
        match r {
            Option::Some((n, p)) => p_v6net(s@, pos as int) == Option::Some(
                (v6net_view(n), p as int),
            ) && pos <= p <= s@.len(),
            Option::None => p_v6net(s@, pos as int) is None,
        },
{
    let (address, p1) = match e_v6addr(s, pos) {
        Option::Some(x) => x,
        Option::None => {
            return Option::None;
        },
    };
    let (pl, p2) = match e_num(s, p1) {
        Option::Some(x) => x,
        Option::None => {
            return Option::None;
        },
    };
    if pl > 255 {
        return Option::None;
    }
    let (gateway, p3) = match e_kw(s, p2, "none") {
        Option::Some(p) => (Option::None, p),
        Option::None => match e_kw(s, p2, "some") {
            Option::Some(p) => match e_v6addr(s, p) {
                Option::Some((g, p4)) => (Option::Some(g), p4),
                Option::None => {
                    return Option::None;
                },
            },
            Option::None => {
                return Option::None;
            },
        },
    };
    let (count, p4) = match e_num(s, p3) {
        Option::Some(x) => x,
        Option::None => {
            return Option::None;
        },
    };
    match e_v6list(s, p4, count) {
        Option::Some((nameservers, p5)) => Option::Some(
            (
                Ipv6NetworkConfig { address, prefix_length: pl as u8, gateway, nameservers },
                p5,
            ),
        ),
        Option::None => Option::None,
    }
}

fn e_netcfg(s: &str, pos: usize) -> (r: Option<(NetworkConfig, usize)>)
    requires
        pos <= s@.len(),
    ensures
        match r {
            Option::Some((nc, p)) => p_netcfg(s@, pos as int) == Option::Some(
                (netcfg_view(nc), p as int),
            ) && pos <= p <= s@.len(),
            Option::None => p_netcfg(s@, pos as int) is None,
        },
{
    let (hostname, p1) = match e_str(s, pos) {
        Option::Some(x) => x,
        Option::None => {
            return Option::None;
        },
    };
    let (interface, p2) = match e_kw(s, p1, "none") {
        Option::Some(p) => (Option::None, p),
        Option::None => match e_kw(s, p1, "some") {
            Option::Some(p) => match e_str(s, p) {
                Option::Some((t, p2)) => (Option::Some(t), p2),
                Option::None => {
                    return Option::None;
                },
            },
            Option::None => {
                return Option::None;
            },
        },
    };
    let (ipv4, p4) = match e_kw(s, p2, "none") {
        Option::Some(p) => (Option::None, p),
        Option::None => match e_kw(s, p2, "some") {
            Option::Some(p) => match e_v4net(s, p) {
                Option::Some((n, p4)) => (Option::Some(n), p4),
                Option::None => {
                    return Option::None;
                },
            },
            Option::None => {
                return Option::None;
            },
        },
    };
    let (ipv6, p6) = match e_kw(s, p4, "none") {
        Option::Some(p) => (Option::None, p),
        Option::None => match e_kw(s, p4, "some") {
            Option::Some(p) => match e_v6net(s, p) {
                Option::Some((n, p6)) => (Option::Some(n), p6),
                Option::None => {
                    return Option::None;
                },
            },
            Option::None => {
                return Option::None;
            },
        },
    };
    Option::Some((NetworkConfig { hostname, interface, ipv4, ipv6 }, p6))
}

fn e_str_list(s: &str, pos: usize, count: u64) -> (r: Option<(Vec<String>, usize)>)
    requires
        pos <= s@.len(),
    ensures
        match r {
            Option::Some((l, p)) => p_str_list(s@, pos as int, count as int) == Option::Some(
                (l@.map_values(|t: String| t@), p as int),
            ) && pos <= p <= s@.len(),
            Option::None => p_str_list(s@, pos as int, count as int) is None,
        },
    decreases count,
{
    if count == 0 {
        let empty: Vec<String> = Vec::new();
        proof {
            assert(empty@.map_values(|t: String| t@) =~= Seq::<Seq<char>>::empty());
        }
        return Option::Some((empty, pos));
    }
    let (t, p1) = match e_str(s, pos) {
        Option::Some(x) => x,
        Option::None => {
            return Option::None;
        },
    };
    match e_str_list(s, p1, count - 1) {
        Option::Some((mut rest, p2)) => {
            let ghost rest_view = rest@.map_values(|t: String| t@);
            let ghost t_view = t@;
            rest.insert(0, t);
            proof {
                assert(rest@.map_values(|t: String| t@) =~= seq![t_view] + rest_view);
            }
            Option::Some((rest, p2))
        },
        Option::None => Option::None,
    }
}

/// Decode a runner-to-puppet datagram; exactly the texts the spec
/// parser accepts decode, to exactly the message it gives.
pub fn decode_runner_msg(s: &str) -> (r: Option<RunnerMsg>)
    ensures
        match r {
            Option::Some(m) => spec_decode_runner_msg(s@) == Option::Some(runner_msg_view(m)),
            Option::None => spec_decode_runner_msg(s@) is None,
        },
{
    let n = s.unicode_len();
    let parsed: Option<(RunnerMsg, usize)> = match e_kw(s, 0, "response") {
        Option::Some(p1) => match e_num(s, p1) {
            Option::Some((request_id, p2)) => {
                let resp: Option<(RunnerResp, usize)> = match e_kw(s, p2, "ssh_keys") {
                    Option::Some(p3) => match e_num(s, p3) {
                        Option::Some((count, p4)) => match e_str_list(s, p4, count) {
                            Option::Some((ssh_keys, p5)) => Option::Some(
                                (RunnerResp::SSHKeysResp { ssh_keys }, p5),
                            ),
                            Option::None => Option::None,
                        },
                        Option::None => Option::None,
                    },
                    Option::None => match e_kw(s, p2, "network_config") {
                        Option::Some(p3) => match e_netcfg(s, p3) {
                            Option::Some((nc, p4)) => Option::Some(
                                (RunnerResp::NetworkConfig(nc), p4),
                            ),
                            Option::None => Option::None,
                        },
                        Option::None => match e_kw(s, p2, "job_not_found") {
                            Option::Some(p3) => Option::Some((RunnerResp::JobNotFound, p3)),
                            Option::None => Option::None,
                        },
                    },
                };
                match resp {
                    Option::Some((response, p3)) => Option::Some(
                        (RunnerMsg::Response { request_id, response }, p3),
                    ),
                    Option::None => Option::None,
                }
            },
            Option::None => Option::None,
        },
        Option::None => match e_kw(s, 0, "runner_event") {
            Option::Some(p1) => match e_num(s, p1) {
                Option::Some((runner_event_id, p2)) => Option::Some(
                    (RunnerMsg::Event { runner_event_id }, p2),
                ),
                Option::None => Option::None,
            },
            Option::None => match e_kw(s, 0, "error") {
                Option::Some(p1) => match e_str(s, p1) {
                    Option::Some((message, p2)) => Option::Some(
                        (RunnerMsg::Error { message }, p2),
                    ),
                    Option::None => Option::None,
                },
                Option::None => Option::None,
            },
        },
    };
    match parsed {
        Option::Some((m, p)) => {
            if p == n {
                Option::Some(m)
            } else {
                Option::None
            }
        },
        Option::None => Option::None,
    }
}

/// Decode a puppet-to-runner datagram.
pub fn decode_puppet_msg(s: &str) -> (r: Option<PuppetMsg>)
    ensures
        match r {
            Option::Some(m) => spec_decode_puppet_msg(s@) == Option::Some(puppet_msg_view(m)),
            Option::None => spec_decode_puppet_msg(s@) is None,
        },
{
    let n = s.unicode_len();
    let parsed: Option<(PuppetMsg, usize)> = match e_kw(s, 0, "request") {
        Option::Some(p1) => match e_num(s, p1) {
            Option::Some((request_id, p2)) => match e_kw(s, p2, "ssh_keys") {
                Option::Some(p3) => Option::Some(
                    (PuppetMsg::Request { request_id, request: PuppetReq::SSHKeys }, p3),
                ),
                Option::None => match e_kw(s, p2, "network_config") {
                    Option::Some(p3) => Option::Some(
                        (
                            PuppetMsg::Request {
                                request_id,
                                request: PuppetReq::NetworkConfig,
                            },
                            p3,
                        ),
                    ),
                    Option::None => Option::None,
                },
            },
            Option::None => Option::None,
        },
        Option::None => match e_kw(s, 0, "event") {
            Option::Some(p1) => match e_num(s, p1) {
                Option::Some((puppet_event_id, p2)) => match e_kw(s, p2, "ready") {
                    Option::Some(p3) => Option::Some(
                        (PuppetMsg::Event { puppet_event_id, event: PuppetEvent::Ready }, p3),
                    ),
                    Option::None => Option::None,
                },
                Option::None => Option::None,
            },
            Option::None => Option::None,
        },
    };
    match parsed {
        Option::Some((m, p)) => {
            if p == n {
                Option::Some(m)
            } else {
                Option::None
            }
        },
        Option::None => Option::None,
    }
}

} // verus!

// ---------------------------------------------------------------
// Round trip of the puppet-to-runner direction.
// ---------------------------------------------------------------

verus! {

/// The value of the first j nibbles of v, as the parser accumulates
/// them.
pub open spec fn hi_val(v: u64, j: int) -> int {
    (v as int) / (pow2((4 * (16 - j)) as nat) as int)
}

proof fn lemma_hex_digit(x: int)
    requires
        0 <= x < 16,
    ensures
        hex_val(hex_digit_char(x)) == Option::Some(x as u64),
        hex_digit_char(x) != '\n',
{
}

proof fn lemma_nibble_mod(v: u64, j: int)
    requires
        0 <= j < 16,
    ensures
        nibble64(v, j) as int == ((v as int) / (pow2((4 * (15 - j)) as nat) as int)) % 16,
        nibble64(v, j) < 16,
{
    let sh: u64 = (4 * (15 - j)) as u64;
    vstd::bits::lemma_u64_shr_is_div(v, sh);
    vstd::bits::lemma_low_bits_mask_values();
    vstd::bits::lemma_u64_low_bits_mask_is_mod(v >> sh, 4);
    vstd::arithmetic::power2::lemma2_to64();
    assert((v >> sh) & 0xf == (v >> sh) % 16);
}

proof fn lemma_hi_step(v: u64, j: int)
    requires
        0 <= j < 16,
    ensures
        hi_val(v, j + 1) == hi_val(v, j) * 16 + nibble64(v, j),
        0 <= hi_val(v, j + 1) <= v,
        0 <= hi_val(v, j) <= v,
{
    let m: nat = (4 * (15 - j)) as nat;
    vstd::arithmetic::power2::lemma_pow2_pos(m);
    vstd::arithmetic::power2::lemma_pow2_pos((m + 4) as nat);
    vstd::arithmetic::power2::lemma_pow2_adds(m, 4);
    vstd::arithmetic::power2::lemma2_to64();
    let a = (v as int) / (pow2(m) as int);
    vstd::arithmetic::div_mod::lemma_div_denominator(v as int, pow2(m) as int, 16);
    assert(hi_val(v, j) == a / 16);
    vstd::arithmetic::div_mod::lemma_fundamental_div_mod(a, 16);
    lemma_nibble_mod(v, j);
    assert(a >= 0) by (nonlinear_arith)
        requires
            v as int >= 0,
            pow2(m) as int > 0,
            a == (v as int) / (pow2(m) as int),
    ;
    assert(a <= v as int) by (nonlinear_arith)
        requires
            v as int >= 0,
            pow2(m) as int >= 1,
            a == (v as int) / (pow2(m) as int),
    ;
    assert(a / 16 >= 0) by (nonlinear_arith)
        requires
            a >= 0,
    ;
    assert(a / 16 <= a) by (nonlinear_arith)
        requires
            a >= 0,
    ;
}

proof fn lemma_hi_ends(v: u64)
    ensures
        hi_val(v, 0) == 0,
        hi_val(v, 16) == v as int,
{
    vstd::arithmetic::power2::lemma2_to64();
    vstd::arithmetic::div_mod::lemma_basic_div(v as int, pow2(64) as int);
    assert((4 * (16 - 16)) as nat == 0nat);
    assert(pow2(0) == 1);
    assert(v as int / 1int == v as int);
}

proof fn lemma_parse_num_digits(s: Seq<char>, pos: int, v: u64, j: int)
    requires
        0 <= pos,
        pos + 17 <= s.len(),
        s.subrange(pos, pos + 17) == num_chars(v),
        0 <= j <= 16,
        0 <= hi_val(v, j) <= v,
    ensures
        p_num_digits(s, pos + j, hi_val(v, j)) == Option::Some((v, pos + 17)),
    decreases 16 - j,
{
    assert forall|k: int| 0 <= k < 17 implies #[trigger] s[pos + k] == num_chars(v)[k] by {
        assert(s.subrange(pos, pos + 17)[k] == s[pos + k]);
    }
    if j == 16 {
        assert(s[pos + 16] == num_chars(v)[16]);
        assert(num_chars(v)[16] == '\n');
        lemma_hi_ends(v);
        assert(hi_val(v, 16) as u64 == v);
    } else {
        let d = nibble64(v, j);
        assert(s[pos + j] == num_chars(v)[j]);
        assert(num_chars(v)[j] == hex_digit_char(d as int));
        lemma_nibble_mod(v, j);
        lemma_hex_digit(d as int);
        lemma_hi_step(v, j);
        assert(hi_val(v, j) * 16 + d == hi_val(v, j + 1));
        assert(hi_val(v, j + 1) <= u64::MAX);
        lemma_parse_num_digits(s, pos, v, j + 1);
    }
}

proof fn lemma_parse_num(s: Seq<char>, pos: int, v: u64)
    requires
        0 <= pos,
        pos + 17 <= s.len(),
        s.subrange(pos, pos + 17) == num_chars(v),
    ensures
        p_num(s, pos) == Option::Some((v, pos + 17)),
{
    assert(s[pos] == s.subrange(pos, pos + 17)[0]);
    assert(s[pos] == hex_digit_char(nibble64(v, 0) as int));
    lemma_nibble_mod(v, 0);
    lemma_hex_digit(nibble64(v, 0) as int);
    lemma_hi_ends(v);
    lemma_parse_num_digits(s, pos, v, 0);
}

proof fn lemma_parse_kw(s: Seq<char>, pos: int, kw: Seq<char>)
    requires
        0 <= pos,
        pos + kw.len() + 1 <= s.len(),
        s.subrange(pos, pos + kw.len()) == kw,
        s[pos + kw.len()] == '\n',
    ensures
        p_kw(s, pos, kw) == Option::Some(pos + kw.len() + 1),
{
}

/// Every datagram the puppet encodes is decoded back to the same
/// message: the request path of the control-socket protocol loses
/// nothing on the wire.
pub proof fn lemma_puppet_msg_round_trip(m: PuppetMsgView)
    ensures
        spec_decode_puppet_msg(spec_encode_puppet_msg(m)) == Option::Some(m),
{
    reveal_strlit("request");
    reveal_strlit("event");
    reveal_strlit("ssh_keys");
    reveal_strlit("network_config");
    reveal_strlit("ready");
    let s = spec_encode_puppet_msg(m);
    match m {
        PuppetMsgView::Request { request_id, request } => {
            let tail = enc_req(request);
            assert(s == kw_chars("request"@) + num_chars(request_id) + tail);
            assert(s.len() == 8 + 17 + tail.len());
            assert(s.subrange(0, 7) =~= "request"@);
            assert(s[7] == '\n');
            lemma_parse_kw(s, 0, "request"@);
            assert(s.subrange(8, 25) =~= num_chars(request_id));
            lemma_parse_num(s, 8, request_id);
            match request {
                PuppetReq::SSHKeys => {
                    assert(s.subrange(25, 33) =~= "ssh_keys"@);
                    assert(s[33] == '\n');
                    lemma_parse_kw(s, 25, "ssh_keys"@);
                    assert(p_puppet_msg(s, 0) == Option::Some((m, 34int)));
                    assert(s.len() == 34);
                },
                PuppetReq::NetworkConfig => {
                    // The first keyword tried does not match.
                    assert(s[25] == "network_config"@[0]);
                    assert(s[25] != "ssh_keys"@[0]);
                    assert(p_kw(s, 25, "ssh_keys"@) is None) by {
                        if p_kw(s, 25, "ssh_keys"@) is Some {
                            assert(s.subrange(25, 33)[0] == "ssh_keys"@[0]);
                        }
                    }
                    assert(s.subrange(25, 39) =~= "network_config"@);
                    assert(s[39] == '\n');
                    lemma_parse_kw(s, 25, "network_config"@);
                    assert(p_puppet_msg(s, 0) == Option::Some((m, 40int)));
                    assert(s.len() == 40);
                },
            }
        },
        PuppetMsgView::Event { puppet_event_id, event } => {
            assert(s == kw_chars("event"@) + num_chars(puppet_event_id) + enc_puppet_event(
                event,
            ));
            // "request" is tried first and cannot match.
            assert(s[0] == "event"@[0]);
            assert(s[0] != "request"@[0]);
            if s.len() >= 8 {
                assert(p_kw(s, 0, "request"@) is None) by {
                    if p_kw(s, 0, "request"@) is Some {
                        assert(s.subrange(0, 7)[0] == "request"@[0]);
                    }
                }
            }
            assert(s.subrange(0, 5) =~= "event"@);
            assert(s[5] == '\n');
            lemma_parse_kw(s, 0, "event"@);
            assert(s.subrange(6, 23) =~= num_chars(puppet_event_id));
            lemma_parse_num(s, 6, puppet_event_id);
            match event {
                PuppetEvent::Ready => {
                    assert(s.subrange(23, 28) =~= "ready"@);
                    assert(s[28] == '\n');
                    lemma_parse_kw(s, 23, "ready"@);
                    assert(p_puppet_msg(s, 0) == Option::Some((m, 29int)));
                    assert(s.len() == 29);
                },
            }
        },
    }
}

} // verus!

// ---------------------------------------------------------------
// Round trip of the runner-to-puppet direction.
// ---------------------------------------------------------------

verus! {

/// Texts whose character count the wire's 64-bit length fields can
/// carry.  Every value that was ever held in an executable `String`
/// or `Vec` satisfies these bounds.
pub open spec fn bounded_str(t: Seq<char>) -> bool {
    t.len() <= u64::MAX
}

pub open spec fn bounded_netcfg(nc: NetworkConfigView) -> bool {
    &&& bounded_str(nc.hostname)
    &&& (nc.interface matches Option::Some(t) ==> bounded_str(t))
    &&& (nc.ipv4 matches Option::Some(n) ==> n.nameservers.len() <= u64::MAX)
    &&& (nc.ipv6 matches Option::Some(n) ==> n.nameservers.len() <= u64::MAX)
}

pub open spec fn bounded_resp(r: RunnerRespView) -> bool {
    match r {
        RunnerRespView::SSHKeysResp { ssh_keys } => ssh_keys.len() <= u64::MAX && (forall|k: int|
            0 <= k < ssh_keys.len() ==> bounded_str(#[trigger] ssh_keys[k])),
        RunnerRespView::NetworkConfig(nc) => bounded_netcfg(nc),
        RunnerRespView::JobNotFound => true,
    }
}

pub open spec fn bounded_runner_msg(m: RunnerMsgView) -> bool {
    match m {
        RunnerMsgView::Response { response, .. } => bounded_resp(response),
        RunnerMsgView::Event { .. } => true,
        RunnerMsgView::Error { message } => bounded_str(message),
    }
}


/// A chunk of a known text, located at its offset.
proof fn lemma_subrange_chunk(s: Seq<char>, pos: int, whole: Seq<char>, off: int, part: Seq<char>)
    requires
        0 <= pos,
        pos + whole.len() <= s.len(),
        s.subrange(pos, pos + whole.len()) == whole,
        0 <= off,
        off + part.len() <= whole.len(),
        whole.subrange(off, off + part.len()) == part,
    ensures
        s.subrange(pos + off, pos + off + part.len()) == part,
{
    assert forall|k: int|
        0 <= k < part.len() implies s.subrange(pos + off, pos + off + part.len())[k]
        == part[k] by {
        assert(s.subrange(pos, pos + whole.len())[off + k] == s[pos + (off + k)]);
        assert(s.subrange(pos + off, pos + off + part.len())[k] == s[(pos + off) + k]);
        assert(whole.subrange(off, off + part.len())[k] == whole[off + k]);
    }
    assert(s.subrange(pos + off, pos + off + part.len()) =~= part);
}

proof fn lemma_parse_str(s: Seq<char>, pos: int, t: Seq<char>)
    requires
        0 <= pos,
        pos + 18 + t.len() <= s.len(),
        s.subrange(pos, pos + 18 + t.len()) == str_chars(t),
        bounded_str(t),
    ensures
        p_str(s, pos) == Option::Some((t, pos + 18 + t.len())),
{
    let n = t.len() as int;
    let whole = str_chars(t);
    assert(whole.len() == 18 + n);
    assert(num_chars(t.len() as u64).len() == 17);
    assert(whole.subrange(0, 17) =~= num_chars(t.len() as u64));
    lemma_subrange_chunk(s, pos, whole, 0, num_chars(t.len() as u64));
    lemma_parse_num(s, pos, t.len() as u64);
    let p1 = pos + 17;
    assert(whole.subrange(17, 17 + n) =~= t);
    lemma_subrange_chunk(s, pos, whole, 17, t);
    assert(whole.subrange(17 + n, 18 + n) =~= seq!['\n']);
    lemma_subrange_chunk(s, pos, whole, 17 + n, seq!['\n']);
    assert(s[p1 + n] == s.subrange(pos + (17 + n), pos + (17 + n) + 1)[0]);
    assert(s[p1 + n] == '\n');
    assert(s.subrange(p1, p1 + n) == t);
}

proof fn lemma_enc_str_list_first(l: Seq<Seq<char>>)
    requires
        l.len() > 0,
    ensures
        enc_str_list(l) == str_chars(l.first()) + enc_str_list(l.drop_first()),
    decreases l.len(),
{
    if l.len() == 1 {
        assert(l.drop_last() =~= Seq::<Seq<char>>::empty());
        assert(l.drop_first() =~= Seq::<Seq<char>>::empty());
        assert(enc_str_list(l) =~= str_chars(l.first()) + enc_str_list(l.drop_first()));
    } else {
        lemma_enc_str_list_first(l.drop_last());
        assert(l.drop_last().first() == l.first());
        assert(l.drop_last().drop_first() =~= l.drop_first().drop_last());
        assert(l.drop_first().len() > 0);
        assert(l.drop_first().last() == l.last());
        assert(enc_str_list(l.drop_last()) == str_chars(l.first()) + enc_str_list(
            l.drop_first().drop_last(),
        ));
        assert(enc_str_list(l) =~= str_chars(l.first()) + enc_str_list(l.drop_first()));
    }
}

proof fn lemma_parse_str_list(s: Seq<char>, pos: int, l: Seq<Seq<char>>)
    requires
        0 <= pos,
        pos + enc_str_list(l).len() <= s.len(),
        s.subrange(pos, pos + enc_str_list(l).len()) == enc_str_list(l),
        l.len() <= u64::MAX,
        forall|k: int| 0 <= k < l.len() ==> bounded_str(#[trigger] l[k]),
    ensures
        p_str_list(s, pos, l.len() as int) == Option::Some((l, pos + enc_str_list(l).len())),
    decreases l.len(),
{
    if l.len() == 0 {
        assert(l =~= Seq::<Seq<char>>::empty());
    } else {
        lemma_enc_str_list_first(l);
        let t = l.first();
        let head = str_chars(t);
        let tail = enc_str_list(l.drop_first());
        let whole = enc_str_list(l);
        assert(whole.subrange(0, head.len() as int) =~= head);
        lemma_subrange_chunk(s, pos, whole, 0, head);
        assert(bounded_str(t));
        lemma_parse_str(s, pos, t);
        let p1 = pos + head.len() as int;
        assert(whole.subrange(head.len() as int, whole.len() as int) =~= tail);
        lemma_subrange_chunk(s, pos, whole, head.len() as int, tail);
        lemma_parse_str_list(s, p1, l.drop_first());
        assert(seq![t] + l.drop_first() =~= l);
    }
}

proof fn lemma_parse_v4addr(s: Seq<char>, pos: int, a: Ipv4Address)
    requires
        0 <= pos,
        pos + 68 <= s.len(),
        s.subrange(pos, pos + 68) == enc_v4addr(a),
    ensures
        p_v4addr(s, pos) == Option::Some((a, pos + 68)),
{
    let whole = enc_v4addr(a);
    assert(num_chars(a.o0 as u64).len() == 17);
    assert(num_chars(a.o1 as u64).len() == 17);
    assert(num_chars(a.o2 as u64).len() == 17);
    assert(num_chars(a.o3 as u64).len() == 17);
    assert(whole.subrange(0, 17) =~= num_chars(a.o0 as u64));
    assert(whole.subrange(17, 34) =~= num_chars(a.o1 as u64));
    assert(whole.subrange(34, 51) =~= num_chars(a.o2 as u64));
    assert(whole.subrange(51, 68) =~= num_chars(a.o3 as u64));
    lemma_subrange_chunk(s, pos, whole, 0, num_chars(a.o0 as u64));
    lemma_subrange_chunk(s, pos, whole, 17, num_chars(a.o1 as u64));
    lemma_subrange_chunk(s, pos, whole, 34, num_chars(a.o2 as u64));
    lemma_subrange_chunk(s, pos, whole, 51, num_chars(a.o3 as u64));
    lemma_parse_num(s, pos, a.o0 as u64);
    lemma_parse_num(s, pos + 17, a.o1 as u64);
    lemma_parse_num(s, pos + 34, a.o2 as u64);
    lemma_parse_num(s, pos + 51, a.o3 as u64);
}

proof fn lemma_parse_v6addr(s: Seq<char>, pos: int, a: Ipv6Address)
    requires
        0 <= pos,
        pos + 136 <= s.len(),
        s.subrange(pos, pos + 136) == enc_v6addr(a),
    ensures
        p_v6addr(s, pos) == Option::Some((a, pos + 136)),
{
    let whole = enc_v6addr(a);
    assert(num_chars(a.s0 as u64).len() == 17);
    assert(num_chars(a.s1 as u64).len() == 17);
    assert(num_chars(a.s2 as u64).len() == 17);
    assert(num_chars(a.s3 as u64).len() == 17);
    assert(num_chars(a.s4 as u64).len() == 17);
    assert(num_chars(a.s5 as u64).len() == 17);
    assert(num_chars(a.s6 as u64).len() == 17);
    assert(num_chars(a.s7 as u64).len() == 17);
    assert(whole.subrange(0, 17) =~= num_chars(a.s0 as u64));
    assert(whole.subrange(17, 34) =~= num_chars(a.s1 as u64));
    assert(whole.subrange(34, 51) =~= num_chars(a.s2 as u64));
    assert(whole.subrange(51, 68) =~= num_chars(a.s3 as u64));
    assert(whole.subrange(68, 85) =~= num_chars(a.s4 as u64));
    assert(whole.subrange(85, 102) =~= num_chars(a.s5 as u64));
    assert(whole.subrange(102, 119) =~= num_chars(a.s6 as u64));
    assert(whole.subrange(119, 136) =~= num_chars(a.s7 as u64));
    lemma_subrange_chunk(s, pos, whole, 0, num_chars(a.s0 as u64));
    lemma_subrange_chunk(s, pos, whole, 17, num_chars(a.s1 as u64));
    lemma_subrange_chunk(s, pos, whole, 34, num_chars(a.s2 as u64));
    lemma_subrange_chunk(s, pos, whole, 51, num_chars(a.s3 as u64));
    lemma_subrange_chunk(s, pos, whole, 68, num_chars(a.s4 as u64));
    lemma_subrange_chunk(s, pos, whole, 85, num_chars(a.s5 as u64));
    lemma_subrange_chunk(s, pos, whole, 102, num_chars(a.s6 as u64));
    lemma_subrange_chunk(s, pos, whole, 119, num_chars(a.s7 as u64));
    lemma_parse_num(s, pos, a.s0 as u64);
    lemma_parse_num(s, pos + 17, a.s1 as u64);
    lemma_parse_num(s, pos + 34, a.s2 as u64);
    lemma_parse_num(s, pos + 51, a.s3 as u64);
    lemma_parse_num(s, pos + 68, a.s4 as u64);
    lemma_parse_num(s, pos + 85, a.s5 as u64);
    lemma_parse_num(s, pos + 102, a.s6 as u64);
    lemma_parse_num(s, pos + 119, a.s7 as u64);
}

} // verus!

// ---------------------------------------------------------------
// Round trip of the runner-to-puppet direction, composite parts.
// ---------------------------------------------------------------

verus! {

/// One character of a chunk that is known to sit at an offset.
proof fn lemma_char_at(s: Seq<char>, pos: int, whole: Seq<char>, i: int)
    requires
        0 <= pos,
        pos + whole.len() <= s.len(),
        s.subrange(pos, pos + whole.len()) == whole,
        0 <= i < whole.len(),
    ensures
        s[pos + i] == whole[i],
{
    assert(s.subrange(pos, pos + whole.len())[i] == s[pos + i]);
}

/// A keyword cannot match where some character differs.
proof fn lemma_kw_mismatch(s: Seq<char>, pos: int, kw: Seq<char>, i: int)
    requires
        0 <= pos,
        0 <= i < kw.len(),
        pos + i < s.len(),
        s[pos + i] != kw[i],
    ensures
        p_kw(s, pos, kw) is None,
{
    if p_kw(s, pos, kw) is Some {
        assert(s.subrange(pos, pos + kw.len())[i] == s[pos + i]);
    }
}

proof fn lemma_enc_v4list_first(l: Seq<Ipv4Address>)
    requires
        l.len() > 0,
    ensures
        enc_v4list(l) == enc_v4addr(l.first()) + enc_v4list(l.drop_first()),
    decreases l.len(),
{
    if l.len() == 1 {
        assert(l.drop_last() =~= Seq::<Ipv4Address>::empty());
        assert(l.drop_first() =~= Seq::<Ipv4Address>::empty());
        assert(enc_v4list(l) =~= enc_v4addr(l.first()) + enc_v4list(l.drop_first()));
    } else {
        lemma_enc_v4list_first(l.drop_last());
        assert(l.drop_last().first() == l.first());
        assert(l.drop_last().drop_first() =~= l.drop_first().drop_last());
        assert(l.drop_first().last() == l.last());
        assert(enc_v4list(l) =~= enc_v4addr(l.first()) + enc_v4list(l.drop_first()));
    }
}

proof fn lemma_enc_v6list_first(l: Seq<Ipv6Address>)
    requires
        l.len() > 0,
    ensures
        enc_v6list(l) == enc_v6addr(l.first()) + enc_v6list(l.drop_first()),
    decreases l.len(),
{
    if l.len() == 1 {
        assert(l.drop_last() =~= Seq::<Ipv6Address>::empty());
        assert(l.drop_first() =~= Seq::<Ipv6Address>::empty());
        assert(enc_v6list(l) =~= enc_v6addr(l.first()) + enc_v6list(l.drop_first()));
    } else {
        lemma_enc_v6list_first(l.drop_last());
        assert(l.drop_last().first() == l.first());
        assert(l.drop_last().drop_first() =~= l.drop_first().drop_last());
        assert(l.drop_first().last() == l.last());
        assert(enc_v6list(l) =~= enc_v6addr(l.first()) + enc_v6list(l.drop_first()));
    }
}

proof fn lemma_parse_v4list(s: Seq<char>, pos: int, l: Seq<Ipv4Address>)
    requires
        0 <= pos,
        pos + enc_v4list(l).len() <= s.len(),
        s.subrange(pos, pos + enc_v4list(l).len()) == enc_v4list(l),
    ensures
        p_v4list(s, pos, l.len() as int) == Option::Some((l, pos + enc_v4list(l).len())),
    decreases l.len(),
{
    if l.len() == 0 {
        assert(l =~= Seq::<Ipv4Address>::empty());
    } else {
        lemma_enc_v4list_first(l);
        let head = enc_v4addr(l.first());
        let tail = enc_v4list(l.drop_first());
        let whole = enc_v4list(l);
        assert(head.len() == 68);
        assert(whole.subrange(0, 68) =~= head);
        lemma_subrange_chunk(s, pos, whole, 0, head);
        lemma_parse_v4addr(s, pos, l.first());
        assert(whole.subrange(68, whole.len() as int) =~= tail);
        lemma_subrange_chunk(s, pos, whole, 68, tail);
        lemma_parse_v4list(s, pos + 68, l.drop_first());
        assert(seq![l.first()] + l.drop_first() =~= l);
    }
}

proof fn lemma_parse_v6list(s: Seq<char>, pos: int, l: Seq<Ipv6Address>)
    requires
        0 <= pos,
        pos + enc_v6list(l).len() <= s.len(),
        s.subrange(pos, pos + enc_v6list(l).len()) == enc_v6list(l),
    ensures
        p_v6list(s, pos, l.len() as int) == Option::Some((l, pos + enc_v6list(l).len())),
    decreases l.len(),
{
    if l.len() == 0 {
        assert(l =~= Seq::<Ipv6Address>::empty());
    } else {
        lemma_enc_v6list_first(l);
        let head = enc_v6addr(l.first());
        let tail = enc_v6list(l.drop_first());
        let whole = enc_v6list(l);
        assert(head.len() == 136);
        assert(whole.subrange(0, 136) =~= head);
        lemma_subrange_chunk(s, pos, whole, 0, head);
        lemma_parse_v6addr(s, pos, l.first());
        assert(whole.subrange(136, whole.len() as int) =~= tail);
        lemma_subrange_chunk(s, pos, whole, 136, tail);
        lemma_parse_v6list(s, pos + 136, l.drop_first());
        assert(seq![l.first()] + l.drop_first() =~= l);
    }
}

proof fn lemma_parse_opt_v4addr(s: Seq<char>, pos: int, g: Option<Ipv4Address>)
    requires
        0 <= pos,
        pos + enc_opt_v4addr(g).len() <= s.len(),
        s.subrange(pos, pos + enc_opt_v4addr(g).len()) == enc_opt_v4addr(g),
    ensures
        p_opt_v4addr(s, pos) == Option::Some((g, pos + enc_opt_v4addr(g).len())),
{
    reveal_strlit("none");
    reveal_strlit("some");
    let whole = enc_opt_v4addr(g);
    match g {
        Option::None => {
            assert(whole =~= "none"@ + seq!['\n']);
            assert(whole.subrange(0, 4) =~= "none"@);
            lemma_subrange_chunk(s, pos, whole, 0, "none"@);
            lemma_char_at(s, pos, whole, 4);
            lemma_parse_kw(s, pos, "none"@);
        },
        Option::Some(a) => {
            assert(whole =~= ("some"@ + seq!['\n']) + enc_v4addr(a));
            lemma_char_at(s, pos, whole, 0);
            assert(whole[0] == 's');
            lemma_kw_mismatch(s, pos, "none"@, 0);
            assert(whole.subrange(0, 4) =~= "some"@);
            lemma_subrange_chunk(s, pos, whole, 0, "some"@);
            lemma_char_at(s, pos, whole, 4);
            lemma_parse_kw(s, pos, "some"@);
            assert(whole.subrange(5, 73) =~= enc_v4addr(a));
            lemma_subrange_chunk(s, pos, whole, 5, enc_v4addr(a));
            lemma_parse_v4addr(s, pos + 5, a);
        },
    }
}

proof fn lemma_parse_opt_v6addr(s: Seq<char>, pos: int, g: Option<Ipv6Address>)
    requires
        0 <= pos,
        pos + enc_opt_v6addr(g).len() <= s.len(),
        s.subrange(pos, pos + enc_opt_v6addr(g).len()) == enc_opt_v6addr(g),
    ensures
        p_opt_v6addr(s, pos) == Option::Some((g, pos + enc_opt_v6addr(g).len())),
{
    reveal_strlit("none");
    reveal_strlit("some");
    let whole = enc_opt_v6addr(g);
    match g {
        Option::None => {
            assert(whole =~= "none"@ + seq!['\n']);
            assert(whole.subrange(0, 4) =~= "none"@);
            lemma_subrange_chunk(s, pos, whole, 0, "none"@);
            lemma_char_at(s, pos, whole, 4);
            lemma_parse_kw(s, pos, "none"@);
        },
        Option::Some(a) => {
            assert(whole =~= ("some"@ + seq!['\n']) + enc_v6addr(a));
            lemma_char_at(s, pos, whole, 0);
            assert(whole[0] == 's');
            lemma_kw_mismatch(s, pos, "none"@, 0);
            assert(whole.subrange(0, 4) =~= "some"@);
            lemma_subrange_chunk(s, pos, whole, 0, "some"@);
            lemma_char_at(s, pos, whole, 4);
            lemma_parse_kw(s, pos, "some"@);
            assert(whole.subrange(5, 141) =~= enc_v6addr(a));
            lemma_subrange_chunk(s, pos, whole, 5, enc_v6addr(a));
            lemma_parse_v6addr(s, pos + 5, a);
        },
    }
}

proof fn lemma_parse_v4net(s: Seq<char>, pos: int, n: Ipv4NetView)
    requires
        0 <= pos,
        pos + enc_v4net(n).len() <= s.len(),
        s.subrange(pos, pos + enc_v4net(n).len()) == enc_v4net(n),
        n.nameservers.len() <= u64::MAX,
    ensures
        p_v4net(s, pos) == Option::Some((n, pos + enc_v4net(n).len())),
{
    let whole = enc_v4net(n);
    let optlen = enc_opt_v4addr(n.gateway).len() as int;
    let listlen = enc_v4list(n.nameservers).len() as int;
    assert(whole.len() == 68 + 17 + optlen + 17 + listlen);
    assert(whole.subrange(0, 68) =~= enc_v4addr(n.address));
    lemma_subrange_chunk(s, pos, whole, 0, enc_v4addr(n.address));
    lemma_parse_v4addr(s, pos, n.address);
    assert(whole.subrange(68, 85) =~= num_chars(n.prefix_length as u64));
    lemma_subrange_chunk(s, pos, whole, 68, num_chars(n.prefix_length as u64));
    lemma_parse_num(s, pos + 68, n.prefix_length as u64);
    assert(whole.subrange(85, 85 + optlen) =~= enc_opt_v4addr(n.gateway));
    lemma_subrange_chunk(s, pos, whole, 85, enc_opt_v4addr(n.gateway));
    lemma_parse_opt_v4addr(s, pos + 85, n.gateway);
    let p3 = pos + 85 + optlen;
    assert(whole.subrange(85 + optlen, 102 + optlen) =~= num_chars(
        n.nameservers.len() as u64,
    ));
    lemma_subrange_chunk(s, pos, whole, 85 + optlen, num_chars(n.nameservers.len() as u64));
    lemma_parse_num(s, p3, n.nameservers.len() as u64);
    assert(whole.subrange(102 + optlen, 102 + optlen + listlen) =~= enc_v4list(
        n.nameservers,
    ));
    lemma_subrange_chunk(s, pos, whole, 102 + optlen, enc_v4list(n.nameservers));
    lemma_parse_v4list(s, pos + 102 + optlen, n.nameservers);
}

proof fn lemma_parse_v6net(s: Seq<char>, pos: int, n: Ipv6NetView)
    requires
        0 <= pos,
        pos + enc_v6net(n).len() <= s.len(),
        s.subrange(pos, pos + enc_v6net(n).len()) == enc_v6net(n),
        n.nameservers.len() <= u64::MAX,
    ensures
        p_v6net(s, pos) == Option::Some((n, pos + enc_v6net(n).len())),
{
    let whole = enc_v6net(n);
    let optlen = enc_opt_v6addr(n.gateway).len() as int;
    let listlen = enc_v6list(n.nameservers).len() as int;
    assert(whole.len() == 136 + 17 + optlen + 17 + listlen);
    assert(whole.subrange(0, 136) =~= enc_v6addr(n.address));
    lemma_subrange_chunk(s, pos, whole, 0, enc_v6addr(n.address));
    lemma_parse_v6addr(s, pos, n.address);
    assert(whole.subrange(136, 153) =~= num_chars(n.prefix_length as u64));
    lemma_subrange_chunk(s, pos, whole, 136, num_chars(n.prefix_length as u64));
    lemma_parse_num(s, pos + 136, n.prefix_length as u64);
    assert(whole.subrange(153, 153 + optlen) =~= enc_opt_v6addr(n.gateway));
    lemma_subrange_chunk(s, pos, whole, 153, enc_opt_v6addr(n.gateway));
    lemma_parse_opt_v6addr(s, pos + 153, n.gateway);
    let p3 = pos + 153 + optlen;
    assert(whole.subrange(153 + optlen, 170 + optlen) =~= num_chars(
        n.nameservers.len() as u64,
    ));
    lemma_subrange_chunk(s, pos, whole, 153 + optlen, num_chars(n.nameservers.len() as u64));
    lemma_parse_num(s, p3, n.nameservers.len() as u64);
    assert(whole.subrange(170 + optlen, 170 + optlen + listlen) =~= enc_v6list(
        n.nameservers,
    ));
    lemma_subrange_chunk(s, pos, whole, 170 + optlen, enc_v6list(n.nameservers));
    lemma_parse_v6list(s, pos + 170 + optlen, n.nameservers);
}

} // verus!

// ---------------------------------------------------------------
// Round trip of the runner-to-puppet direction, whole messages.
// ---------------------------------------------------------------

verus! {

proof fn lemma_parse_opt_str(s: Seq<char>, pos: int, t: Option<Seq<char>>)
    requires
        0 <= pos,
        pos + enc_opt_str(t).len() <= s.len(),
        s.subrange(pos, pos + enc_opt_str(t).len()) == enc_opt_str(t),
        t matches Option::Some(x) ==> bounded_str(x),
    ensures
        p_opt_str(s, pos) == Option::Some((t, pos + enc_opt_str(t).len())),
{
    reveal_strlit("none");
    reveal_strlit("some");
    let whole = enc_opt_str(t);
    match t {
        Option::None => {
            assert(whole =~= "none"@ + seq!['\n']);
            assert(whole.subrange(0, 4) =~= "none"@);
            lemma_subrange_chunk(s, pos, whole, 0, "none"@);
            lemma_char_at(s, pos, whole, 4);
            lemma_parse_kw(s, pos, "none"@);
        },
        Option::Some(x) => {
            assert(whole =~= ("some"@ + seq!['\n']) + str_chars(x));
            lemma_char_at(s, pos, whole, 0);
            assert(whole[0] == 's');
            lemma_kw_mismatch(s, pos, "none"@, 0);
            assert(whole.subrange(0, 4) =~= "some"@);
            lemma_subrange_chunk(s, pos, whole, 0, "some"@);
            lemma_char_at(s, pos, whole, 4);
            lemma_parse_kw(s, pos, "some"@);
            assert(whole.subrange(5, 5 + (18 + x.len() as int)) =~= str_chars(x));
            lemma_subrange_chunk(s, pos, whole, 5, str_chars(x));
            lemma_parse_str(s, pos + 5, x);
        },
    }
}

proof fn lemma_parse_netcfg(s: Seq<char>, pos: int, nc: NetworkConfigView)
    requires
        0 <= pos,
        pos + enc_netcfg(nc).len() <= s.len(),
        s.subrange(pos, pos + enc_netcfg(nc).len()) == enc_netcfg(nc),
        bounded_netcfg(nc),
    ensures
        p_netcfg(s, pos) == Option::Some((nc, pos + enc_netcfg(nc).len())),
{
    reveal_strlit("none");
    reveal_strlit("some");
    let whole = enc_netcfg(nc);
    let hlen = str_chars(nc.hostname).len() as int;
    let ilen = enc_opt_str(nc.interface).len() as int;
    let v4len = enc_opt_v4net(nc.ipv4).len() as int;
    let v6len = enc_opt_v6net(nc.ipv6).len() as int;
    assert(whole.len() == hlen + ilen + v4len + v6len);
    assert(whole.subrange(0, hlen) =~= str_chars(nc.hostname));
    lemma_subrange_chunk(s, pos, whole, 0, str_chars(nc.hostname));
    lemma_parse_str(s, pos, nc.hostname);
    assert(whole.subrange(hlen, hlen + ilen) =~= enc_opt_str(nc.interface));
    lemma_subrange_chunk(s, pos, whole, hlen, enc_opt_str(nc.interface));
    lemma_parse_opt_str(s, pos + hlen, nc.interface);
    let p2 = pos + hlen + ilen;
    assert(whole.subrange(hlen + ilen, hlen + ilen + v4len) =~= enc_opt_v4net(nc.ipv4));
    lemma_subrange_chunk(s, pos, whole, hlen + ilen, enc_opt_v4net(nc.ipv4));
    let v4chunk = enc_opt_v4net(nc.ipv4);
    match nc.ipv4 {
        Option::None => {
            assert(v4chunk =~= "none"@ + seq!['\n']);
            assert(v4chunk.subrange(0, 4) =~= "none"@);
            lemma_subrange_chunk(s, p2, v4chunk, 0, "none"@);
            lemma_char_at(s, p2, v4chunk, 4);
            lemma_parse_kw(s, p2, "none"@);
        },
        Option::Some(n) => {
            assert(v4chunk =~= ("some"@ + seq!['\n']) + enc_v4net(n));
            lemma_char_at(s, p2, v4chunk, 0);
            assert(v4chunk[0] == 's');
            lemma_kw_mismatch(s, p2, "none"@, 0);
            assert(v4chunk.subrange(0, 4) =~= "some"@);
            lemma_subrange_chunk(s, p2, v4chunk, 0, "some"@);
            lemma_char_at(s, p2, v4chunk, 4);
            lemma_parse_kw(s, p2, "some"@);
            assert(v4chunk.subrange(5, 5 + enc_v4net(n).len() as int) =~= enc_v4net(n));
            lemma_subrange_chunk(s, p2, v4chunk, 5, enc_v4net(n));
            lemma_parse_v4net(s, p2 + 5, n);
        },
    }
    let p4 = p2 + v4len;
    assert(whole.subrange(hlen + ilen + v4len, hlen + ilen + v4len + v6len) =~= enc_opt_v6net(
        nc.ipv6,
    ));
    lemma_subrange_chunk(s, pos, whole, hlen + ilen + v4len, enc_opt_v6net(nc.ipv6));
    let v6chunk = enc_opt_v6net(nc.ipv6);
    match nc.ipv6 {
        Option::None => {
            assert(v6chunk =~= "none"@ + seq!['\n']);
            assert(v6chunk.subrange(0, 4) =~= "none"@);
            lemma_subrange_chunk(s, p4, v6chunk, 0, "none"@);
            lemma_char_at(s, p4, v6chunk, 4);
            lemma_parse_kw(s, p4, "none"@);
        },
        Option::Some(n) => {
            assert(v6chunk =~= ("some"@ + seq!['\n']) + enc_v6net(n));
            lemma_char_at(s, p4, v6chunk, 0);
            assert(v6chunk[0] == 's');
            lemma_kw_mismatch(s, p4, "none"@, 0);
            assert(v6chunk.subrange(0, 4) =~= "some"@);
            lemma_subrange_chunk(s, p4, v6chunk, 0, "some"@);
            lemma_char_at(s, p4, v6chunk, 4);
            lemma_parse_kw(s, p4, "some"@);
            assert(v6chunk.subrange(5, 5 + enc_v6net(n).len() as int) =~= enc_v6net(n));
            lemma_subrange_chunk(s, p4, v6chunk, 5, enc_v6net(n));
            lemma_parse_v6net(s, p4 + 5, n);
        },
    }
}

proof fn lemma_parse_resp(s: Seq<char>, pos: int, r: RunnerRespView)
    requires
        0 <= pos,
        pos + enc_resp(r).len() <= s.len(),
        s.subrange(pos, pos + enc_resp(r).len()) == enc_resp(r),
        bounded_resp(r),
    ensures
        p_resp(s, pos) == Option::Some((r, pos + enc_resp(r).len())),
{
    reveal_strlit("ssh_keys");
    reveal_strlit("network_config");
    reveal_strlit("job_not_found");
    let whole = enc_resp(r);
    match r {
        RunnerRespView::SSHKeysResp { ssh_keys } => {
            let listlen = enc_str_list(ssh_keys).len() as int;
            assert(whole =~= ("ssh_keys"@ + seq!['\n']) + num_chars(ssh_keys.len() as u64)
                + enc_str_list(ssh_keys));
            assert(whole.subrange(0, 8) =~= "ssh_keys"@);
            lemma_subrange_chunk(s, pos, whole, 0, "ssh_keys"@);
            lemma_char_at(s, pos, whole, 8);
            lemma_parse_kw(s, pos, "ssh_keys"@);
            assert(whole.subrange(9, 26) =~= num_chars(ssh_keys.len() as u64));
            lemma_subrange_chunk(s, pos, whole, 9, num_chars(ssh_keys.len() as u64));
            lemma_parse_num(s, pos + 9, ssh_keys.len() as u64);
            assert(whole.subrange(26, 26 + listlen) =~= enc_str_list(ssh_keys));
            lemma_subrange_chunk(s, pos, whole, 26, enc_str_list(ssh_keys));
            lemma_parse_str_list(s, pos + 26, ssh_keys);
        },
        RunnerRespView::NetworkConfig(nc) => {
            assert(whole =~= ("network_config"@ + seq!['\n']) + enc_netcfg(nc));
            lemma_char_at(s, pos, whole, 0);
            assert(whole[0] == 'n');
            lemma_kw_mismatch(s, pos, "ssh_keys"@, 0);
            assert(whole.subrange(0, 14) =~= "network_config"@);
            lemma_subrange_chunk(s, pos, whole, 0, "network_config"@);
            lemma_char_at(s, pos, whole, 14);
            lemma_parse_kw(s, pos, "network_config"@);
            assert(whole.subrange(15, 15 + enc_netcfg(nc).len() as int) =~= enc_netcfg(nc));
            lemma_subrange_chunk(s, pos, whole, 15, enc_netcfg(nc));
            lemma_parse_netcfg(s, pos + 15, nc);
        },
        RunnerRespView::JobNotFound => {
            assert(whole =~= "job_not_found"@ + seq!['\n']);
            lemma_char_at(s, pos, whole, 0);
            assert(whole[0] == 'j');
            lemma_kw_mismatch(s, pos, "ssh_keys"@, 0);
            lemma_kw_mismatch(s, pos, "network_config"@, 0);
            assert(whole.subrange(0, 13) =~= "job_not_found"@);
            lemma_subrange_chunk(s, pos, whole, 0, "job_not_found"@);
            lemma_char_at(s, pos, whole, 13);
            lemma_parse_kw(s, pos, "job_not_found"@);
        },
    }
}

/// Every datagram the runner encodes is decoded back to the same
/// message: the response path of the control-socket protocol loses
/// nothing on the wire.
pub proof fn lemma_runner_msg_round_trip(m: RunnerMsgView)
    requires
        bounded_runner_msg(m),
    ensures
        spec_decode_runner_msg(spec_encode_runner_msg(m)) == Option::Some(m),
{
    reveal_strlit("response");
    reveal_strlit("runner_event");
    reveal_strlit("error");
    let s = spec_encode_runner_msg(m);
    match m {
        RunnerMsgView::Response { request_id, response } => {
            let rlen = enc_resp(response).len() as int;
            assert(s =~= ("response"@ + seq!['\n']) + num_chars(request_id) + enc_resp(
                response,
            ));
            assert(s.len() == 26 + rlen);
            assert(s.subrange(0, s.len() as int) =~= s);
            assert(s.subrange(0, 8) =~= "response"@);
            lemma_subrange_chunk(s, 0, s, 0, "response"@);
            lemma_char_at(s, 0, s, 8);
            lemma_parse_kw(s, 0, "response"@);
            assert(s.subrange(9, 26) =~= num_chars(request_id));
            lemma_parse_num(s, 9, request_id);
            assert(s.subrange(26, 26 + rlen) =~= enc_resp(response));
            lemma_parse_resp(s, 26, response);
        },
        RunnerMsgView::Event { runner_event_id } => {
            assert(s =~= ("runner_event"@ + seq!['\n']) + num_chars(runner_event_id));
            assert(s.len() == 30);
            assert(s[1] == "runner_event"@[1]);
            assert(s[1] != "response"@[1]);
            if p_kw(s, 0, "response"@) is Some {
                assert(s.subrange(0, 8)[1] == s[1int]);
            }
            assert(p_kw(s, 0, "response"@) is None);
            assert(s.subrange(0, 12) =~= "runner_event"@);
            assert(s[12] == '\n');
            lemma_parse_kw(s, 0, "runner_event"@);
            assert(s.subrange(13, 30) =~= num_chars(runner_event_id));
            lemma_parse_num(s, 13, runner_event_id);
        },
        RunnerMsgView::Error { message } => {
            assert(s =~= ("error"@ + seq!['\n']) + str_chars(message));
            assert(s.len() == 6 + 18 + message.len() as int);
            assert(s[0] == "error"@[0]);
            assert(s[0] != "response"@[0]);
            lemma_kw_mismatch(s, 0, "response"@, 0);
            assert(s[0] != "runner_event"@[0]);
            lemma_kw_mismatch(s, 0, "runner_event"@, 0);
            assert(s.subrange(0, 5) =~= "error"@);
            assert(s[5] == '\n');
            lemma_parse_kw(s, 0, "error"@);
            assert(s.subrange(6, 6 + (18 + message.len() as int)) =~= str_chars(message));
            lemma_parse_str(s, 6, message);
        },
    }
}

} // verus!
