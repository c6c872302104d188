//! Client IP resolution behind trusted proxies.
use vstd::prelude::*;
use crate::error::{api_error, ApiError, ApiErrorCode, StatusCode};
use crate::text::{chars_of, string_of};

verus! {

/// An IP address: IPv4 as its 32-bit value, IPv6 as its 128-bit value.
#[derive(Clone, Copy, Debug, PartialEq, Eq, Structural)]
pub enum IpAddress {
    V4(u32),
    V6(u128),
}

/// A network: an address and the length of its prefix.
#[derive(Clone, Copy, Debug, PartialEq, Eq, Structural)]
pub struct IpNetwork {
    pub addr: IpAddress,
    pub prefix: u8,
}

/// Whether `ip` lies in `net`: same family, a prefix no longer than the
/// address, and the same leading `prefix` bits.
pub open spec fn in_network(net: IpNetwork, ip: IpAddress) -> bool {
    match (net.addr, ip) {
        (IpAddress::V4(n), IpAddress::V4(a)) => net.prefix <= 32 && (net.prefix == 0 || (n >> ((32 - net.prefix) as u32)) == (a
            >> ((32 - net.prefix) as u32))),
        (IpAddress::V6(n), IpAddress::V6(a)) => net.prefix <= 128 && (net.prefix == 0 || (n >> ((128 - net.prefix) as u128)) == (a
            >> ((128 - net.prefix) as u128))),
        _ => false,
    }
}

impl IpNetwork {
    /// Whether `ip` lies in the network.
    pub fn contains(&self, ip: &IpAddress) -> (r: bool)
        ensures
            r == in_network(*self, *ip),
    {
        match (self.addr, *ip) {
            (IpAddress::V4(n), IpAddress::V4(a)) => {
                if self.prefix > 32 {
                    false
                } else if self.prefix == 0 {
                    true
                } else {
                    let s: u32 = (32 - self.prefix) as u32;
                    (n >> s) == (a >> s)
                }
            },
            (IpAddress::V6(n), IpAddress::V6(a)) => {
                if self.prefix > 128 {
                    false
                } else if self.prefix == 0 {
                    true
                } else {
                    let s: u128 = (128 - self.prefix) as u128;
                    (n >> s) == (a >> s)
                }
            },
            _ => false,
        }
    }
}

/// Whether some network of the list holds `ip`.
pub open spec fn trusted(nets: Seq<IpNetwork>, ip: IpAddress) -> bool {
    exists|i: int| 0 <= i < nets.len() && in_network(#[trigger] nets[i], ip)
}

/// Whether some network of the list holds `ip`.
pub fn is_trusted(nets: &Vec<IpNetwork>, ip: &IpAddress) -> (r: bool)
    ensures
        r == trusted(nets@, *ip),
{
    let mut i: usize = 0;
    while i < nets.len()
        invariant
            i <= nets@.len(),
            forall|j: int| 0 <= j < i ==> !in_network(#[trigger] nets@[j], *ip),
        decreases nets@.len() - i,
    {
        if nets[i].contains(ip) {
            return true;
        }
        i = i + 1;
    }
    false
}

/// The forwarding header of a request, as the server read it: absent, not
/// valid text, not a comma-separated list of addresses, or the list.
#[derive(Clone, Debug)]
pub enum ForwardedHeader {
    Missing,
    NotText,
    Malformed,
    Addresses(Vec<IpAddress>),
}

/// Whether `char::is_whitespace` holds of `c`: the characters with the
/// Unicode `White_Space` property.
pub open spec fn is_space(c: char) -> bool {
    ('\u{9}' <= c <= '\u{d}') || c == ' ' || c == '\u{85}' || c == '\u{a0}' || c == '\u{1680}' || ('\u{2000}' <= c
        <= '\u{200a}') || c == '\u{2028}' || c == '\u{2029}' || c == '\u{202f}' || c == '\u{205f}' || c == '\u{3000}'
}

fn is_space_char(c: char) -> (r: bool)
    ensures
        r == is_space(c),
{
    ('\u{9}' <= c && c <= '\u{d}') || c == ' ' || c == '\u{85}' || c == '\u{a0}' || c == '\u{1680}' || ('\u{2000}' <= c
        && c <= '\u{200a}') || c == '\u{2028}' || c == '\u{2029}' || c == '\u{202f}' || c == '\u{205f}' || c == '\u{3000}'
}

/// `s` without its leading white space.
pub open spec fn trim_start(s: Seq<char>) -> Seq<char>
    decreases s.len(),
{
    if s.len() > 0 && is_space(s[0]) {
        trim_start(s.drop_first())
    } else {
        s
    }
}

/// `s` without its trailing white space.
pub open spec fn trim_end(s: Seq<char>) -> Seq<char>
    decreases s.len(),
{
    if s.len() > 0 && is_space(s.last()) {
        trim_end(s.drop_last())
    } else {
        s
    }
}

/// `s` without white space at either end, as `str::trim` gives it.
pub open spec fn trim_spaces(s: Seq<char>) -> Seq<char> {
    trim_end(trim_start(s))
}

/// The pieces of `s` between its commas, as `str::split(',')` gives them:
/// one more piece than there are commas.
pub open spec fn split_commas(s: Seq<char>) -> Seq<Seq<char>>
    decreases s.len(),
{
    if s.len() == 0 {
        seq![Seq::<char>::empty()]
    } else {
        let rest = split_commas(s.drop_last());
        if s.last() == ',' {
            rest.push(Seq::<char>::empty())
        } else {
            rest.update(rest.len() - 1, rest.last().push(s.last()))
        }
    }
}

proof fn lemma_split_commas_nonempty(s: Seq<char>)
    ensures
        split_commas(s).len() >= 1,
    decreases s.len(),
{
    if s.len() > 0 {
        lemma_split_commas_nonempty(s.drop_last());
    }
}

/// The characters of `s` trimmed of white space at both ends.
fn trim_chars(s: &Vec<char>) -> (r: Vec<char>)
    ensures
        r@ == trim_spaces(s@),
{
    let n = s.len();
    let mut i: usize = 0;
    assert(s@.subrange(0, n as int) =~= s@);
    while i < n && is_space_char(s[i])
        invariant
            n == s@.len(),
            i <= n,
            trim_start(s@) == trim_start(s@.subrange(i as int, n as int)),
        decreases n - i,
    {
        assert(s@.subrange(i as int, n as int).drop_first() =~= s@.subrange(i + 1, n as int));
        i = i + 1;
    }
    assert(trim_start(s@) == s@.subrange(i as int, n as int));
    let mut j: usize = n;
    while j > i && is_space_char(s[j - 1])
        invariant
            n == s@.len(),
            i <= j <= n,
            trim_end(s@.subrange(i as int, n as int)) == trim_end(s@.subrange(i as int, j as int)),
        decreases j,
    {
        assert(s@.subrange(i as int, j as int).drop_last() =~= s@.subrange(i as int, j - 1));
        j = j - 1;
    }
    assert(trim_end(s@.subrange(i as int, j as int)) == s@.subrange(i as int, j as int));
    let mut r: Vec<char> = Vec::new();
    let mut k: usize = i;
    while k < j
        invariant
            i <= k <= j <= n,
            n == s@.len(),
            r@ == s@.subrange(i as int, k as int),
        decreases j - k,
    {
        r.push(s[k]);
        k = k + 1;
        assert(r@ =~= s@.subrange(i as int, k as int));
    }
    r
}

/// The addresses a forwarding header lists, as texts: the pieces between
/// its commas, each trimmed of white space at both ends.
pub fn forwarded_pieces(text: &str) -> (r: Vec<String>)
    ensures
        r@.len() == split_commas(text@).len(),
        forall|k: int| 0 <= k < r@.len() ==> (#[trigger] r@[k])@ == trim_spaces(split_commas(text@)[k]),
{
    let cs = chars_of(text);
    let mut r: Vec<String> = Vec::new();
    let mut cur: Vec<char> = Vec::new();
    let ghost mut done: Seq<Seq<char>> = Seq::empty();
    let mut i: usize = 0;
    while i < cs.len()
        invariant
            i <= cs@.len(),
            cs@ == text@,
            split_commas(cs@.take(i as int)) == done.push(cur@),
            r@.len() == done.len(),
            forall|k: int| 0 <= k < r@.len() ==> (#[trigger] r@[k])@ == trim_spaces(done[k]),
        decreases cs@.len() - i,
    {
        let c = cs[i];
        let ghost prefix = cs@.take(i + 1);
        assert(prefix.drop_last() =~= cs@.take(i as int));
        assert(prefix.last() == c);
        if c == ',' {
            let t = trim_chars(&cur);
            r.push(string_of(&t));
            proof {
                done = done.push(cur@);
            }
            cur = Vec::new();
            assert(split_commas(prefix) =~= done.push(cur@));
        } else {
            cur.push(c);
            assert(split_commas(prefix) =~= done.push(cur@));
        }
        i = i + 1;
    }
    assert(cs@.take(cs@.len() as int) =~= cs@);
    let t = trim_chars(&cur);
    r.push(string_of(&t));
    proof {
        done = done.push(cur@);
    }
    r
}

/// The position of the last address of the list that no trusted network
/// holds, if any.
pub fn rightmost_untrusted(ips: &Vec<IpAddress>, nets: &Vec<IpNetwork>) -> (r: Option<usize>)
    ensures
        match r {
            Some(i) => i < ips@.len() && !trusted(nets@, ips@[i as int]) && forall|j: int| i < j < ips@.len() ==> trusted(nets@, #[trigger] ips@[j]),
            None => forall|j: int| 0 <= j < ips@.len() ==> trusted(nets@, #[trigger] ips@[j]),
        },
{
    let mut i: usize = ips.len();
    while i > 0
        invariant
            i <= ips@.len(),
            forall|j: int| i <= j < ips@.len() ==> trusted(nets@, #[trigger] ips@[j]),
        decreases i,
    {
        if !is_trusted(nets, &ips[i - 1]) {
            return Some(i - 1);
        }
        i = i - 1;
    }
    None
}

/// How the API takes requests: the proxies it trusts and the header in which
/// they pass the client address on.
#[derive(Clone, Debug)]
pub struct IncomingRequestConfig {
    pub trusted_proxies: Vec<IpNetwork>,
    pub ip_header: Option<String>,
}

/// The middleware that settles the client address of each request.
#[derive(Clone, Debug)]
pub struct IpMiddleware(pub IncomingRequestConfig);

pub open spec fn internal_error() -> ApiError {
    api_error(StatusCode::InternalServerError, ApiErrorCode::Unknown, "internal server error")
}

pub open spec fn forbidden_error() -> ApiError {
    api_error(StatusCode::Forbidden, ApiErrorCode::Unknown, "forbidden")
}

pub open spec fn bad_request_error() -> ApiError {
    api_error(StatusCode::BadRequest, ApiErrorCode::Unknown, "bad request")
}

/// The middleware at work in front of an inner service.
#[derive(Clone, Debug)]
pub struct IpMiddlewareService<S> {
    pub inner: S,
    pub config: IncomingRequestConfig,
}

impl IpMiddleware {
    pub fn new(config: IncomingRequestConfig) -> (m: IpMiddleware)
        ensures
            m.0.trusted_proxies@ == config.trusted_proxies@,
            m.0.ip_header == config.ip_header,
    {
        IpMiddleware(config)
    }

    /// Puts the middleware in front of a service.
    pub fn layer<S>(&self, inner: S) -> (r: IpMiddlewareService<S>)
        ensures
            r.inner == inner,
            r.config.trusted_proxies@ == self.0.trusted_proxies@,
            r.config.ip_header == self.0.ip_header,
    {
        let mut nets: Vec<IpNetwork> = Vec::new();
        let mut i: usize = 0;
        while i < self.0.trusted_proxies.len()
            invariant
                i <= self.0.trusted_proxies@.len(),
                nets@ == self.0.trusted_proxies@.subrange(0, i as int),
            decreases self.0.trusted_proxies@.len() - i,
        {
            nets.push(self.0.trusted_proxies[i]);
            i = i + 1;
            assert(nets@ =~= self.0.trusted_proxies@.subrange(0, i as int));
        }
        assert(self.0.trusted_proxies@.subrange(0, self.0.trusted_proxies@.len() as int) =~= self.0.trusted_proxies@);
        let ip_header = match &self.0.ip_header {
            Some(h) => Some(h.clone()),
            None => None,
        };
        IpMiddlewareService { inner, config: IncomingRequestConfig { trusted_proxies: nets, ip_header } }
    }
}

impl<S> IpMiddlewareService<S> {

    /// The client address of a request. `connecting` is the address the
    /// connection came from; `header` is the forwarding header. Gives the
    /// address to record, or `None` to keep the connecting one.
    ///
    /// With no trusted proxies the connecting address stands. Otherwise the
    /// connection must come from a trusted proxy; the header must be present,
    /// text, and a list of addresses; and the last address in it that no
    /// trusted network holds is the client.
    pub fn modify(&self, connecting: Option<IpAddress>, header: &ForwardedHeader) -> (r: Result<Option<IpAddress>, ApiError>)
        ensures
            connecting is None ==> r == Err::<Option<IpAddress>, ApiError>(internal_error()),
            connecting matches Some(c) ==> {
                let nets = self.config.trusted_proxies@;
                if nets.len() == 0 {
                    r == Ok::<Option<IpAddress>, ApiError>(None)
                } else if !trusted(nets, c) {
                    r == Err::<Option<IpAddress>, ApiError>(forbidden_error())
                } else if self.config.ip_header is None {
                    r == Ok::<Option<IpAddress>, ApiError>(None)
                } else {
                    match header {
                        ForwardedHeader::Missing => r == Err::<Option<IpAddress>, ApiError>(forbidden_error()),
                        ForwardedHeader::NotText => r == Err::<Option<IpAddress>, ApiError>(bad_request_error()),
                        ForwardedHeader::Malformed => r == Err::<Option<IpAddress>, ApiError>(bad_request_error()),
                        ForwardedHeader::Addresses(v) => {
                            let ips = v@;
                            match r {
                                Ok(Some(ip)) => exists|i: int| 0 <= i < ips.len() && ips[i] == ip && !trusted(nets, ips[i])
                                    && forall|j: int| i < j < ips.len() ==> trusted(nets, #[trigger] ips[j]),
                                Ok(None) => forall|j: int| 0 <= j < ips.len() ==> trusted(nets, #[trigger] ips[j]),
                                Err(_) => false,
                            }
                        },
                    }
                }
            },
    {
        let c = match connecting {
            None => {
                return Err(ApiError::internal_server_error(ApiErrorCode::Unknown, "internal server error"));
            },
            Some(c) => c,
        };
        if self.config.trusted_proxies.len() == 0 {
            return Ok(None);
        }
        if !is_trusted(&self.config.trusted_proxies, &c) {
            return Err(ApiError::forbidden(ApiErrorCode::Unknown, "forbidden"));
        }
        if self.config.ip_header.is_none() {
            return Ok(None);
        }
        let ips = match header {
            ForwardedHeader::Missing => {
                return Err(ApiError::forbidden(ApiErrorCode::Unknown, "forbidden"));
            },
            ForwardedHeader::NotText | ForwardedHeader::Malformed => {
                return Err(ApiError::bad_request(ApiErrorCode::Unknown, "bad request"));
            },
            ForwardedHeader::Addresses(v) => v,
        };
        match rightmost_untrusted(ips, &self.config.trusted_proxies) {
            Some(i) => Ok(Some(ips[i])),
            None => Ok(None),
        }
    }
}

/// A network holds its own address, whatever prefix it has up to the
/// address's width; a network with the empty prefix holds every address of
/// its family; and no network holds an address of the other family.
pub proof fn networks_hold_their_addresses(net: IpNetwork, ip: IpAddress)
    ensures
        (match net.addr {
            IpAddress::V4(_) => net.prefix <= 32,
            IpAddress::V6(_) => net.prefix <= 128,
        }) ==> in_network(net, net.addr),
        (net.prefix == 0 && ((net.addr is V4 && ip is V4) || (net.addr is V6 && ip is V6))) ==> in_network(net, ip),
        ((net.addr is V4 && ip is V6) || (net.addr is V6 && ip is V4)) ==> !in_network(net, ip),
{
}

/// A network with the full prefix holds exactly its own address.
pub proof fn full_prefix_holds_one_address(n4: u32, a4: u32, n6: u128, a6: u128)
    ensures
        in_network(IpNetwork { addr: IpAddress::V4(n4), prefix: 32 }, IpAddress::V4(a4)) <==> a4 == n4,
        in_network(IpNetwork { addr: IpAddress::V6(n6), prefix: 128 }, IpAddress::V6(a6)) <==> a6 == n6,
{
    assert(n4 >> 0u32 == n4) by (bit_vector);
    assert(a4 >> 0u32 == a4) by (bit_vector);
    assert(n6 >> 0u128 == n6) by (bit_vector);
    assert(a6 >> 0u128 == a6) by (bit_vector);
}

} // verus!
