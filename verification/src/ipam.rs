//! IP address management: the usable host addresses of an IPv4 CIDR block and
//! the choice of the address that an allocation request receives.

use vstd::prelude::*;
use crate::columns::flag;
use crate::error::{bad_request, conflict, AppError, ErrKind};
use crate::text::{
    cat2, cat3, copy_opt, decimal_string, owned,
    chars_of, contains_string, opt_view, dec, find_char, first_index, lemma_first_index, parse_u32, parse_u32_spec,
    push_decimal, slice_chars, split_chars, split_seq, string_of, views,
};

verus! {

/// `2^n`.
pub open spec fn two_pow(n: nat) -> nat
    decreases n,
{
    if n == 0 {
        1
    } else {
        2 * two_pow((n - 1) as nat)
    }
}

/// Why a CIDR string is refused.
#[derive(Debug, Clone, Copy, PartialEq, Eq)]
pub enum CidrFault {
    /// No `/` separates the address from the prefix length.
    Shape,
    /// The prefix length is not a number.
    Prefix,
    /// The prefix length exceeds 32.
    PrefixRange,
    /// The address is not four dot-separated numbers of at most 255.
    Address,
    /// The block holds no usable address.
    NoUsable,
}

/// The message a refused CIDR is answered with.
pub open spec fn fault_message(f: CidrFault) -> Seq<char> {
    match f {
        CidrFault::Shape => "CIDR must be in the form x.x.x.x/n"@,
        CidrFault::Prefix => "invalid prefix length"@,
        CidrFault::PrefixRange => "prefix length must be 0\u{2013}32"@,
        CidrFault::Address => "invalid IP address in CIDR"@,
        CidrFault::NoUsable => "CIDR has no usable addresses"@,
    }
}

pub open spec fn octet_ok(p: Seq<char>) -> bool {
    parse_u32_spec(p) is Some && parse_u32_spec(p).unwrap() <= 255
}

pub open spec fn octet_value(p: Seq<char>) -> nat {
    match parse_u32_spec(p) {
        Some(v) => v as nat,
        None => 0,
    }
}

/// Four dot-separated decimal numbers, each at most 255.
pub open spec fn octets_valid(parts: Seq<Seq<char>>) -> bool {
    &&& parts.len() == 4
    &&& octet_ok(parts[0])
    &&& octet_ok(parts[1])
    &&& octet_ok(parts[2])
    &&& octet_ok(parts[3])
}

/// The 32-bit value of a dotted-quad address.
pub open spec fn address_value(parts: Seq<Seq<char>>) -> nat {
    octet_value(parts[0]) * 16777216 + octet_value(parts[1]) * 65536 + octet_value(parts[2])
        * 256 + octet_value(parts[3])
}

/// Reads `a.b.c.d/n`: the address value and the prefix length.
pub open spec fn parse_cidr(s: Seq<char>) -> Result<(nat, nat), CidrFault> {
    let k = first_index(s, '/');
    if k < 0 {
        Err(CidrFault::Shape)
    } else {
        match parse_u32_spec(s.skip(k + 1)) {
            None => Err(CidrFault::Prefix),
            Some(p) => if p > 32 {
                Err(CidrFault::PrefixRange)
            } else {
                let parts = split_seq(s.take(k), '.');
                if !octets_valid(parts) {
                    Err(CidrFault::Address)
                } else {
                    Ok((address_value(parts), p as nat))
                }
            },
        }
    }
}

/// Size of a block of the given prefix length.
pub open spec fn block_size(prefix: nat) -> nat {
    two_pow((32 - prefix) as nat)
}

/// The network address: the base with its host bits cleared.
pub open spec fn network_of(base: nat, prefix: nat) -> nat {
    base / block_size(prefix) * block_size(prefix)
}

/// The broadcast address: the network with all host bits set.
pub open spec fn broadcast_of(base: nat, prefix: nat) -> nat {
    (network_of(base, prefix) + block_size(prefix) - 1) as nat
}

/// First usable host: the network itself for /31 and /32, else the one after it.
pub open spec fn first_usable(base: nat, prefix: nat) -> int {
    if prefix >= 31 {
        network_of(base, prefix) as int
    } else {
        network_of(base, prefix) + 1int
    }
}

/// Last usable host: the broadcast itself for /31 and /32, else the one before it.
pub open spec fn last_usable(base: nat, prefix: nat) -> int {
    if prefix >= 31 {
        broadcast_of(base, prefix) as int
    } else {
        broadcast_of(base, prefix) - 1
    }
}

/// Dotted-quad text of a 32-bit address.
pub open spec fn ip_text(x: nat) -> Seq<char> {
    dec(x / 16777216) + seq!['.'] + dec((x / 65536) % 256) + seq!['.'] + dec((x / 256) % 256)
        + seq!['.'] + dec(x % 256)
}

/// The usable host addresses of a CIDR block, in ascending order.
pub open spec fn usable_ips(s: Seq<char>) -> Result<Seq<Seq<char>>, CidrFault> {
    match parse_cidr(s) {
        Err(f) => Err(f),
        Ok((base, prefix)) => {
            let a = first_usable(base, prefix);
            let b = last_usable(base, prefix);
            if a > b {
                Err(CidrFault::NoUsable)
            } else {
                Ok(Seq::new((b - a + 1) as nat, |i: int| ip_text((a + i) as nat)))
            }
        },
    }
}

/// Only the network part of a written address matters: two blocks of the
/// same prefix whose addresses agree on the network bits have the same
/// usable addresses.
pub proof fn only_network_part_matters(s1: Seq<char>, s2: Seq<char>, b1: nat, b2: nat, p: nat)
    requires
        parse_cidr(s1) == Ok::<(nat, nat), CidrFault>((b1, p)),
        parse_cidr(s2) == Ok::<(nat, nat), CidrFault>((b2, p)),
        network_of(b1, p) == network_of(b2, p),
    ensures
        usable_ips(s1) == usable_ips(s2),
{
    assert(first_usable(b1, p) == first_usable(b2, p));
    assert(last_usable(b1, p) == last_usable(b2, p));
}

proof fn lemma_two_pow_add(a: nat, b: nat)
    ensures
        two_pow(a + b) == two_pow(a) * two_pow(b),
        two_pow(a) >= 1,
    decreases a,
{
    if a > 0 {
        let a1 = (a - 1) as nat;
        lemma_two_pow_add(a1, b);
        assert((a1 + b) as nat + 1 == a + b);
        lemma_two_pow_step((a1 + b) as nat);
        lemma_two_pow_step(a1);
        assert(two_pow(a + b) == 2 * two_pow((a1 + b) as nat));
        assert(two_pow(a) == 2 * two_pow(a1));
        let x = two_pow(a1);
        let y = two_pow(b);
        assert(2 * (x * y) == (2 * x) * y) by (nonlinear_arith);
    } else {
        assert(two_pow(0) == 1);
        assert(a + b == b);
    }
}

/// For prefixes `p <= q`, the block of `q` around an address lies inside the
/// block of `p` around it.
proof fn lemma_nested_blocks(base: nat, p: nat, q: nat)
    requires
        p <= q <= 32,
    ensures
        network_of(base, p) <= network_of(base, q),
        network_of(base, q) + block_size(q) <= network_of(base, p) + block_size(p),
{
    let sq = block_size(q);
    let k = two_pow((q - p) as nat);
    lemma_two_pow_add((32 - q) as nat, (q - p) as nat);
    assert(((32 - q) as nat + (q - p) as nat) as nat == (32 - p) as nat);
    let sp = block_size(p);
    assert(sp == sq * k);
    lemma_two_pow_add((32 - q) as nat, 0);
    lemma_two_pow_add((q - p) as nat, 0);
    assert(sq >= 1 && k >= 1);
    let m = base / sq;
    vstd::arithmetic::div_mod::lemma_div_denominator(base as int, sq as int, k as int);
    assert(base / sp == m / k);
    let j = m / k;
    vstd::arithmetic::div_mod::lemma_fundamental_div_mod(m as int, k as int);
    assert(m == k * j + m % k);
    assert(0 <= m % k < k) by {
        vstd::arithmetic::div_mod::lemma_mod_pos_bound(m as int, k as int);
    }
    assert(network_of(base, p) == j * sp);
    assert(network_of(base, q) == m * sq);
    assert(j * sp == (k * j) * sq) by (nonlinear_arith)
        requires
            sp == sq * k,
    ;
    assert((k * j) * sq <= m * sq) by (nonlinear_arith)
        requires
            k * j <= m,
            sq >= 1,
    ;
    assert(m * sq + sq <= (k * j) * sq + k * sq) by (nonlinear_arith)
        requires
            m + 1 <= k * j + k,
            sq >= 1,
    ;
    assert(j * sp + sp == (k * j) * sq + k * sq) by (nonlinear_arith)
        requires
            sp == sq * k,
    ;
}

/// A longer prefix never yields an address outside the usable set of a
/// shorter one around the same address (for prefixes up to /30, whose
/// network and broadcast addresses are not usable).
pub proof fn longer_prefix_stays_inside(s1: Seq<char>, s2: Seq<char>, base: nat, p: nat, q: nat)
    requires
        parse_cidr(s1) == Ok::<(nat, nat), CidrFault>((base, p)),
        parse_cidr(s2) == Ok::<(nat, nat), CidrFault>((base, q)),
        p <= q <= 30,
        usable_ips(s1) is Ok,
        usable_ips(s2) is Ok,
    ensures
        forall|x: Seq<char>| usable_ips(s2).unwrap().contains(x) ==> usable_ips(s1).unwrap().contains(x),
{
    lemma_nested_blocks(base, p, q);
    let vp = usable_ips(s1).unwrap();
    let vq = usable_ips(s2).unwrap();
    let ap = first_usable(base, p);
    let aq = first_usable(base, q);
    assert(block_size(q) >= 4 && block_size(p) >= 4) by {
        lemma_two_pow_add(2, (30 - q) as nat);
        lemma_two_pow_add(2, (30 - p) as nat);
        assert(two_pow(2) == 4) by {
            reveal_with_fuel(two_pow, 3);
        }
        lemma_two_pow_step((30 - q) as nat);
        lemma_two_pow_step((30 - p) as nat);
        assert(two_pow((30 - q) as nat) >= 1);
        assert(two_pow((30 - p) as nat) >= 1);
        assert(4 * two_pow((30 - q) as nat) >= 4) by (nonlinear_arith)
            requires
                two_pow((30 - q) as nat) >= 1,
        ;
        assert(4 * two_pow((30 - p) as nat) >= 4) by (nonlinear_arith)
            requires
                two_pow((30 - p) as nat) >= 1,
        ;
        assert((2 + (30 - q) as nat) as nat == (32 - q) as nat);
        assert((2 + (30 - p) as nat) as nat == (32 - p) as nat);
    }
    assert(vq.len() == last_usable(base, q) - aq + 1);
    assert(vp.len() == last_usable(base, p) - ap + 1);
    assert forall|x: Seq<char>| vq.contains(x) implies vp.contains(x) by {
        let i = choose|i: int| 0 <= i < vq.len() && vq[i] == x;
        let j = aq + i - ap;
        assert(vq[i] == ip_text((aq + i) as nat));
        assert(0 <= j < vp.len());
        assert(vp[j] == ip_text((ap + j) as nat));
    }
}

fn cidr_error(f: CidrFault) -> (e: AppError)
    ensures
        e is BadRequest,
        e.msg() == fault_message(f),
{
    match f {
        CidrFault::Shape => bad_request("CIDR must be in the form x.x.x.x/n"),
        CidrFault::Prefix => bad_request("invalid prefix length"),
        CidrFault::PrefixRange => bad_request("prefix length must be 0\u{2013}32"),
        CidrFault::Address => bad_request("invalid IP address in CIDR"),
        CidrFault::NoUsable => bad_request("CIDR has no usable addresses"),
    }
}

fn octet(p: &Vec<char>) -> (r: Option<u64>)
    ensures
        match r {
            Some(v) => octet_ok(p@) && v == octet_value(p@),
            None => !octet_ok(p@),
        },
{
    match parse_u32(p) {
        Some(v) => if v <= 255 {
            Some(v as u64)
        } else {
            None
        },
        None => None,
    }
}

fn parse_cidr_exec(cidr: &str) -> (r: Result<(u64, u64), CidrFault>)
    ensures
        match r {
            Ok((b, p)) => parse_cidr(cidr@) == Ok::<(nat, nat), CidrFault>((b as nat, p as nat)),
            Err(f) => parse_cidr(cidr@) == Err::<(nat, nat), CidrFault>(f),
        },
{
    let s = chars_of(cidr);
    let k = match find_char(&s, '/') {
        None => return Err(CidrFault::Shape),
        Some(k) => k,
    };
    proof {
        lemma_first_index(s@, '/');
    }
    let ip = slice_chars(&s, 0, k);
    let pre = slice_chars(&s, k + 1, s.len());
    assert(ip@ =~= s@.take(k as int));
    assert(pre@ =~= s@.skip(k + 1));
    let p = match parse_u32(&pre) {
        None => return Err(CidrFault::Prefix),
        Some(p) => p,
    };
    if p > 32 {
        return Err(CidrFault::PrefixRange);
    }
    let parts = split_chars(&ip, '.');
    if parts.len() != 4 {
        return Err(CidrFault::Address);
    }
    assert(parts@[0]@ == split_seq(ip@, '.')[0]);
    assert(parts@[1]@ == split_seq(ip@, '.')[1]);
    assert(parts@[2]@ == split_seq(ip@, '.')[2]);
    assert(parts@[3]@ == split_seq(ip@, '.')[3]);
    let o0 = match octet(&parts[0]) { None => return Err(CidrFault::Address), Some(v) => v };
    let o1 = match octet(&parts[1]) { None => return Err(CidrFault::Address), Some(v) => v };
    let o2 = match octet(&parts[2]) { None => return Err(CidrFault::Address), Some(v) => v };
    let o3 = match octet(&parts[3]) { None => return Err(CidrFault::Address), Some(v) => v };
    Ok((o0 * 16777216 + o1 * 65536 + o2 * 256 + o3, p as u64))
}

proof fn lemma_two_pow_step(n: nat)
    ensures
        two_pow(n + 1) == 2 * two_pow(n),
        two_pow(n) >= 1,
    decreases n,
{
    if n > 0 {
        lemma_two_pow_step((n - 1) as nat);
    }
}

proof fn lemma_two_pow_32()
    ensures
        two_pow(32) == 4294967296,
{
    reveal_with_fuel(two_pow, 33);
}

/// `2^h` for `h <= 32`.
fn block_of(h: u64) -> (b: u64)
    requires
        h <= 32,
    ensures
        b == two_pow(h as nat),
        1 <= b <= 4294967296,
{
    let mut b: u64 = 1;
    let mut i: u64 = 0;
    proof {
        lemma_two_pow_32();
    }
    while i < h
        invariant
            i <= h <= 32,
            b == two_pow(i as nat),
            b * two_pow((32 - i) as nat) == 4294967296,
            b >= 1,
        decreases h - i,
    {
        proof {
            lemma_two_pow_step((31 - i) as nat);
            lemma_two_pow_step(i as nat);
            let t = two_pow((31 - i) as nat);
            assert(two_pow((32 - i) as nat) == 2 * t);
            assert((2 * b) * t == 4294967296) by (nonlinear_arith)
                requires
                    b * (2 * t) == 4294967296,
            ;
            assert(2 * b <= 4294967296) by (nonlinear_arith)
                requires
                    (2 * b) * t == 4294967296,
                    t >= 1,
                    b >= 1,
            ;
        }
        b = b * 2;
        i = i + 1;
    }
    proof {
        lemma_two_pow_step(i as nat);
        assert(b <= 4294967296) by (nonlinear_arith)
            requires
                b * two_pow((32 - i) as nat) == 4294967296,
                two_pow((32 - i) as nat) >= 1,
                b >= 1,
        ;
    }
    b
}

/// Dotted-quad text of an address (`format!("{}.{}.{}.{}", ...)`).
pub fn ip_string(x: u64) -> (s: String)
    ensures
        s@ == ip_text(x as nat),
{
    let mut v: Vec<char> = Vec::new();
    push_decimal(&mut v, x / 16777216);
    v.push('.');
    push_decimal(&mut v, (x / 65536) % 256);
    v.push('.');
    push_decimal(&mut v, (x / 256) % 256);
    v.push('.');
    push_decimal(&mut v, x % 256);
    string_of(&v)
}

/// The first and last usable addresses of a parsed block.
fn usable_bounds(base: u64, prefix: u64) -> (r: (u64, u64))
    requires
        base < 4294967296,
        prefix <= 32,
    ensures
        r.0 == first_usable(base as nat, prefix as nat),
        r.1 == last_usable(base as nat, prefix as nat),
        r.1 < 8589934592,
{
    let block = block_of(32 - prefix);
    assert(block == block_size(prefix as nat));
    assert(base / block * block <= base) by (nonlinear_arith)
        requires
            block >= 1,
    ;
    let network = base / block * block;
    let broadcast = network + block - 1;
    if prefix >= 31 {
        (network, broadcast)
    } else {
        (network + 1, broadcast - 1)
    }
}

/// Returns the list of usable host IPs in the CIDR (excludes network and
/// broadcast for /0–/30).
pub fn cidr_usable_ips(cidr: &str) -> (r: Result<Vec<String>, AppError>)
    ensures
        match r {
            Ok(v) => usable_ips(cidr@) is Ok && views(v@) == usable_ips(cidr@).unwrap(),
            Err(e) => usable_ips(cidr@) is Err && e is BadRequest && e.msg() == fault_message(
                usable_ips(cidr@)->Err_0,
            ),
        },
{
    let (base, prefix) = match parse_cidr_exec(cidr) {
        Err(f) => return Err(cidr_error(f)),
        Ok(bp) => bp,
    };
    proof {
        let parts = split_seq(cidr@.take(first_index(cidr@, '/')), '.');
        assert(base as nat == address_value(parts));
        assert(octet_value(parts[0]) <= 255);
        assert(octet_value(parts[1]) <= 255);
        assert(octet_value(parts[2]) <= 255);
        assert(octet_value(parts[3]) <= 255);
    }
    let (a, b) = usable_bounds(base, prefix);
    if a > b {
        return Err(cidr_error(CidrFault::NoUsable));
    }
    let mut ips: Vec<String> = Vec::new();
    let mut x: u64 = a;
    while x <= b
        invariant
            a <= x <= b + 1,
            b < 8589934592,
            ips@.len() == x - a,
            forall|i: int| 0 <= i < ips@.len() ==> #[trigger] ips@[i]@ == ip_text((a + i) as nat),
        decreases b + 1 - x,
    {
        ips.push(ip_string(x));
        x = x + 1;
    }
    let ghost expected = Seq::new((b - a + 1) as nat, |i: int| ip_text((a + i) as nat));
    assert(views(ips@) =~= expected);
    Ok(ips)
}

/// Returns number of usable host addresses in the CIDR (for display only):
/// zero when the CIDR is refused.
pub fn cidr_size(cidr: &str) -> (n: u64)
    ensures
        n == match usable_ips(cidr@) {
            Ok(v) => v.len() as int,
            Err(_) => 0int,
        },
{
    match cidr_usable_ips(cidr) {
        Ok(v) => {
            assert(views(v@).len() == v@.len());
            v.len() as u64
        },
        Err(_) => 0,
    }
}

/// Index of the first address of `u` that `taken` does not hold, or -1.
pub open spec fn first_free(u: Seq<Seq<char>>, taken: Seq<Seq<char>>) -> int
    decreases u.len(),
{
    if u.len() == 0 {
        -1
    } else {
        let r = first_free(u.drop_last(), taken);
        if r >= 0 {
            r
        } else if !taken.contains(u.last()) {
            u.len() - 1
        } else {
            -1
        }
    }
}

proof fn lemma_first_free_is(u: Seq<Seq<char>>, taken: Seq<Seq<char>>, i: int)
    requires
        0 <= i <= u.len(),
        i < u.len() ==> !taken.contains(u[i]),
        forall|j: int| 0 <= j < i ==> taken.contains(#[trigger] u[j]),
    ensures
        first_free(u, taken) == (if i < u.len() { i } else { -1 }),
    decreases u.len(),
{
    if u.len() > 0 {
        let d = u.drop_last();
        if i < u.len() - 1 {
            assert forall|j: int| 0 <= j < i implies taken.contains(#[trigger] d[j]) by {
                assert(d[j] == u[j]);
            }
            lemma_first_free_is(d, taken, i);
        } else {
            assert forall|j: int| 0 <= j < u.len() - 1 implies taken.contains(#[trigger] d[j]) by {
                assert(d[j] == u[j]);
            }
            lemma_first_free_is(d, taken, u.len() - 1);
        }
    }
}

proof fn lemma_first_free_range(u: Seq<Seq<char>>, taken: Seq<Seq<char>>)
    ensures
        -1 <= first_free(u, taken) < u.len(),
        first_free(u, taken) >= 0 ==> !taken.contains(u[first_free(u, taken)]),
    decreases u.len(),
{
    if u.len() > 0 {
        let d = u.drop_last();
        lemma_first_free_range(d, taken);
        if first_free(d, taken) >= 0 {
            assert(u[first_free(d, taken)] == d[first_free(d, taken)]);
        }
    }
}

/// The outcome of an allocation request against a pool: the address it
/// receives, or why it is refused.
pub open spec fn allocation_ok(
    cidr: Seq<char>,
    active: bool,
    taken: Seq<Seq<char>>,
    requested: Option<Seq<char>>,
) -> Option<Seq<char>> {
    if !active {
        None
    } else {
        match usable_ips(cidr) {
            Err(_) => None,
            Ok(u) => match requested {
                Some(q) => if u.contains(q) && !taken.contains(q) {
                    Some(q)
                } else {
                    None
                },
                None => {
                    let i = first_free(u, taken);
                    if i >= 0 {
                        Some(u[i])
                    } else {
                        None
                    }
                },
            },
        }
    }
}

/// An address is handed out once: after the address an allocation gave is
/// recorded as allocated, no later allocation from the pool gives it
/// again, whatever it requests.
pub proof fn allocated_address_not_reissued(
    cidr: Seq<char>,
    active: bool,
    taken: Seq<Seq<char>>,
    requested: Option<Seq<char>>,
    next_request: Option<Seq<char>>,
)
    requires
        allocation_ok(cidr, active, taken, requested) is Some,
    ensures
        allocation_ok(cidr, active, taken.push(allocation_ok(cidr, active, taken, requested).unwrap()), next_request)
            != allocation_ok(cidr, active, taken, requested),
{
    let ip = allocation_ok(cidr, active, taken, requested).unwrap();
    let t2 = taken.push(ip);
    assert(t2.contains(ip)) by {
        assert(t2[taken.len() as int] == ip);
    }
    if usable_ips(cidr) is Ok && next_request is None {
        let u = usable_ips(cidr).unwrap();
        lemma_first_free_range(u, t2);
    }
}

/// Picks the address that `POST /admin/ip-pools/:id/allocate` hands out: the
/// requested one if it lies in the pool and is free, else the lowest free
/// usable address of the pool.
pub fn choose_allocation(
    cidr: &str,
    pool_active: bool,
    taken: &Vec<String>,
    requested: Option<String>,
) -> (r: Result<String, AppError>)
    ensures
        match r {
            Ok(ip) => allocation_ok(cidr@, pool_active, views(taken@), opt_view(requested))
                == Some(ip@),
            Err(e) => allocation_ok(cidr@, pool_active, views(taken@), opt_view(requested))
                is None,
        },
        !pool_active ==> (r matches Err(e) && e is BadRequest && e.msg() == "pool is inactive"@),
        pool_active && usable_ips(cidr@) is Err ==> (r matches Err(e) && e is BadRequest
            && e.msg() == fault_message(usable_ips(cidr@)->Err_0)),
        pool_active && usable_ips(cidr@) is Ok && requested is Some ==> ({
            let q = requested.unwrap()@;
            let u = usable_ips(cidr@).unwrap();
            &&& !u.contains(q) ==> (r matches Err(e) && e is BadRequest && e.msg() == q
                + " is not in pool CIDR "@ + cidr@)
            &&& u.contains(q) && views(taken@).contains(q) ==> (r matches Err(e) && e is Conflict
                && e.msg() == q + " is already allocated"@)
        }),
        pool_active && usable_ips(cidr@) is Ok && requested is None && first_free(
            usable_ips(cidr@).unwrap(),
            views(taken@),
        ) < 0 ==> (r matches Err(e) && e is Conflict && e.msg() == "no available IPs in pool"@),
        // what is handed out lies in the pool and is not taken
        r matches Ok(ip) ==> usable_ips(cidr@) is Ok && usable_ips(cidr@).unwrap().contains(ip@)
            && !views(taken@).contains(ip@),
{
    if !pool_active {
        return Err(bad_request("pool is inactive"));
    }
    let usable = match cidr_usable_ips(cidr) {
        Err(e) => return Err(e),
        Ok(u) => u,
    };
    let ghost u = views(usable@);
    match requested {
        Some(q) => {
            if !contains_string(&usable, &q) {
                return Err(AppError::BadRequest(cat3(q.as_str(), " is not in pool CIDR ", cidr)));
            }
            if contains_string(taken, &q) {
                return Err(AppError::Conflict(cat2(q.as_str(), " is already allocated")));
            }
            Ok(q)
        },
        None => {
            let mut i: usize = 0;
            while i < usable.len()
                invariant
                    i <= usable.len(),
                    u == views(usable@),
                    pool_active,
                    requested is None,
                    usable_ips(cidr@) == Ok::<Seq<Seq<char>>, CidrFault>(u),
                    forall|j: int| 0 <= j < i ==> views(taken@).contains(#[trigger] u[j]),
                decreases usable.len() - i,
            {
                if !contains_string(taken, &usable[i]) {
                    proof {
                        lemma_first_free_is(u, views(taken@), i as int);
                    }
                    return Ok(usable[i].clone());
                }
                i = i + 1;
            }
            proof {
                lemma_first_free_is(u, views(taken@), u.len() as int);
            }
            Err(conflict("no available IPs in pool"))
        },
    }
}

// ── IP pools ────────────────────────────────────────────────────────────────

/// `POST /admin/ip-pools`.
pub struct CreatePoolRequest {
    pub name: String,
    pub cidr: String,
    pub pool_type: Option<String>,
    pub gateway: Option<String>,
    pub description: Option<String>,
}

/// `PUT /admin/ip-pools/:id`.
pub struct UpdatePoolRequest {
    pub name: Option<String>,
    pub gateway: Option<String>,
    pub description: Option<String>,
    pub is_active: Option<bool>,
}

/// `POST /admin/ip-pools/:id/allocate`.
pub struct AllocateRequest {
    pub allocated_to: Option<String>,
    pub purpose: Option<String>,
    /// A specific address instead of the next free one.
    pub ip_address: Option<String>,
}

/// The type of a new pool: `LB` unless given.
pub fn pool_type_or_default(pool_type: &Option<String>) -> (t: String)
    ensures
        t@ == (match *pool_type {
            Some(x) => x@,
            None => "LB"@,
        }),
{
    match pool_type {
        Some(x) => x.clone(),
        None => owned("LB"),
    }
}

/// An IP pool as stored (its editable columns).
pub struct IpPoolRow {
    pub name: String,
    pub gateway: Option<String>,
    pub description: Option<String>,
    pub is_active: i8,
}

/// What an update writes: each given field replaces the stored one.
pub fn ip_pool_update(existing: &IpPoolRow, body: &UpdatePoolRequest) -> (r: IpPoolRow)
    ensures
        r.name@ == (match body.name {
            Some(x) => x@,
            None => existing.name@,
        }),
        opt_view(r.gateway) == (match body.gateway {
            Some(x) => Some(x@),
            None => opt_view(existing.gateway),
        }),
        opt_view(r.description) == (match body.description {
            Some(x) => Some(x@),
            None => opt_view(existing.description),
        }),
        r.is_active == (match body.is_active {
            Some(b) => flag(b),
            None => existing.is_active,
        }),
{
    IpPoolRow {
        name: match &body.name {
            Some(x) => x.clone(),
            None => existing.name.clone(),
        },
        gateway: match &body.gateway {
            Some(x) => Some(x.clone()),
            None => copy_opt(&existing.gateway),
        },
        description: match &body.description {
            Some(x) => Some(x.clone()),
            None => copy_opt(&existing.description),
        },
        is_active: match body.is_active {
            Some(b) => if b {
                1
            } else {
                0
            },
            None => existing.is_active,
        },
    }
}

/// A pool bound to clusters, or holding allocations, cannot be deleted
/// (409); the cluster bindings are checked first.
pub fn check_ip_pool_deletable(bound_clusters: i64, allocations: i64) -> (r: Result<(), AppError>)
    ensures
        r is Ok <==> (bound_clusters <= 0 && allocations <= 0),
        bound_clusters > 0 ==> (r matches Err(e) && e.as_pair() == (ErrKind::Conflict, "pool is bound to "@ + dec(
            bound_clusters as nat,
        ) + " cluster(s); detach them first"@)),
        bound_clusters <= 0 && allocations > 0 ==> (r matches Err(e) && e.as_pair() == (
            ErrKind::Conflict,
            "pool has "@ + dec(allocations as nat) + " active allocations; release them first"@,
        )),
{
    if bound_clusters > 0 {
        let n = decimal_string(bound_clusters as u64);
        return Err(AppError::Conflict(cat3("pool is bound to ", n.as_str(), " cluster(s); detach them first")));
    }
    if allocations > 0 {
        let n = decimal_string(allocations as u64);
        return Err(AppError::Conflict(cat3("pool has ", n.as_str(), " active allocations; release them first")));
    }
    Ok(())
}

/// Releasing an address that the pool does not hold is answered 404.
pub fn check_released(rows_affected: u64, ip: &str, pool_id: &str) -> (r: Result<(), AppError>)
    ensures
        r is Ok <==> rows_affected != 0,
        r matches Err(e) ==> e.as_pair() == (ErrKind::NotFound, ip@ + " not allocated in pool "@ + pool_id@),
{
    if rows_affected == 0 {
        return Err(AppError::NotFound(cat3(ip, " not allocated in pool ", pool_id)));
    }
    Ok(())
}

/// A pool id that does not exist (404).
pub fn ip_pool_not_found(id: &str) -> (e: AppError)
    ensures
        e.as_pair() == (ErrKind::NotFound, "ip pool "@ + id@),
{
    AppError::NotFound(cat2("ip pool ", id))
}

} // verus!
