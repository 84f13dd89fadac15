//! Harness configurations: which implementation of the graphics API runs a shader, on
//! which backend and device, and the textual ids by which configurations are named.
use crate::strings::str_eq;
use vstd::prelude::*;
use vstd::string::{StrSliceExecFns, StringExecFns};

verus! {

/// An implementation of the graphics API.
#[derive(Clone, Copy, Debug, PartialEq, Eq, Structural)]
pub enum Implementation {
    Dawn,
    Wgpu,
}

/// A native graphics backend.
#[derive(Clone, Copy, Debug, PartialEq, Eq, Structural)]
pub enum BackendType {
    Dx12,
    Metal,
    Vulkan,
}

/// A configuration: an implementation on a backend and device.
#[derive(Clone, Copy, Debug, PartialEq, Eq, Structural)]
pub struct ConfigId {
    pub implementation: Implementation,
    pub backend: BackendType,
    pub device_id: usize,
}

/// A device that an implementation offers.
pub struct Adapter {
    pub name: String,
    pub device_id: usize,
    pub backend: BackendType,
}

/// A configuration with the name of its device.
pub struct Config {
    pub id: ConfigId,
    pub adapter_name: String,
}

impl Config {
    /// The configuration of an implementation on one of its adapters.
    pub fn new(imp: Implementation, adapter: Adapter) -> (r: Self)
        ensures
            r.id == (ConfigId { implementation: imp, backend: adapter.backend, device_id: adapter.device_id }),
            r.adapter_name == adapter.name,
    {
        Config {
            id: ConfigId { implementation: imp, backend: adapter.backend, device_id: adapter.device_id },
            adapter_name: adapter.name,
        }
    }
}

/// The positions of the colons of `s`, in order.
pub open spec fn colons(s: Seq<char>) -> Seq<int>
    decreases s.len(),
{
    if s.len() == 0 {
        Seq::empty()
    } else if s.last() == ':' {
        colons(s.drop_last()).push(s.len() - 1)
    } else {
        colons(s.drop_last())
    }
}

/// The `k`-th of the segments into which the colons of `s` split it.
pub open spec fn segment(s: Seq<char>, k: int) -> Seq<char> {
    let cs = colons(s);
    let start = if k == 0 { 0 } else { cs[k - 1] + 1 };
    let end = if k < cs.len() { cs[k] } else { s.len() as int };
    s.subrange(start, end)
}

/// The value of a decimal digit.
pub open spec fn digit_val(c: char) -> Option<nat> {
    if c == '0' {
        Some(0)
    } else if c == '1' {
        Some(1)
    } else if c == '2' {
        Some(2)
    } else if c == '3' {
        Some(3)
    } else if c == '4' {
        Some(4)
    } else if c == '5' {
        Some(5)
    } else if c == '6' {
        Some(6)
    } else if c == '7' {
        Some(7)
    } else if c == '8' {
        Some(8)
    } else if c == '9' {
        Some(9)
    } else {
        None
    }
}

/// Every character of `d` is a decimal digit.
pub open spec fn all_digits(d: Seq<char>) -> bool {
    forall|i: int| 0 <= i < d.len() ==> (#[trigger] digit_val(d[i])) is Some
}

/// The number that a string of decimal digits denotes.
pub open spec fn decimal_value(d: Seq<char>) -> nat
    decreases d.len(),
{
    if d.len() == 0 {
        0
    } else {
        decimal_value(d.drop_last()) * 10 + digit_val(d.last())->0
    }
}

/// The digits of an unsigned integer written with an optional `+` sign.
pub open spec fn unsigned_digits(t: Seq<char>) -> Seq<char> {
    if t.len() > 0 && t[0] == '+' {
        t.drop_first()
    } else {
        t
    }
}

/// An unsigned integer in decimal, with an optional `+` sign, that fits in `usize`.
pub open spec fn spec_parse_usize(t: Seq<char>) -> Option<usize> {
    let d = unsigned_digits(t);
    if d.len() == 0 || !all_digits(d) || decimal_value(d) > usize::MAX {
        None
    } else {
        Some(decimal_value(d) as usize)
    }
}

/// The implementation that a name denotes.
pub open spec fn implementation_named(n: Seq<char>) -> Option<Implementation> {
    if n == "dawn"@ {
        Some(Implementation::Dawn)
    } else if n == "wgpu"@ {
        Some(Implementation::Wgpu)
    } else {
        None
    }
}

/// The backend that a name denotes.
pub open spec fn backend_named(n: Seq<char>) -> Option<BackendType> {
    if n == "dx12"@ {
        Some(BackendType::Dx12)
    } else if n == "mtl"@ {
        Some(BackendType::Metal)
    } else if n == "vk"@ {
        Some(BackendType::Vulkan)
    } else {
        None
    }
}

/// The configuration that an id `implementation:backend:device` denotes, or the error
/// that reading it gives.
pub open spec fn spec_parse_config_id(s: Seq<char>) -> Result<ConfigId, Seq<char>> {
    let cs = colons(s);
    if cs.len() < 1 {
        Err("missing backend segment"@)
    } else if cs.len() < 2 {
        Err("missing device id segment"@)
    } else if cs.len() > 2 {
        Err("unexpected tokens"@)
    } else {
        match implementation_named(segment(s, 0)) {
            None => Err("invalid implementation"@),
            Some(imp) => match backend_named(segment(s, 1)) {
                None => Err("invalid backend"@),
                Some(backend) => match spec_parse_usize(segment(s, 2)) {
                    None => Err("invalid device id"@),
                    Some(device_id) => Ok(ConfigId { implementation: imp, backend, device_id }),
                },
            },
        }
    }
}

/// The value of a prefix of digits is at most that of the whole.
proof fn lemma_decimal_prefix_le(d: Seq<char>, k: int)
    requires
        0 <= k <= d.len(),
    ensures
        decimal_value(d.subrange(0, k)) <= decimal_value(d),
    decreases d.len() - k,
{
    if k < d.len() {
        lemma_decimal_prefix_le(d, k + 1);
        assert(d.subrange(0, k + 1).drop_last() =~= d.subrange(0, k));
    } else {
        assert(d.subrange(0, k) =~= d);
    }
}

fn digit_of(c: char) -> (r: Option<usize>)
    ensures
        match digit_val(c) {
            Some(v) => r == Some(v as usize),
            None => r is None,
        },
{
    if c == '0' {
        Some(0)
    } else if c == '1' {
        Some(1)
    } else if c == '2' {
        Some(2)
    } else if c == '3' {
        Some(3)
    } else if c == '4' {
        Some(4)
    } else if c == '5' {
        Some(5)
    } else if c == '6' {
        Some(6)
    } else if c == '7' {
        Some(7)
    } else if c == '8' {
        Some(8)
    } else if c == '9' {
        Some(9)
    } else {
        None
    }
}

/// Reads an unsigned integer in decimal, with an optional `+` sign.
pub fn parse_usize(t: &str) -> (r: Option<usize>)
    ensures
        r == spec_parse_usize(t@),
{
    let n = t.unicode_len();
    let start: usize = if n > 0 && t.get_char(0) == '+' { 1 } else { 0 };
    let ghost d = unsigned_digits(t@);
    assert(d =~= t@.subrange(start as int, n as int));
    if start == n {
        return None;
    }
    let mut i: usize = start;
    while i < n
        invariant
            start <= i <= n,
            n == t@.len(),
            d =~= t@.subrange(start as int, n as int),
            d == unsigned_digits(t@),
            forall|j: int| 0 <= j < i - start ==> (#[trigger] digit_val(d[j])) is Some,
        decreases n - i,
    {
        if digit_of(t.get_char(i)).is_none() {
            assert(digit_val(d[i - start]) is None);
            assert(!all_digits(d));
            assert(spec_parse_usize(t@) is None);
            return None;
        }
        i = i + 1;
    }
    let mut acc: usize = 0;
    let mut i: usize = start;
    while i < n
        invariant
            start <= i <= n,
            n == t@.len(),
            d =~= t@.subrange(start as int, n as int),
            d == unsigned_digits(t@),
            all_digits(d),
            acc == decimal_value(d.subrange(0, i - start)),
        decreases n - i,
    {
        assert(d.subrange(0, i + 1 - start).drop_last() =~= d.subrange(0, i - start));
        let c = t.get_char(i);
        assert(c == d[i - start]);
        assert(digit_val(d[i - start]) is Some);
        let v = digit_of(c).unwrap();
        proof {
            lemma_decimal_prefix_le(d, i + 1 - start);
            assert(decimal_value(d.subrange(0, i + 1 - start)) == acc * 10 + v);
        }
        match acc.checked_mul(10) {
            None => {
                assert(decimal_value(d) > usize::MAX);
                assert(spec_parse_usize(t@) is None);
                return None;
            },
            Some(m) => match m.checked_add(v) {
                None => {
                    assert(decimal_value(d) > usize::MAX);
                    assert(spec_parse_usize(t@) is None);
                    return None;
                },
                Some(a) => {
                    acc = a;
                },
            },
        }
        i = i + 1;
    }
    assert(d.subrange(0, n - start) =~= d);
    Some(acc)
}


/// The colons of a string lie inside it, in increasing order.
proof fn lemma_colons(s: Seq<char>)
    ensures
        forall|j: int| 0 <= j < colons(s).len() ==> 0 <= #[trigger] colons(s)[j] < s.len(),
        forall|j: int, k: int| 0 <= j < k < colons(s).len() ==> #[trigger] colons(s)[j] < #[trigger] colons(s)[k],
        forall|j: int| 0 <= j < colons(s).len() ==> s[#[trigger] colons(s)[j]] == ':',
    decreases s.len(),
{
    if s.len() > 0 {
        let p = s.drop_last();
        lemma_colons(p);
        let cp = colons(p);
        let c = colons(s);
        assert forall|j: int| 0 <= j < cp.len() implies c[j] == cp[j] && s[cp[j]] == p[cp[j]] by {}
        assert forall|j: int| 0 <= j < c.len() implies 0 <= #[trigger] c[j] < s.len() && s[c[j]] == ':' by {
            if j < cp.len() {
                assert(c[j] == cp[j]);
            }
        }
        assert forall|j: int, k: int| 0 <= j < k < c.len() implies #[trigger] c[j] < #[trigger] c[k] by {
            assert(c[j] == cp[j]);
            if k < cp.len() {
                assert(c[k] == cp[k]);
            }
        }
    }
}

/// Reads a configuration id of the form `implementation:backend:device`, such as
/// `dawn:vk:0`.
pub fn parse_config_id(value: &str) -> (r: Result<ConfigId, &'static str>)
    ensures
        match (r, spec_parse_config_id(value@)) {
            (Ok(a), Ok(b)) => a == b,
            (Err(m), Err(e)) => m@ == e,
            _ => false,
        },
{
    let n = value.unicode_len();
    let mut cs: Vec<usize> = Vec::new();
    let mut i: usize = 0;
    while i < n
        invariant
            i <= n,
            n == value@.len(),
            cs@.len() == colons(value@.subrange(0, i as int)).len(),
            forall|j: int| 0 <= j < cs@.len() ==> cs@[j] == #[trigger] colons(value@.subrange(0, i as int))[j],
        decreases n - i,
    {
        assert(value@.subrange(0, i + 1).drop_last() =~= value@.subrange(0, i as int));
        if value.get_char(i) == ':' {
            cs.push(i);
        }
        i = i + 1;
    }
    assert(value@.subrange(0, n as int) =~= value@);
    proof {
        lemma_colons(value@);
    }
    if cs.len() < 1 {
        return Err("missing backend segment");
    }
    if cs.len() < 2 {
        return Err("missing device id segment");
    }
    if cs.len() > 2 {
        return Err("unexpected tokens");
    }
    assert(colons(value@)[0] < colons(value@)[1]);
    let imp_s = value.substring_char(0, cs[0]);
    let backend_s = value.substring_char(cs[0] + 1, cs[1]);
    let device_s = value.substring_char(cs[1] + 1, n);
    let implementation = if str_eq(imp_s, "dawn") {
        Implementation::Dawn
    } else if str_eq(imp_s, "wgpu") {
        Implementation::Wgpu
    } else {
        return Err("invalid implementation");
    };
    let backend = if str_eq(backend_s, "dx12") {
        BackendType::Dx12
    } else if str_eq(backend_s, "mtl") {
        BackendType::Metal
    } else if str_eq(backend_s, "vk") {
        BackendType::Vulkan
    } else {
        return Err("invalid backend");
    };
    match parse_usize(device_s) {
        Some(device_id) => Ok(ConfigId { implementation, backend, device_id }),
        None => Err("invalid device id"),
    }
}

/// The name of an implementation in a configuration id.
pub open spec fn spec_implementation_name(i: Implementation) -> Seq<char> {
    match i {
        Implementation::Dawn => "dawn"@,
        Implementation::Wgpu => "wgpu"@,
    }
}

/// The name of a backend in a configuration id.
pub open spec fn spec_backend_name(b: BackendType) -> Seq<char> {
    match b {
        BackendType::Dx12 => "dx12"@,
        BackendType::Metal => "mtl"@,
        BackendType::Vulkan => "vk"@,
    }
}

/// The character of a decimal digit.
pub open spec fn digit_char(d: nat) -> char {
    if d == 0 {
        '0'
    } else if d == 1 {
        '1'
    } else if d == 2 {
        '2'
    } else if d == 3 {
        '3'
    } else if d == 4 {
        '4'
    } else if d == 5 {
        '5'
    } else if d == 6 {
        '6'
    } else if d == 7 {
        '7'
    } else if d == 8 {
        '8'
    } else {
        '9'
    }
}

/// The decimal digits of a number, without leading zeros.
pub open spec fn decimal_digits(n: nat) -> Seq<char>
    decreases n,
{
    if n < 10 {
        seq![digit_char(n)]
    } else {
        decimal_digits(n / 10).push(digit_char(n % 10))
    }
}

/// The id of a configuration: `implementation:backend:device`.
pub open spec fn spec_config_id_string(id: ConfigId) -> Seq<char> {
    spec_implementation_name(id.implementation) + ":"@ + spec_backend_name(id.backend) + ":"@ + decimal_digits(
        id.device_id as nat,
    )
}

pub(crate) fn digit_str(d: usize) -> (r: &'static str)
    requires
        d < 10,
    ensures
        r@ == seq![digit_char(d as nat)],
{
    if d == 0 {
        proof {
            reveal_strlit("0");
        }
        "0"
    } else if d == 1 {
        proof {
            reveal_strlit("1");
        }
        "1"
    } else if d == 2 {
        proof {
            reveal_strlit("2");
        }
        "2"
    } else if d == 3 {
        proof {
            reveal_strlit("3");
        }
        "3"
    } else if d == 4 {
        proof {
            reveal_strlit("4");
        }
        "4"
    } else if d == 5 {
        proof {
            reveal_strlit("5");
        }
        "5"
    } else if d == 6 {
        proof {
            reveal_strlit("6");
        }
        "6"
    } else if d == 7 {
        proof {
            reveal_strlit("7");
        }
        "7"
    } else if d == 8 {
        proof {
            reveal_strlit("8");
        }
        "8"
    } else {
        proof {
            reveal_strlit("9");
        }
        "9"
    }
}

/// Appends the decimal digits of `n`.
pub(crate) fn append_decimal(s: &mut String, n: usize)
    ensures
        final(s)@ == old(s)@ + decimal_digits(n as nat),
    decreases n,
{
    if n >= 10 {
        append_decimal(s, n / 10);
    }
    s.append(digit_str(n % 10));
    proof {
        if n >= 10 {
            assert(old(s)@ + decimal_digits(n as nat) =~= old(s)@ + decimal_digits((n / 10) as nat) + seq![
                digit_char((n % 10) as nat),
            ]);
        } else {
            assert(decimal_digits(n as nat) =~= seq![digit_char((n % 10) as nat)]);
        }
    }
}

impl ConfigId {
    /// The id of the configuration, such as `dawn:vk:0`.
    pub fn to_id_string(&self) -> (r: String)
        ensures
            r@ == spec_config_id_string(*self),
    {
        let mut s = String::new();
        match self.implementation {
            Implementation::Dawn => s.append("dawn"),
            Implementation::Wgpu => s.append("wgpu"),
        }
        s.append(":");
        match self.backend {
            BackendType::Dx12 => s.append("dx12"),
            BackendType::Metal => s.append("mtl"),
            BackendType::Vulkan => s.append("vk"),
        }
        s.append(":");
        append_decimal(&mut s, self.device_id);
        s
    }
}


/// The colons of a concatenation are those of each part, the second shifted.
proof fn lemma_colons_concat(a: Seq<char>, b: Seq<char>)
    ensures
        colons(a + b) == colons(a) + colons(b).map_values(|x: int| x + a.len()),
    decreases b.len(),
{
    if b.len() == 0 {
        assert(a + b =~= a);
        assert(colons(b).map_values(|x: int| x + a.len()) =~= Seq::<int>::empty());
        assert(colons(a) + Seq::<int>::empty() =~= colons(a));
    } else {
        assert((a + b).drop_last() =~= a + b.drop_last());
        lemma_colons_concat(a, b.drop_last());
        if b.last() == ':' {
            assert(colons(b).map_values(|x: int| x + a.len()) =~= colons(b.drop_last()).map_values(
                |x: int| x + a.len(),
            ).push(b.len() - 1 + a.len()));
        } else {
            assert(colons(b).map_values(|x: int| x + a.len()) =~= colons(b.drop_last()).map_values(
                |x: int| x + a.len(),
            ));
        }
        assert(colons(a + b) =~= colons(a) + colons(b).map_values(|x: int| x + a.len()));
    }
}

/// A string without colons has none.
proof fn lemma_colons_free(s: Seq<char>)
    requires
        forall|i: int| 0 <= i < s.len() ==> s[i] != ':',
    ensures
        colons(s) == Seq::<int>::empty(),
    decreases s.len(),
{
    if s.len() > 0 {
        lemma_colons_free(s.drop_last());
    }
}

/// A digit character denotes its digit.
proof fn lemma_digit_char(d: nat)
    requires
        d < 10,
    ensures
        digit_val(digit_char(d)) == Some(d),
{
}

/// The decimal digits of a number are digits, at least one, and denote the number.
proof fn lemma_decimal_digits(n: nat)
    ensures
        decimal_digits(n).len() >= 1,
        all_digits(decimal_digits(n)),
        decimal_value(decimal_digits(n)) == n,
        forall|i: int| 0 <= i < decimal_digits(n).len() ==> decimal_digits(n)[i] != ':' && decimal_digits(n)[i] != '+',
    decreases n,
{
    lemma_digit_char(n % 10);
    if n < 10 {
        let d = decimal_digits(n);
        assert(d.drop_last() =~= Seq::<char>::empty());
        assert(decimal_value(d.drop_last()) == 0);
        assert(n % 10 == n);
        assert(d.last() == digit_char(n));
        assert(decimal_value(d) == decimal_value(d.drop_last()) * 10 + digit_val(d.last())->0);
    } else {
        lemma_decimal_digits(n / 10);
        let d = decimal_digits(n);
        assert(d.drop_last() =~= decimal_digits(n / 10));
        assert(n == (n / 10) * 10 + n % 10) by (nonlinear_arith);
        assert(d.last() == digit_char(n % 10));
        assert(decimal_value(d) == decimal_value(d.drop_last()) * 10 + digit_val(d.last())->0);
        assert forall|i: int| 0 <= i < d.len() implies (#[trigger] digit_val(d[i])) is Some by {
            if i < d.len() - 1 {
                assert(d[i] == decimal_digits(n / 10)[i]);
            }
        }
    }
}

/// Reading the id of a configuration gives the configuration back.
pub proof fn law_config_id_roundtrip(id: ConfigId)
    ensures
        spec_parse_config_id(spec_config_id_string(id)) == Ok::<ConfigId, Seq<char>>(id),
{
    reveal_strlit("dawn");
    reveal_strlit("wgpu");
    reveal_strlit("dx12");
    reveal_strlit("mtl");
    reveal_strlit("vk");
    reveal_strlit(":");
    let a = spec_implementation_name(id.implementation);
    let b = spec_backend_name(id.backend);
    let d = decimal_digits(id.device_id as nat);
    let c = ":"@;
    lemma_decimal_digits(id.device_id as nat);
    lemma_colons_free(a);
    lemma_colons_free(b);
    lemma_colons_free(d);
    assert(c.len() == 1);
    assert(c[0] == ':');
    assert(c.drop_last() =~= Seq::<char>::empty());
    assert(c.last() == ':');
    assert(colons(c.drop_last()) == Seq::<int>::empty());
    assert(colons(c) =~= seq![0int]);
    lemma_colons_concat(a, c);
    lemma_colons_concat(a + c, b);
    lemma_colons_concat(a + c + b, c);
    lemma_colons_concat(a + c + b + c, d);
    let s = a + c + b + c + d;
    assert(s == spec_config_id_string(id));
    assert(colons(s) =~= seq![a.len() as int, (a.len() + 1 + b.len()) as int]);
    assert(segment(s, 0) =~= a);
    assert(segment(s, 1) =~= b);
    assert(segment(s, 2) =~= d);
    assert(unsigned_digits(d) == d);
}

impl std::str::FromStr for ConfigId {
    type Err = &'static str;

    /// Reads a configuration id, as `parse_config_id` does.
    fn from_str(s: &str) -> Result<ConfigId, &'static str> {
        parse_config_id(s)
    }
}

} // verus!
