//! Deterministic derivation of boundary symbols.
//!
//! Every forwarded method, destructor thunk and identity thunk is resolved at
//! static link time through a symbol string.  Both sides of a bridge must
//! derive the identical string for the identical (module identity, interface,
//! member) triple, and two distinct generation sites must never derive the
//! same string.  The derivation is therefore a pure function of the module
//! identity, a per-site disambiguator and the member name, rendered in a
//! length-prefixed form that is provably injective.

use vstd::prelude::*;
use vstd::string::StrSliceExecFns;

verus! {

/// Offset basis of the 64-bit FNV-1a hash.
pub const FNV_OFFSET: u64 = 0xcbf29ce484222325;

/// Prime of the 64-bit FNV-1a hash.
pub const FNV_PRIME: u64 = 0x100000001b3;

/// One FNV-1a folding step: xor the character in, multiply by the prime
/// modulo 2^64.
pub open spec fn hash_step(h: u64, c: char) -> u64 {
    vstd::wrapping::u64_specs::wrapping_mul(h ^ (c as u64), FNV_PRIME)
}

/// The 64-bit FNV-1a hash of a character sequence.
pub open spec fn hash_chars(s: Seq<char>) -> u64
    decreases s.len(),
{
    if s.len() == 0 {
        FNV_OFFSET
    } else {
        hash_step(hash_chars(s.drop_last()), s.last())
    }
}

/// Hashes a string to the stable per-site disambiguator used inside derived
/// symbols.  The hash is a fully specified FNV-1a fold, so both sides of a
/// bridge, built separately from the same metadata, agree on it.
pub fn hash(string: &str) -> (h: u64)
    ensures
        h == hash_chars(string@),
{
    let n = string.unicode_len();
    let mut h: u64 = FNV_OFFSET;
    let mut i: usize = 0;
    while i < n
        invariant
            i <= n,
            n == string@.len(),
            h == hash_chars(string@.subrange(0, i as int)),
        decreases n - i,
    {
        let c = string.get_char(i);
        h = (h ^ (c as u64)).wrapping_mul(FNV_PRIME);
        i = i + 1;
        proof {
            let pre = string@.subrange(0, i as int);
            assert(pre.drop_last() =~= string@.subrange(0, i - 1 as int));
            assert(pre.last() == c);
        }
    }
    proof {
        assert(string@.subrange(0, n as int) =~= string@);
    }
    h
}

/// The character for one hexadecimal digit.
pub open spec fn hex_digit(d: u64) -> char {
    if d == 0 {
        '0'
    } else if d == 1 {
        '1'
    } else if d == 2 {
        '2'
    } else if d == 3 {
        '3'
    } else if d == 4 {
        '4'
    } else if d == 5 {
        '5'
    } else if d == 6 {
        '6'
    } else if d == 7 {
        '7'
    } else if d == 8 {
        '8'
    } else if d == 9 {
        '9'
    } else if d == 10 {
        'a'
    } else if d == 11 {
        'b'
    } else if d == 12 {
        'c'
    } else if d == 13 {
        'd'
    } else if d == 14 {
        'e'
    } else {
        'f'
    }
}

/// The i-th nibble of a 64-bit value, most significant first.
pub open spec fn nibble(n: u64, i: int) -> u64 {
    (n >> (((15 - i) as u64) * 4)) & 0xf
}

/// A 64-bit value rendered as exactly sixteen hexadecimal digits, most
/// significant first.  The fixed width is what makes the symbol rendering
/// decodable, and hence injective.
pub open spec fn hex16(n: u64) -> Seq<char> {
    Seq::new(16, |i: int| hex_digit(nibble(n, i)))
}

/// A string field inside a symbol: an underscore, the field's length as
/// sixteen hex digits, an underscore, then the field itself verbatim.
pub open spec fn enc_str(s: Seq<char>) -> Seq<char> {
    seq!['_'] + hex16(s.len() as u64) + seq!['_'] + s
}

/// A numeric field inside a symbol: an underscore then sixteen hex digits.
pub open spec fn enc_u64(n: u64) -> Seq<char> {
    seq!['_'] + hex16(n)
}

/// The fixed leading marker of every derived symbol.
pub open spec fn sym_prefix() -> Seq<char> {
    seq!['_', '_', 't', 'r', 'a', 'i', 't', '_', 'b', 'r', 'i', 'd', 'g', 'e']
}

/// The mathematical content of a [`Symbol`]: the module identity, the two
/// disambiguators, the bridged interface's name and the member name.
pub struct SymbolView {
    pub scheme: Seq<char>,
    pub package: Seq<char>,
    pub version: Seq<char>,
    pub crate_name: Seq<char>,
    pub package_disambiguator: u64,
    pub trait_name: Seq<char>,
    pub local_disambiguator: u64,
    pub name: Seq<char>,
}

/// The full rendering of a symbol.  Fields are grouped to the right so that
/// the peeling lemmas below can strip them off one at a time.
pub open spec fn symbol_chars(v: SymbolView) -> Seq<char> {
    sym_prefix() + (enc_str(v.scheme) + (enc_str(v.package) + (enc_str(v.version) + (enc_str(
        v.crate_name,
    ) + (enc_u64(v.package_disambiguator) + (enc_str(v.trait_name) + (enc_u64(
        v.local_disambiguator,
    ) + enc_str(v.name))))))))
}

/// Every string field is shorter than 2^64 characters, so its length survives
/// the fixed-width rendering unchanged.  Machine strings always satisfy this.
pub open spec fn sym_wf(v: SymbolView) -> bool {
    &&& v.scheme.len() < 0x1_0000_0000_0000_0000
    &&& v.package.len() < 0x1_0000_0000_0000_0000
    &&& v.version.len() < 0x1_0000_0000_0000_0000
    &&& v.crate_name.len() < 0x1_0000_0000_0000_0000
    &&& v.trait_name.len() < 0x1_0000_0000_0000_0000
    &&& v.name.len() < 0x1_0000_0000_0000_0000
}

/// The identity metadata of the module a generation site lives in, as the
/// surrounding build tooling supplies it.  A missing entry degrades to a
/// placeholder rather than failing generation.
pub struct ModuleIdentity {
    pub package: Option<String>,
    pub version: Option<String>,
    pub crate_name: Option<String>,
    pub manifest_path: Option<String>,
}

/// A metadata field, or the given fallback where the tooling supplied none.
pub open spec fn or_default(o: Option<String>, d: Seq<char>) -> Seq<char> {
    match o {
        Some(s) => s@,
        None => d,
    }
}

/// The symbol derived for a generation site, before a member name is chosen.
pub open spec fn base_symbol(trait_name: Seq<char>, id: ModuleIdentity, site: Seq<char>) -> SymbolView {
    SymbolView {
        scheme: "v0"@,
        package: or_default(id.package, "<unknown>"@),
        version: or_default(id.version, "<unknown>"@),
        crate_name: or_default(id.crate_name, "<unknown>"@),
        package_disambiguator: hash_chars(or_default(id.manifest_path, Seq::empty())),
        trait_name: trait_name,
        local_disambiguator: hash_chars(site),
        name: Seq::empty(),
    }
}

/// A deterministic boundary symbol under construction: module identity,
/// per-site disambiguators, interface name and member name.
pub struct Symbol {
    scheme: String,
    package: String,
    version: String,
    crate_name: String,
    package_disambiguator: u64,
    trait_name: String,
    local_disambiguator: u64,
    name: String,
}

impl View for Symbol {
    type V = SymbolView;

    closed spec fn view(&self) -> SymbolView {
        SymbolView {
            scheme: self.scheme@,
            package: self.package@,
            version: self.version@,
            crate_name: self.crate_name@,
            package_disambiguator: self.package_disambiguator,
            trait_name: self.trait_name@,
            local_disambiguator: self.local_disambiguator,
            name: self.name@,
        }
    }
}

/// An identity field, or the `<unknown>` placeholder where the build tooling
/// supplied none.
fn field_or_unknown(o: &Option<String>) -> (r: String)
    ensures
        r@ == or_default(*o, "<unknown>"@),
{
    match o {
        Some(s) => s.clone(),
        None => "<unknown>".to_owned(),
    }
}

impl Symbol {
    /// Starts a symbol for one generation site: the module identity comes
    /// from the build metadata, the site disambiguator from the hashed
    /// identity of the invocation site itself.
    pub fn new(trait_name: String, identity: &ModuleIdentity, call_site: &str) -> (s: Symbol)
        ensures
            s@ == base_symbol(trait_name@, *identity, call_site@),
    {
        let package_disambiguator = match &identity.manifest_path {
            Some(p) => hash(p.as_str()),
            None => hash(""),
        };
        proof {
            reveal_strlit("");
            assert(""@ =~= Seq::<char>::empty());
        }
        Symbol {
            scheme: "v0".to_owned(),
            package: field_or_unknown(&identity.package),
            version: field_or_unknown(&identity.version),
            crate_name: field_or_unknown(&identity.crate_name),
            package_disambiguator,
            trait_name,
            local_disambiguator: hash(call_site),
            name: String::new(),
        }
    }

    /// Replaces the member name: `drop`, `typeid`, a method name, or a
    /// capability-qualified method name.
    pub fn with_name(&self, name: &str) -> (s: Symbol)
        ensures
            s@ == (SymbolView { name: name@, ..self@ }),
    {
        Symbol {
            scheme: self.scheme.clone(),
            package: self.package.clone(),
            version: self.version.clone(),
            crate_name: self.crate_name.clone(),
            package_disambiguator: self.package_disambiguator,
            trait_name: self.trait_name.clone(),
            local_disambiguator: self.local_disambiguator,
            name: name.to_owned(),
        }
    }

    /// Renders the symbol to its final, link-time string.
    pub fn render(&self) -> (out: String)
        ensures
            out@ == symbol_chars(self@),
    {
        let mut out = "__trait_bridge".to_owned();
        proof {
            reveal_strlit("__trait_bridge");
            assert(out@ =~= sym_prefix());
        }
        append_str_field(&mut out, self.scheme.as_str());
        append_str_field(&mut out, self.package.as_str());
        append_str_field(&mut out, self.version.as_str());
        append_str_field(&mut out, self.crate_name.as_str());
        append_u64_field(&mut out, self.package_disambiguator);
        append_str_field(&mut out, self.trait_name.as_str());
        append_u64_field(&mut out, self.local_disambiguator);
        append_str_field(&mut out, self.name.as_str());
        proof {
            assert(out@ =~= symbol_chars(self@));
        }
        out
    }
}

/// The literal for one hexadecimal digit.
pub(crate) fn hex_digit_str(d: u64) -> (s: &'static str)
    requires
        d < 16,
    ensures
        s@ == seq![hex_digit(d)],
{
    let s = if d == 0 {
        "0"
    } else if d == 1 {
        "1"
    } else if d == 2 {
        "2"
    } else if d == 3 {
        "3"
    } else if d == 4 {
        "4"
    } else if d == 5 {
        "5"
    } else if d == 6 {
        "6"
    } else if d == 7 {
        "7"
    } else if d == 8 {
        "8"
    } else if d == 9 {
        "9"
    } else if d == 10 {
        "a"
    } else if d == 11 {
        "b"
    } else if d == 12 {
        "c"
    } else if d == 13 {
        "d"
    } else if d == 14 {
        "e"
    } else {
        "f"
    };
    proof {
        reveal_strlit("0");
        reveal_strlit("1");
        reveal_strlit("2");
        reveal_strlit("3");
        reveal_strlit("4");
        reveal_strlit("5");
        reveal_strlit("6");
        reveal_strlit("7");
        reveal_strlit("8");
        reveal_strlit("9");
        reveal_strlit("a");
        reveal_strlit("b");
        reveal_strlit("c");
        reveal_strlit("d");
        reveal_strlit("e");
        reveal_strlit("f");
        assert(s@ =~= seq![hex_digit(d)]);
    }
    s
}

/// Appends the sixteen-digit fixed-width rendering of `n`.
fn append_hex16(out: &mut String, n: u64)
    ensures
        final(out)@ == old(out)@ + hex16(n),
{
    let mut i: usize = 0;
    while i < 16
        invariant
            i <= 16,
            out@ == old(out)@ + hex16(n).subrange(0, i as int),
        decreases 16 - i,
    {
        let sh: u64 = (15 - i as u64) * 4;
        let d: u64 = (n >> sh) & 0xf;
        proof {
            assert((n >> sh) & 0xf < 16) by (bit_vector);
            assert(d == nibble(n, i as int));
        }
        out.append(hex_digit_str(d));
        i = i + 1;
        proof {
            assert(hex16(n).subrange(0, i as int) =~= hex16(n).subrange(0, i - 1 as int) + seq![
                hex_digit(nibble(n, i - 1 as int)),
            ]);
        }
    }
    proof {
        assert(hex16(n).subrange(0, 16) =~= hex16(n));
    }
}

/// Appends one length-prefixed string field.
fn append_str_field(out: &mut String, field: &str)
    ensures
        final(out)@ == old(out)@ + enc_str(field@),
{
    let n = field.unicode_len();
    out.append("_");
    append_hex16(out, n as u64);
    out.append("_");
    out.append(field);
    proof {
        reveal_strlit("_");
        assert("_"@ =~= seq!['_']);
        assert(n as u64 == field@.len() as u64);
        assert(out@ =~= old(out)@ + enc_str(field@));
    }
}

/// Distinct digits render as distinct characters.
proof fn lemma_hex_digit_inj(a: u64, b: u64)
    requires
        a < 16,
        b < 16,
        hex_digit(a) == hex_digit(b),
    ensures
        a == b,
{
}

/// The fixed-width hexadecimal rendering is injective.
proof fn lemma_hex16_inj(a: u64, b: u64)
    requires
        hex16(a) == hex16(b),
    ensures
        a == b,
{
    assert forall|i: int| 0 <= i < 16 implies nibble(a, i) == nibble(b, i) by {
        assert(hex16(a)[i] == hex_digit(nibble(a, i)));
        assert(hex16(b)[i] == hex_digit(nibble(b, i)));
        assert(hex16(a)[i] == hex16(b)[i]);
        let sh: u64 = (((15 - i) as u64) * 4) as u64;
        assert((a >> sh) & 0xf < 16) by (bit_vector);
        assert((b >> sh) & 0xf < 16) by (bit_vector);
        assert(nibble(a, i) == (a >> sh) & 0xf);
        assert(nibble(b, i) == (b >> sh) & 0xf);
        lemma_hex_digit_inj(nibble(a, i), nibble(b, i));
    }
    assert(nibble(a, 0) == nibble(b, 0));
    assert(nibble(a, 1) == nibble(b, 1));
    assert(nibble(a, 2) == nibble(b, 2));
    assert(nibble(a, 3) == nibble(b, 3));
    assert(nibble(a, 4) == nibble(b, 4));
    assert(nibble(a, 5) == nibble(b, 5));
    assert(nibble(a, 6) == nibble(b, 6));
    assert(nibble(a, 7) == nibble(b, 7));
    assert(nibble(a, 8) == nibble(b, 8));
    assert(nibble(a, 9) == nibble(b, 9));
    assert(nibble(a, 10) == nibble(b, 10));
    assert(nibble(a, 11) == nibble(b, 11));
    assert(nibble(a, 12) == nibble(b, 12));
    assert(nibble(a, 13) == nibble(b, 13));
    assert(nibble(a, 14) == nibble(b, 14));
    assert(nibble(a, 15) == nibble(b, 15));
    assert(a == b) by (bit_vector)
        requires
            (a >> 60u64) & 0xf == (b >> 60u64) & 0xf,
            (a >> 56u64) & 0xf == (b >> 56u64) & 0xf,
            (a >> 52u64) & 0xf == (b >> 52u64) & 0xf,
            (a >> 48u64) & 0xf == (b >> 48u64) & 0xf,
            (a >> 44u64) & 0xf == (b >> 44u64) & 0xf,
            (a >> 40u64) & 0xf == (b >> 40u64) & 0xf,
            (a >> 36u64) & 0xf == (b >> 36u64) & 0xf,
            (a >> 32u64) & 0xf == (b >> 32u64) & 0xf,
            (a >> 28u64) & 0xf == (b >> 28u64) & 0xf,
            (a >> 24u64) & 0xf == (b >> 24u64) & 0xf,
            (a >> 20u64) & 0xf == (b >> 20u64) & 0xf,
            (a >> 16u64) & 0xf == (b >> 16u64) & 0xf,
            (a >> 12u64) & 0xf == (b >> 12u64) & 0xf,
            (a >> 8u64) & 0xf == (b >> 8u64) & 0xf,
            (a >> 4u64) & 0xf == (b >> 4u64) & 0xf,
            (a >> 0u64) & 0xf == (b >> 0u64) & 0xf,
    ;
}

/// Two equal concatenations with equally long heads have equal heads and
/// equal tails.
proof fn lemma_concat_peel<A>(x1: Seq<A>, y1: Seq<A>, x2: Seq<A>, y2: Seq<A>)
    requires
        x1 + y1 == x2 + y2,
        x1.len() == x2.len(),
    ensures
        x1 == x2,
        y1 == y2,
{
    assert((x1 + y1).len() == x1.len() + y1.len());
    assert((x2 + y2).len() == x2.len() + y2.len());
    assert forall|i: int| 0 <= i < x1.len() implies x1[i] == x2[i] by {
        assert((x1 + y1)[i] == x1[i]);
        assert((x2 + y2)[i] == x2[i]);
    }
    assert(x1 =~= x2);
    assert(y1.len() == y2.len());
    assert forall|i: int| 0 <= i < y1.len() implies y1[i] == y2[i] by {
        assert((x1 + y1)[x1.len() + i] == y1[i]);
        assert((x2 + y2)[x2.len() + i] == y2[i]);
    }
    assert(y1 =~= y2);
}

/// Peels one length-prefixed string field off the front of two equal
/// renderings.
proof fn lemma_enc_str_peel(s1: Seq<char>, r1: Seq<char>, s2: Seq<char>, r2: Seq<char>)
    requires
        s1.len() < 0x1_0000_0000_0000_0000,
        s2.len() < 0x1_0000_0000_0000_0000,
        enc_str(s1) + r1 == enc_str(s2) + r2,
    ensures
        s1 == s2,
        r1 == r2,
{
    let t1 = enc_str(s1) + r1;
    let t2 = enc_str(s2) + r2;
    let h1 = hex16(s1.len() as u64);
    let h2 = hex16(s2.len() as u64);
    assert forall|i: int| 0 <= i < 16 implies h1[i] == h2[i] by {
        assert(t1[i + 1] == h1[i]);
        assert(t2[i + 1] == h2[i]);
    }
    assert(h1 =~= h2);
    lemma_hex16_inj(s1.len() as u64, s2.len() as u64);
    assert(s1.len() == s2.len());
    lemma_concat_peel(enc_str(s1), r1, enc_str(s2), r2);
    assert forall|i: int| 0 <= i < s1.len() implies s1[i] == s2[i] by {
        assert(enc_str(s1)[18 + i] == s1[i]);
        assert(enc_str(s2)[18 + i] == s2[i]);
    }
    assert(s1 =~= s2);
}

/// Peels one numeric field off the front of two equal renderings.
proof fn lemma_enc_u64_peel(a: u64, r1: Seq<char>, b: u64, r2: Seq<char>)
    requires
        enc_u64(a) + r1 == enc_u64(b) + r2,
    ensures
        a == b,
        r1 == r2,
{
    lemma_concat_peel(enc_u64(a), r1, enc_u64(b), r2);
    let h1 = hex16(a);
    let h2 = hex16(b);
    assert forall|i: int| 0 <= i < 16 implies h1[i] == h2[i] by {
        assert(enc_u64(a)[i + 1] == h1[i]);
        assert(enc_u64(b)[i + 1] == h2[i]);
    }
    assert(h1 =~= h2);
    lemma_hex16_inj(a, b);
}

/// The symbol rendering is injective: equal strings can only come from equal
/// module identity, disambiguators, interface name and member name.
proof fn lemma_symbol_chars_inj(v1: SymbolView, v2: SymbolView)
    requires
        sym_wf(v1),
        sym_wf(v2),
        symbol_chars(v1) == symbol_chars(v2),
    ensures
        v1 == v2,
{
    let a1 = enc_str(v1.scheme) + (enc_str(v1.package) + (enc_str(v1.version) + (enc_str(
        v1.crate_name,
    ) + (enc_u64(v1.package_disambiguator) + (enc_str(v1.trait_name) + (enc_u64(
        v1.local_disambiguator,
    ) + enc_str(v1.name)))))));
    let a2 = enc_str(v2.scheme) + (enc_str(v2.package) + (enc_str(v2.version) + (enc_str(
        v2.crate_name,
    ) + (enc_u64(v2.package_disambiguator) + (enc_str(v2.trait_name) + (enc_u64(
        v2.local_disambiguator,
    ) + enc_str(v2.name)))))));
    lemma_concat_peel(sym_prefix(), a1, sym_prefix(), a2);
    let b1 = enc_str(v1.package) + (enc_str(v1.version) + (enc_str(v1.crate_name) + (enc_u64(
        v1.package_disambiguator,
    ) + (enc_str(v1.trait_name) + (enc_u64(v1.local_disambiguator) + enc_str(v1.name))))));
    let b2 = enc_str(v2.package) + (enc_str(v2.version) + (enc_str(v2.crate_name) + (enc_u64(
        v2.package_disambiguator,
    ) + (enc_str(v2.trait_name) + (enc_u64(v2.local_disambiguator) + enc_str(v2.name))))));
    lemma_enc_str_peel(v1.scheme, b1, v2.scheme, b2);
    let c1 = enc_str(v1.version) + (enc_str(v1.crate_name) + (enc_u64(v1.package_disambiguator) + (
    enc_str(v1.trait_name) + (enc_u64(v1.local_disambiguator) + enc_str(v1.name)))));
    let c2 = enc_str(v2.version) + (enc_str(v2.crate_name) + (enc_u64(v2.package_disambiguator) + (
    enc_str(v2.trait_name) + (enc_u64(v2.local_disambiguator) + enc_str(v2.name)))));
    lemma_enc_str_peel(v1.package, c1, v2.package, c2);
    let d1 = enc_str(v1.crate_name) + (enc_u64(v1.package_disambiguator) + (enc_str(v1.trait_name)
        + (enc_u64(v1.local_disambiguator) + enc_str(v1.name))));
    let d2 = enc_str(v2.crate_name) + (enc_u64(v2.package_disambiguator) + (enc_str(v2.trait_name)
        + (enc_u64(v2.local_disambiguator) + enc_str(v2.name))));
    lemma_enc_str_peel(v1.version, d1, v2.version, d2);
    let e1 = enc_u64(v1.package_disambiguator) + (enc_str(v1.trait_name) + (enc_u64(
        v1.local_disambiguator,
    ) + enc_str(v1.name)));
    let e2 = enc_u64(v2.package_disambiguator) + (enc_str(v2.trait_name) + (enc_u64(
        v2.local_disambiguator,
    ) + enc_str(v2.name)));
    lemma_enc_str_peel(v1.crate_name, e1, v2.crate_name, e2);
    let f1 = enc_str(v1.trait_name) + (enc_u64(v1.local_disambiguator) + enc_str(v1.name));
    let f2 = enc_str(v2.trait_name) + (enc_u64(v2.local_disambiguator) + enc_str(v2.name));
    lemma_enc_u64_peel(v1.package_disambiguator, f1, v2.package_disambiguator, f2);
    let g1 = enc_u64(v1.local_disambiguator) + enc_str(v1.name);
    let g2 = enc_u64(v2.local_disambiguator) + enc_str(v2.name);
    lemma_enc_str_peel(v1.trait_name, g1, v2.trait_name, g2);
    lemma_enc_u64_peel(v1.local_disambiguator, enc_str(v1.name), v2.local_disambiguator, enc_str(
        v2.name,
    ));
    lemma_enc_str_peel(v1.name, Seq::empty(), v2.name, Seq::empty());
    assert(enc_str(v1.name) + Seq::<char>::empty() =~= enc_str(v1.name));
    assert(enc_str(v2.name) + Seq::<char>::empty() =~= enc_str(v2.name));
}

/// Uniqueness law over the symbol deriver: two generation sites that differ
/// anywhere — module identity, either disambiguator, interface name or member
/// name — derive distinct symbol strings, without any coordination between
/// the sites.
pub proof fn lemma_symbol_uniqueness(v1: SymbolView, v2: SymbolView)
    requires
        sym_wf(v1),
        sym_wf(v2),
        v1 != v2,
    ensures
        symbol_chars(v1) != symbol_chars(v2),
{
    if symbol_chars(v1) == symbol_chars(v2) {
        lemma_symbol_chars_inj(v1, v2);
    }
}

/// Appends one numeric field.
fn append_u64_field(out: &mut String, n: u64)
    ensures
        final(out)@ == old(out)@ + enc_u64(n),
{
    out.append("_");
    append_hex16(out, n);
    proof {
        reveal_strlit("_");
        assert("_"@ =~= seq!['_']);
        assert(out@ =~= old(out)@ + enc_u64(n));
    }
}

} // verus!
