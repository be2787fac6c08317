use vstd::prelude::*;
use macaddr::MacAddr6;

verus! {

/// Bluetooth address. Its text form is six colon-separated pairs of
/// upper-case hexadecimal digits, most significant byte first.
#[derive(Clone, Copy, Debug, Eq, PartialOrd, Ord, Hash)]
pub struct Address(pub [u8; 6]);

impl PartialEq for Address {
    fn eq(&self, other: &Self) -> (r: bool) {
        let r = self.0[0] == other.0[0] && self.0[1] == other.0[1] && self.0[2] == other.0[2]
            && self.0[3] == other.0[3] && self.0[4] == other.0[4] && self.0[5] == other.0[5];
        if r {
            assert(self.0@ =~= other.0@);
        }
        r
    }
}

impl vstd::std_specs::cmp::PartialEqSpecImpl for Address {
    open spec fn obeys_eq_spec() -> bool {
        true
    }

    open spec fn eq_spec(&self, other: &Self) -> bool {
        self.0@ == other.0@
    }
}

impl std::ops::Deref for Address {
    type Target = [u8; 6];

    /// The six bytes of the address.
    fn deref(&self) -> (r: &[u8; 6])
        ensures
            *r == self.0,
    {
        &self.0
    }
}

/// Error for text that is no Bluetooth address; holds the offending field,
/// or the whole text when the field count is wrong.
#[derive(Clone, Debug)]
pub struct InvalidAddressError(pub String);

/// `macaddr::MacAddr6`, a six-byte MAC address, carried opaquely.
#[verifier::external_type_specification]
#[verifier::external_body]
pub struct ExMacAddr6(MacAddr6);

/// The six bytes that a `MacAddr6` holds.
pub uninterp spec fn mac_addr6_octets(m: MacAddr6) -> [u8; 6];

/// The `MacAddr6` that `MacAddr6::from([u8; 6])` builds from six bytes.
pub uninterp spec fn mac_addr6_from_octets(a: [u8; 6]) -> MacAddr6;

/// `MacAddr6::from([u8; 6])`: the address holding exactly these bytes.
#[verifier::external_body]
fn mac_from_octets(a: [u8; 6]) -> (r: MacAddr6)
    ensures
        r == mac_addr6_from_octets(a),
        mac_addr6_octets(r) == a,
{
    MacAddr6::from(a)
}

/// `MacAddr6::into_array`: the six bytes held.
#[verifier::external_body]
fn mac_into_octets(m: MacAddr6) -> (r: [u8; 6])
    ensures
        r == mac_addr6_octets(m),
{
    m.into_array()
}

impl Address {
    pub fn new(addr: [u8; 6]) -> (r: Self)
        ensures
            r.0 == addr,
    {
        Address(addr)
    }

    /// The wildcard address `00:00:00:00:00:00`.
    pub fn any() -> (r: Self)
        ensures
            r.0@ == seq![0u8, 0u8, 0u8, 0u8, 0u8, 0u8],
    {
        let r = Address([0; 6]);
        assert(r.0@ =~= seq![0u8, 0u8, 0u8, 0u8, 0u8, 0u8]);
        r
    }

    /// The six bytes of the address.
    pub fn octets(&self) -> (r: [u8; 6])
        ensures
            r == self.0,
    {
        self.0
    }
}

impl Default for Address {
    fn default() -> (r: Self)
        ensures
            r.0@ == seq![0u8, 0u8, 0u8, 0u8, 0u8, 0u8],
    {
        Address::any()
    }
}

impl From<[u8; 6]> for Address {
    fn from(addr: [u8; 6]) -> (r: Self) {
        Address(addr)
    }
}

impl vstd::std_specs::convert::FromSpecImpl<[u8; 6]> for Address {
    open spec fn obeys_from_spec() -> bool {
        true
    }

    open spec fn from_spec(addr: [u8; 6]) -> Self {
        Address(addr)
    }
}

impl From<Address> for [u8; 6] {
    fn from(addr: Address) -> (r: Self) {
        addr.0
    }
}

impl vstd::std_specs::convert::FromSpecImpl<Address> for [u8; 6] {
    open spec fn obeys_from_spec() -> bool {
        true
    }

    open spec fn from_spec(addr: Address) -> Self {
        addr.0
    }
}

impl From<MacAddr6> for Address {
    fn from(addr: MacAddr6) -> (r: Self) {
        Address(mac_into_octets(addr))
    }
}

impl vstd::std_specs::convert::FromSpecImpl<MacAddr6> for Address {
    open spec fn obeys_from_spec() -> bool {
        true
    }

    open spec fn from_spec(addr: MacAddr6) -> Self {
        Address(mac_addr6_octets(addr))
    }
}

impl From<Address> for MacAddr6 {
    fn from(addr: Address) -> (r: Self) {
        mac_from_octets(addr.0)
    }
}

impl vstd::std_specs::convert::FromSpecImpl<Address> for MacAddr6 {
    open spec fn obeys_from_spec() -> bool {
        true
    }

    open spec fn from_spec(addr: Address) -> Self {
        mac_addr6_from_octets(addr.0)
    }
}

/// Upper-case hexadecimal digit for `d < 16`.
pub open spec fn spec_hex_char(d: u8) -> char {
    if d < 10 {
        (('0' as u8) + d) as char
    } else {
        (('A' as u8) + d - 10) as char
    }
}

/// The two hexadecimal digits of a byte.
pub open spec fn spec_hex2(b: u8) -> Seq<char> {
    seq![spec_hex_char(b / 16), spec_hex_char(b % 16)]
}

/// The text form of six address bytes.
pub open spec fn spec_address_text(a: Seq<u8>) -> Seq<char> {
    spec_hex2(a[0]) + seq![':'] + spec_hex2(a[1]) + seq![':'] + spec_hex2(a[2]) + seq![':']
        + spec_hex2(a[3]) + seq![':'] + spec_hex2(a[4]) + seq![':'] + spec_hex2(a[5])
}

/// Value of a hexadecimal digit in either case.
pub open spec fn spec_hex_digit(c: char) -> Option<nat> {
    if '0' <= c && c <= '9' {
        Some((c as nat - '0' as nat) as nat)
    } else if 'a' <= c && c <= 'f' {
        Some((c as nat - 'a' as nat + 10) as nat)
    } else if 'A' <= c && c <= 'F' {
        Some((c as nat - 'A' as nat + 10) as nat)
    } else {
        None
    }
}

/// Value of a string of hexadecimal digits, if each is one.
pub open spec fn spec_hex_value(digits: Seq<char>) -> Option<nat>
    decreases digits.len(),
{
    if digits.len() == 0 {
        Some(0)
    } else {
        match (spec_hex_value(digits.drop_last()), spec_hex_digit(digits.last())) {
            (Some(v), Some(d)) => Some(v * 16 + d),
            _ => None,
        }
    }
}

/// A byte in hexadecimal as `u8::from_str_radix(_, 16)` reads it: an
/// optional `+`, then at least one hexadecimal digit, of value at most 255.
pub open spec fn spec_parse_hex_u8(f: Seq<char>) -> Option<u8> {
    if f.len() == 0 || (f[0] == '+' && f.len() == 1) {
        None
    } else {
        let digits = if f[0] == '+' { f.drop_first() } else { f };
        match spec_hex_value(digits) {
            Some(v) => if v <= 255 { Some(v as u8) } else { None },
            None => None,
        }
    }
}

/// The fields of `s` between colons.
pub open spec fn spec_split_colon(s: Seq<char>) -> Seq<Seq<char>>
    decreases s.len(),
{
    if s.len() == 0 {
        seq![Seq::empty()]
    } else {
        let fields = spec_split_colon(s.drop_last());
        if s.last() == ':' {
            fields.push(Seq::empty())
        } else {
            fields.update(fields.len() - 1, fields.last().push(s.last()))
        }
    }
}

/// The bytes of all fields, or the first field that is no hexadecimal byte.
pub open spec fn spec_parse_fields(fields: Seq<Seq<char>>) -> Result<Seq<u8>, Seq<char>>
    decreases fields.len(),
{
    if fields.len() == 0 {
        Ok(Seq::empty())
    } else {
        match spec_parse_fields(fields.drop_last()) {
            Err(f) => Err(f),
            Ok(v) => match spec_parse_hex_u8(fields.last()) {
                Some(b) => Ok(v.push(b)),
                None => Err(fields.last()),
            },
        }
    }
}

/// Reading an address: every field must be a hexadecimal byte (else the
/// first bad field is reported), and there must be six of them (else the
/// whole text is reported).
pub open spec fn spec_parse_address(s: Seq<char>) -> Result<Seq<u8>, Seq<char>> {
    match spec_parse_fields(spec_split_colon(s)) {
        Err(f) => Err(f),
        Ok(v) => if v.len() == 6 {
            Ok(v)
        } else {
            Err(s)
        },
    }
}

/// The one-character text of hexadecimal digit `d`.
fn hex_digit_str(d: u8) -> (r: &'static str)
    requires
        d < 16,
    ensures
        r@ =~= seq![spec_hex_char(d)],
{
    match d {
        0 => { let s = "0"; proof { reveal_strlit("0"); } s },
        1 => { let s = "1"; proof { reveal_strlit("1"); } s },
        2 => { let s = "2"; proof { reveal_strlit("2"); } s },
        3 => { let s = "3"; proof { reveal_strlit("3"); } s },
        4 => { let s = "4"; proof { reveal_strlit("4"); } s },
        5 => { let s = "5"; proof { reveal_strlit("5"); } s },
        6 => { let s = "6"; proof { reveal_strlit("6"); } s },
        7 => { let s = "7"; proof { reveal_strlit("7"); } s },
        8 => { let s = "8"; proof { reveal_strlit("8"); } s },
        9 => { let s = "9"; proof { reveal_strlit("9"); } s },
        10 => { let s = "A"; proof { reveal_strlit("A"); } s },
        11 => { let s = "B"; proof { reveal_strlit("B"); } s },
        12 => { let s = "C"; proof { reveal_strlit("C"); } s },
        13 => { let s = "D"; proof { reveal_strlit("D"); } s },
        14 => { let s = "E"; proof { reveal_strlit("E"); } s },
        _ => { let s = "F"; proof { reveal_strlit("F"); } s },
    }
}

/// Appends the two hexadecimal digits of `b`.
fn push_hex2(text: &mut String, b: u8)
    ensures
        final(text)@ == old(text)@ + spec_hex2(b),
{
    text.append(hex_digit_str(b / 16));
    text.append(hex_digit_str(b % 16));
    assert(final(text)@ =~= old(text)@ + spec_hex2(b)) by {
        assert(seq![spec_hex_char(b / 16)] + seq![spec_hex_char(b % 16)] =~= spec_hex2(b));
    }
}

/// Reads the hexadecimal byte in the characters of `s` from `start` up to `end`.
fn parse_hex_field(s: &str, start: usize, end: usize) -> (r: Option<u8>)
    requires
        start <= end <= s@.len(),
    ensures
        r == spec_parse_hex_u8(s@.subrange(start as int, end as int)),
{
    let ghost f = s@.subrange(start as int, end as int);
    if start == end {
        return None;
    }
    let mut j = start;
    if s.get_char(start) == '+' {
        if end - start == 1 {
            return None;
        }
        j = start + 1;
    }
    let ghost digits = if f[0] == '+' { f.drop_first() } else { f };
    let ghost first = j;
    assert(digits =~= s@.subrange(first as int, end as int));
    let mut acc: u32 = 0;
    let mut valid = true;
    while j < end
        invariant
            first <= j <= end <= s@.len(),
            digits == s@.subrange(first as int, end as int),
            valid ==> (spec_hex_value(s@.subrange(first as int, j as int)) matches Some(v) && acc
                == (if v > 255 { 256 } else { v })),
            !valid ==> spec_hex_value(s@.subrange(first as int, j as int)) is None,
            acc <= 256,
        decreases end - j,
    {
        let c = s.get_char(j);
        let ghost pre = s@.subrange(first as int, j as int);
        assert(s@.subrange(first as int, j + 1) =~= pre.push(c));
        assert(s@.subrange(first as int, j + 1).drop_last() =~= pre);
        let d: Option<u32> = if '0' <= c && c <= '9' {
            Some((c as u32) - ('0' as u32))
        } else if 'a' <= c && c <= 'f' {
            Some((c as u32) - ('a' as u32) + 10)
        } else if 'A' <= c && c <= 'F' {
            Some((c as u32) - ('A' as u32) + 10)
        } else {
            None
        };
        assert(d matches Some(x) ==> spec_hex_digit(c) == Some(x as nat));
        assert(d is None ==> spec_hex_digit(c) is None);
        match d {
            Some(x) => {
                if valid {
                    acc = if acc * 16 + x > 255 { 256 } else { acc * 16 + x };
                }
            },
            None => {
                valid = false;
            },
        }
        j = j + 1;
    }
    if valid && acc <= 255 {
        Some(acc as u8)
    } else {
        None
    }
}

impl Address {
    /// The text form, e.g. `"01:23:45:67:89:AB"`.
    pub fn to_string(&self) -> (r: String)
        ensures
            r@ == spec_address_text(self.0@),
    {
        let mut text = String::new();
        push_hex2(&mut text, self.0[0]);
        text.append(":");
        push_hex2(&mut text, self.0[1]);
        text.append(":");
        push_hex2(&mut text, self.0[2]);
        text.append(":");
        push_hex2(&mut text, self.0[3]);
        text.append(":");
        push_hex2(&mut text, self.0[4]);
        text.append(":");
        push_hex2(&mut text, self.0[5]);
        proof {
            reveal_strlit(":");
        }
        assert(text@ =~= spec_address_text(self.0@));
        text
    }

    /// Reads an address from its text form; fields may be in either case,
    /// with or without leading zeros.
    pub fn from_str(s: &str) -> (r: Result<Address, InvalidAddressError>)
        ensures
            match spec_parse_address(s@) {
                Ok(v) => r matches Ok(a) && a.0@ == v,
                Err(f) => r matches Err(e) && e.0@ == f,
            },
    {
        let n = s.unicode_len();
        let mut vals: Vec<u8> = Vec::new();
        let ghost mut done: Seq<Seq<char>> = Seq::empty();
        let mut start: usize = 0;
        let mut i: usize = 0;
        assert(s@.take(0) =~= Seq::<char>::empty());
        while i < n
            invariant
                n == s@.len(),
                start <= i <= n,
                spec_split_colon(s@.take(i as int)) == done.push(
                    s@.subrange(start as int, i as int),
                ),
                spec_parse_fields(done) == Ok::<Seq<u8>, Seq<char>>(vals@),
            decreases n - i,
        {
            let c = s.get_char(i);
            let ghost prefix = s@.take(i as int);
            assert(s@.take(i + 1).drop_last() =~= prefix);
            assert(s@.take(i + 1).last() == c);
            if c == ':' {
                let field = parse_hex_field(s, start, i);
                proof {
                    lemma_parse_fields_push(done, s@.subrange(start as int, i as int));
                }
                match field {
                    Some(b) => {
                        vals.push(b);
                        proof {
                            done = done.push(s@.subrange(start as int, i as int));
                            assert(s@.subrange(i + 1, i + 1) =~= Seq::<char>::empty());
                        }
                        start = i + 1;
                    },
                    None => {
                        proof {
                            lemma_parse_fields_prefix_error(
                                s@,
                                i as int,
                                done,
                                s@.subrange(start as int, i as int),
                            );
                        }
                        return Err(InvalidAddressError(s.substring_char(start, i).to_owned()));
                    },
                }
            } else {
                proof {
                    assert(s@.subrange(start as int, i + 1) =~= s@.subrange(
                        start as int,
                        i as int,
                    ).push(c));
                    let fields = done.push(s@.subrange(start as int, i as int));
                    assert(fields.update(fields.len() - 1, fields.last().push(c)) =~= done.push(
                        s@.subrange(start as int, i + 1),
                    ));
                }
            }
            i = i + 1;
        }
        assert(s@.take(n as int) =~= s@);
        let last = parse_hex_field(s, start, n);
        proof {
            lemma_parse_fields_push(done, s@.subrange(start as int, n as int));
        }
        match last {
            Some(b) => {
                vals.push(b);
                if vals.len() != 6 {
                    return Err(InvalidAddressError(s.to_owned()));
                }
                let a = Address([vals[0], vals[1], vals[2], vals[3], vals[4], vals[5]]);
                assert(a.0@ =~= vals@);
                Ok(a)
            },
            None => Err(InvalidAddressError(s.substring_char(start, n).to_owned())),
        }
    }
}

impl std::str::FromStr for Address {
    type Err = InvalidAddressError;

    fn from_str(s: &str) -> (r: Result<Address, InvalidAddressError>)
        ensures
            match spec_parse_address(s@) {
                Ok(bytes) => r matches Ok(a) && a.0@ == bytes,
                Err(field) => r matches Err(e) && e.0@ == field,
            },
    {
        Address::from_str(s)
    }
}

/// A bad field found before the end of the text is the first bad field of
/// the whole text.
proof fn lemma_parse_fields_prefix_error(s: Seq<char>, i: int, done: Seq<Seq<char>>, f: Seq<char>)
    requires
        0 <= i < s.len(),
        s[i] == ':',
        spec_split_colon(s.take(i)) == done.push(f),
        spec_parse_fields(done.push(f)) == Err::<Seq<u8>, Seq<char>>(f),
    ensures
        spec_parse_address(s) == Err::<Seq<u8>, Seq<char>>(f),
{
    let rest = lemma_split_prefix(s, i + 1);
    assert(s.take(i + 1).drop_last() =~= s.take(i));
    assert(s.take(i + 1).last() == s[i]);
    assert(spec_split_colon(s.take(i + 1)) == done.push(f).push(Seq::empty()));
    assert(done.push(f).push(Seq::empty()).drop_last() =~= done.push(f));
    lemma_parse_fields_error_extends(done.push(f), rest, f);
}

/// The fields of a text start with all complete fields of any prefix; the
/// result is what follows them.
proof fn lemma_split_prefix(s: Seq<char>, k: int) -> (rest: Seq<Seq<char>>)
    requires
        0 <= k <= s.len(),
    ensures
        spec_split_colon(s) == spec_split_colon(s.take(k)).drop_last() + rest,
    decreases s.len() - k,
{
    if k == s.len() {
        assert(s.take(k) =~= s);
        let fields = spec_split_colon(s);
        lemma_split_nonempty(s);
        assert(fields =~= fields.drop_last() + seq![fields.last()]);
        seq![fields.last()]
    } else {
        let rest1 = lemma_split_prefix(s, k + 1);
        assert(s.take(k + 1).drop_last() =~= s.take(k));
        assert(s.take(k + 1).last() == s[k]);
        let prev = spec_split_colon(s.take(k));
        lemma_split_nonempty(s.take(k));
        if s[k] == ':' {
            assert(spec_split_colon(s.take(k + 1)).drop_last() =~= prev);
            assert(spec_split_colon(s) =~= prev.drop_last() + (seq![prev.last()] + rest1));
            seq![prev.last()] + rest1
        } else {
            let upd = prev.update(prev.len() - 1, prev.last().push(s[k]));
            assert(upd.drop_last() =~= prev.drop_last());
            assert(spec_split_colon(s) =~= prev.drop_last() + rest1);
            rest1
        }
    }
}

proof fn lemma_split_nonempty(s: Seq<char>)
    ensures
        spec_split_colon(s).len() >= 1,
    decreases s.len(),
{
    if s.len() > 0 {
        lemma_split_nonempty(s.drop_last());
    }
}

/// An error in leading fields stays the error when more fields follow.
proof fn lemma_parse_fields_error_extends(fs: Seq<Seq<char>>, rest: Seq<Seq<char>>, f: Seq<char>)
    requires
        spec_parse_fields(fs) == Err::<Seq<u8>, Seq<char>>(f),
    ensures
        spec_parse_fields(fs + rest) == Err::<Seq<u8>, Seq<char>>(f),
    decreases rest.len(),
{
    if rest.len() == 0 {
        assert(fs + rest =~= fs);
    } else {
        lemma_parse_fields_error_extends(fs, rest.drop_last(), f);
        assert((fs + rest).drop_last() =~= fs + rest.drop_last());
    }
}

/// How the fields of `s` come out when `f`, a field without colons, is
/// appended after a colon.
proof fn lemma_split_append_field(p: Seq<char>, f: Seq<char>)
    requires
        forall|i: int| 0 <= i < f.len() ==> f[i] != ':',
    ensures
        spec_split_colon(p + seq![':'] + f) == spec_split_colon(p).push(f),
    decreases f.len(),
{
    let whole = p + seq![':'] + f;
    if f.len() == 0 {
        assert(whole.drop_last() =~= p);
        assert(whole.last() == ':');
        assert(f =~= Seq::<char>::empty());
    } else {
        let g = f.drop_last();
        assert forall|i: int| 0 <= i < g.len() implies g[i] != ':' by {
            assert(g[i] == f[i]);
        }
        lemma_split_append_field(p, g);
        assert(whole.drop_last() =~= p + seq![':'] + g);
        assert(whole.last() == f[f.len() - 1]);
        assert(f[f.len() - 1] != ':');
        let fields = spec_split_colon(p + seq![':'] + g);
        assert(fields == spec_split_colon(p).push(g));
        assert(g.push(f.last()) =~= f);
        assert(fields.update(fields.len() - 1, fields.last().push(whole.last()))
            =~= spec_split_colon(p).push(f));
    }
}

/// A colon-free text is a single field.
proof fn lemma_split_single_field(f: Seq<char>)
    requires
        forall|i: int| 0 <= i < f.len() ==> f[i] != ':',
    ensures
        spec_split_colon(f) == seq![f],
    decreases f.len(),
{
    if f.len() == 0 {
        assert(f =~= Seq::<char>::empty());
        assert(spec_split_colon(f) =~= seq![Seq::<char>::empty()]);
    } else {
        let g = f.drop_last();
        assert forall|i: int| 0 <= i < g.len() implies g[i] != ':' by {
            assert(g[i] == f[i]);
        }
        lemma_split_single_field(g);
        assert(f[f.len() - 1] != ':');
        assert(g.push(f.last()) =~= f);
        assert(seq![g].update(0, g.push(f.last())) =~= seq![f]);
    }
}

/// Reading one more field extends the bytes read, or reports that field.
proof fn lemma_parse_fields_push(fs: Seq<Seq<char>>, f: Seq<char>)
    ensures
        spec_parse_fields(fs.push(f)) == match spec_parse_fields(fs) {
            Err(e) => Err(e),
            Ok(v) => match spec_parse_hex_u8(f) {
                Some(b) => Ok(v.push(b)),
                None => Err(f),
            },
        },
{
    assert(fs.push(f).drop_last() =~= fs);
}

proof fn lemma_hex_char_digit(d: u8)
    requires
        d < 16,
    ensures
        spec_hex_digit(spec_hex_char(d)) == Some(d as nat),
        spec_hex_char(d) != ':',
        spec_hex_char(d) != '+',
{
}

/// The two digits of a byte read back as that byte.
proof fn lemma_hex2_parses(b: u8)
    ensures
        spec_parse_hex_u8(spec_hex2(b)) == Some(b),
        forall|i: int| 0 <= i < spec_hex2(b).len() ==> spec_hex2(b)[i] != ':',
{
    let h = spec_hex2(b);
    let hi = spec_hex_char(b / 16);
    let lo = spec_hex_char(b % 16);
    lemma_hex_char_digit(b / 16);
    lemma_hex_char_digit(b % 16);
    let s1 = h.drop_last();
    assert(s1 =~= seq![hi]);
    assert(s1.drop_last() =~= Seq::<char>::empty());
    assert(spec_hex_value(s1.drop_last()) == Some(0nat));
    assert(s1.last() == hi);
    assert(spec_hex_value(s1) == Some((b / 16) as nat));
    assert(h.last() == lo);
    assert(spec_hex_value(h) == Some(((b / 16) * 16 + b % 16) as nat));
    assert(h[0] == hi);
}

/// The text of an address reads back as that address.
pub proof fn law_address_text_roundtrip(a: Address)
    ensures
        spec_parse_address(spec_address_text(a.0@)) == Ok::<Seq<u8>, Seq<char>>(a.0@),
{
    let b = a.0@;
    let h0 = spec_hex2(b[0]);
    let h1 = spec_hex2(b[1]);
    let h2 = spec_hex2(b[2]);
    let h3 = spec_hex2(b[3]);
    let h4 = spec_hex2(b[4]);
    let h5 = spec_hex2(b[5]);
    lemma_hex2_parses(b[0]);
    lemma_hex2_parses(b[1]);
    lemma_hex2_parses(b[2]);
    lemma_hex2_parses(b[3]);
    lemma_hex2_parses(b[4]);
    lemma_hex2_parses(b[5]);
    let c = seq![':'];
    let t1 = h0 + c + h1;
    let t2 = t1 + c + h2;
    let t3 = t2 + c + h3;
    let t4 = t3 + c + h4;
    let t5 = t4 + c + h5;
    lemma_split_single_field(h0);
    lemma_split_append_field(h0, h1);
    lemma_split_append_field(t1, h2);
    lemma_split_append_field(t2, h3);
    lemma_split_append_field(t3, h4);
    lemma_split_append_field(t4, h5);
    assert(t5 =~= spec_address_text(b));
    let e = Seq::<Seq<char>>::empty();
    let f0 = e.push(h0);
    let f1 = f0.push(h1);
    let f2 = f1.push(h2);
    let f3 = f2.push(h3);
    let f4 = f3.push(h4);
    let f5 = f4.push(h5);
    assert(f0 =~= seq![h0]);
    assert(spec_split_colon(t5) == f5);
    lemma_parse_fields_push(e, h0);
    lemma_parse_fields_push(f0, h1);
    lemma_parse_fields_push(f1, h2);
    lemma_parse_fields_push(f2, h3);
    lemma_parse_fields_push(f3, h4);
    lemma_parse_fields_push(f4, h5);
    let v = Seq::<u8>::empty().push(b[0]).push(b[1]).push(b[2]).push(b[3]).push(b[4]).push(b[5]);
    assert(spec_parse_fields(f5) == Ok::<Seq<u8>, Seq<char>>(v));
    assert(v =~= b);
}

} // verus!
