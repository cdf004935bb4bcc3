//! The form-encoded parameter lists that ResourceSpace API calls carry, and
//! the query string they are sent as.

use vstd::prelude::*;
use vstd::utf8::{decode_utf8, encode_utf8, encode_utf8_decode_utf8, is_ascii_chars, is_ascii_chars_encode_utf8};

use crate::text::{lemma_dec_all_digits, lemma_digits_value_dec, push_char, push_str, spec_dec, spec_dec_int, spec_join, u64_to_dec, i64_to_dec};

verus! {

/// The view of one parameter: its key and its value.
pub type ParamView = (Seq<char>, Seq<char>);

/// A value that is sent as the text of one query parameter.
pub trait WireValue {
    /// The text the value is sent as.
    spec fn wire(&self) -> Seq<char>;

    /// Writes the text the value is sent as.
    fn to_wire(&self) -> (r: String)
        ensures
            r@ == self.wire(),
    ;
}

impl WireValue for u8 {
    open spec fn wire(&self) -> Seq<char> {
        spec_dec(*self as nat)
    }

    fn to_wire(&self) -> (r: String) {
        u64_to_dec(*self as u64)
    }
}

impl WireValue for u16 {
    open spec fn wire(&self) -> Seq<char> {
        spec_dec(*self as nat)
    }

    fn to_wire(&self) -> (r: String) {
        u64_to_dec(*self as u64)
    }
}

impl WireValue for u32 {
    open spec fn wire(&self) -> Seq<char> {
        spec_dec(*self as nat)
    }

    fn to_wire(&self) -> (r: String) {
        u64_to_dec(*self as u64)
    }
}

impl WireValue for u64 {
    open spec fn wire(&self) -> Seq<char> {
        spec_dec(*self as nat)
    }

    fn to_wire(&self) -> (r: String) {
        u64_to_dec(*self)
    }
}

impl WireValue for i8 {
    open spec fn wire(&self) -> Seq<char> {
        spec_dec_int(*self as int)
    }

    fn to_wire(&self) -> (r: String) {
        i64_to_dec(*self as i64)
    }
}

impl WireValue for i16 {
    open spec fn wire(&self) -> Seq<char> {
        spec_dec_int(*self as int)
    }

    fn to_wire(&self) -> (r: String) {
        i64_to_dec(*self as i64)
    }
}

impl WireValue for i32 {
    open spec fn wire(&self) -> Seq<char> {
        spec_dec_int(*self as int)
    }

    fn to_wire(&self) -> (r: String) {
        i64_to_dec(*self as i64)
    }
}

/// A plain `bool` goes out as `true` or `false`.
impl WireValue for bool {
    open spec fn wire(&self) -> Seq<char> {
        bool_word(*self)
    }

    fn to_wire(&self) -> (r: String) {
        if *self {
            String::from_str("true")
        } else {
            String::from_str("false")
        }
    }
}

impl WireValue for String {
    open spec fn wire(&self) -> Seq<char> {
        self@
    }

    fn to_wire(&self) -> (r: String) {
        self.clone()
    }
}

/// `true` or `false`, as a `bool` serializes.
pub open spec fn bool_word(b: bool) -> Seq<char> {
    if b {
        "true"@
    } else {
        "false"@
    }
}

/// `1` or `0`: ResourceSpace reads its boolean switches as integers.
pub open spec fn bool_digit(b: bool) -> Seq<char> {
    if b {
        "1"@
    } else {
        "0"@
    }
}

/// Writes a boolean switch as `1` or `0`.
pub fn bool_digit_exec(b: bool) -> (r: String)
    ensures
        r@ == bool_digit(b),
{
    if b {
        String::from_str("1")
    } else {
        String::from_str("0")
    }
}

/// The text of an optional value, if present.
pub open spec fn opt_wire<T: WireValue>(o: Option<T>) -> Option<Seq<char>> {
    match o {
        Some(v) => Some(v.wire()),
        None => None,
    }
}

/// The text of an optional switch (`1`/`0`), if present.
pub open spec fn opt_flag(o: Option<bool>) -> Option<Seq<char>> {
    match o {
        Some(b) => Some(bool_digit(b)),
        None => None,
    }
}

/// A single parameter.
pub open spec fn param(key: Seq<char>, value: Seq<char>) -> Seq<ParamView> {
    seq![(key, value)]
}

/// A parameter that is left out when it has no value.
pub open spec fn opt_param(key: Seq<char>, value: Option<Seq<char>>) -> Seq<ParamView> {
    match value {
        Some(v) => seq![(key, v)],
        None => Seq::empty(),
    }
}

/// An ordered list of `key=value` parameters, in the order they are sent.
#[derive(Clone, Debug, PartialEq)]
pub struct Params {
    pub entries: Vec<(String, String)>,
}

impl View for Params {
    type V = Seq<ParamView>;

    open spec fn view(&self) -> Seq<ParamView> {
        self.entries@.map_values(|e: (String, String)| (e.0@, e.1@))
    }
}

impl Params {
    /// An empty list.
    pub fn new() -> (r: Params)
        ensures
            r@ == Seq::<ParamView>::empty(),
    {
        let r = Params { entries: Vec::new() };
        assert(r@ =~= Seq::<ParamView>::empty());
        r
    }

    /// A copy of the list.
    pub fn copy(&self) -> (r: Params)
        ensures
            r@ == self@,
    {
        let mut r = Params::new();
        let n = self.len();
        let mut i: usize = 0;
        while i < n
            invariant
                i <= n,
                n == self@.len(),
                r@ =~= self@.take(i as int),
            decreases n - i,
        {
            let (k, v) = self.get(i);
            r.push_text(k, v.to_owned());
            assert(self@.take(i + 1) =~= self@.take(i as int).push(self@[i as int]));
            i = i + 1;
        }
        assert(self@.take(n as int) =~= self@);
        r
    }

    /// The number of parameters.
    pub fn len(&self) -> (r: usize)
        ensures
            r == self@.len(),
    {
        self.entries.len()
    }

    /// The key and value of the `i`-th parameter.
    pub fn get(&self, i: usize) -> (r: (&str, &str))
        requires
            i < self@.len(),
        ensures
            r.0@ == self@[i as int].0,
            r.1@ == self@[i as int].1,
    {
        let e = &self.entries[i];
        (e.0.as_str(), e.1.as_str())
    }

    /// Appends `key=value`, where the value is already text.
    pub fn push_text(&mut self, key: &str, value: String)
        ensures
            final(self)@ == old(self)@.push((key@, value@)),
    {
        let k = String::from_str(key);
        self.entries.push((k, value));
        assert(self@ =~= old(self)@.push((key@, value@)));
    }

    /// Appends `key=value`.
    pub fn push<T: WireValue>(&mut self, key: &str, value: &T)
        ensures
            final(self)@ == old(self)@ + param(key@, value.wire()),
    {
        let v = value.to_wire();
        self.push_text(key, v);
        assert(self@ =~= old(self)@ + param(key@, value.wire()));
    }

    /// Appends `key=value` when the value is present.
    pub fn push_opt<T: WireValue>(&mut self, key: &str, value: &Option<T>)
        ensures
            final(self)@ == old(self)@ + opt_param(key@, opt_wire(*value)),
    {
        match value {
            Some(v) => self.push(key, v),
            None => {
                assert(self@ =~= old(self)@ + opt_param(key@, opt_wire(*value)));
            },
        }
    }

    /// Appends a switch as `key=1` or `key=0`.
    pub fn push_flag(&mut self, key: &str, value: bool)
        ensures
            final(self)@ == old(self)@ + param(key@, bool_digit(value)),
    {
        let v = bool_digit_exec(value);
        self.push_text(key, v);
        assert(self@ =~= old(self)@ + param(key@, bool_digit(value)));
    }

    /// Appends a switch as `key=1` or `key=0` when it is set.
    pub fn push_opt_flag(&mut self, key: &str, value: Option<bool>)
        ensures
            final(self)@ == old(self)@ + opt_param(key@, opt_flag(value)),
    {
        match value {
            Some(b) => self.push_flag(key, b),
            None => {
                assert(self@ =~= old(self)@ + opt_param(key@, opt_flag(value)));
            },
        }
    }
}

/// The key of the `i`-th item of a sequence parameter: `key[i]`.
pub open spec fn indexed_key(key: Seq<char>, i: nat) -> Seq<char> {
    key + seq!['['] + spec_dec(i) + seq![']']
}

/// A byte string sent as a sequence: one `key[i]=byte` parameter per byte,
/// in order, or a single `key=` with an empty value when there are none.
pub open spec fn byte_params(key: Seq<char>, bytes: Seq<u8>) -> Seq<ParamView> {
    if bytes.len() == 0 {
        seq![(key, Seq::<char>::empty())]
    } else {
        Seq::new(bytes.len(), |i: int| (indexed_key(key, i as nat), spec_dec(bytes[i] as nat)))
    }
}

/// Appends the parameters of a byte string sent as a sequence.
pub fn push_bytes(p: &mut Params, key: &str, bytes: &Vec<u8>)
    ensures
        final(p)@ == old(p)@ + byte_params(key@, bytes@),
{
    let n = bytes.len();
    if n == 0 {
        p.push_text(key, String::new());
        assert(p@ =~= old(p)@ + byte_params(key@, bytes@));
        return;
    }
    let ghost start = p@;
    let mut i: usize = 0;
    while i < n
        invariant
            i <= n,
            n == bytes@.len(),
            n > 0,
            p@ =~= start + byte_params(key@, bytes@).take(i as int),
        decreases n - i,
    {
        let mut k = String::new();
        push_str(&mut k, key);
        push_char(&mut k, '[');
        let d = u64_to_dec(i as u64);
        push_str(&mut k, d.as_str());
        push_char(&mut k, ']');
        assert(k@ =~= indexed_key(key@, i as nat));
        let v = u64_to_dec(bytes[i] as u64);
        p.push_text(k.as_str(), v);
        assert(byte_params(key@, bytes@).take(i + 1) =~= byte_params(key@, bytes@).take(
            i as int,
        ).push((indexed_key(key@, i as nat), spec_dec(bytes@[i as int] as nat))));
        i = i + 1;
    }
    assert(byte_params(key@, bytes@).take(n as int) =~= byte_params(key@, bytes@));
}

// ---------------------------------------------------------------------------
// Form encoding
// ---------------------------------------------------------------------------

/// The characters `application/x-www-form-urlencoded` leaves as they are:
/// ASCII letters and digits, `*`, `-`, `.` and `_`.
pub open spec fn form_safe(c: char) -> bool {
    ||| 'a' <= c && c <= 'z'
    ||| 'A' <= c && c <= 'Z'
    ||| '0' <= c && c <= '9'
    ||| c == '*'
    ||| c == '-'
    ||| c == '.'
    ||| c == '_'
}

/// An upper-case hexadecimal digit.
pub open spec fn hex_upper(d: nat) -> char {
    if d < 10 {
        ((d + 48) as u32) as char
    } else {
        ((d + 55) as u32) as char
    }
}

/// Each byte written as `%` and two upper-case hexadecimal digits.
pub open spec fn pct_bytes(bs: Seq<u8>) -> Seq<char>
    decreases bs.len(),
{
    if bs.len() == 0 {
        Seq::empty()
    } else {
        pct_bytes(bs.drop_last()) + seq![
            '%',
            hex_upper((bs.last() / 16) as nat),
            hex_upper((bs.last() % 16) as nat),
        ]
    }
}

/// How one character of a key or value is written in the query.
pub open spec fn form_encode_char(c: char) -> Seq<char> {
    if form_safe(c) {
        seq![c]
    } else {
        pct_bytes(encode_utf8(seq![c]))
    }
}

/// The form encoding of a key or value: safe characters as they are, every
/// other character as the `%XX` escapes of its UTF-8 bytes.
pub open spec fn form_encode(s: Seq<char>) -> Seq<char>
    decreases s.len(),
{
    if s.len() == 0 {
        Seq::empty()
    } else {
        form_encode(s.drop_last()) + form_encode_char(s.last())
    }
}

/// One parameter as it appears in the query: `key=value`, both encoded.
pub open spec fn query_pair(p: ParamView) -> Seq<char> {
    form_encode(p.0) + seq!['='] + form_encode(p.1)
}

/// The query string of a parameter list: its pairs joined with `&`.
pub open spec fn spec_query(ps: Seq<ParamView>) -> Seq<char> {
    spec_join(ps.map_values(|p: ParamView| query_pair(p)), seq!['&'])
}

/// Encodes one `key=value` pair with `serde_qs` in form-encoding mode.
///
/// `serde_qs::Config::serialize_string` is handed a one-entry map; its
/// source (`ser/encode.rs`, `FORM_URLENCODED_SET`) leaves ASCII letters,
/// digits and `*-._` as they are and writes every other byte of the UTF-8
/// text as `%` and two upper-case hex digits, for keys and values alike.
/// Serializing a map of strings has no failing path there.
#[verifier::external_body]
fn qs_pair(key: &str, value: &str) -> (r: String)
    ensures
        r@ == query_pair((key@, value@)),
{
    let mut m = std::collections::BTreeMap::new();
    m.insert(key, value);
    match serde_qs::Config::new().use_form_encoding(true).serialize_string(&m) {
        Ok(s) => s,
        Err(_) => String::new(),
    }
}

/// Writes the query string of `ps`.
pub fn encode_query(ps: &Params) -> (r: String)
    ensures
        r@ == spec_query(ps@),
{
    let mut out = String::new();
    let n = ps.len();
    let mut i: usize = 0;
    while i < n
        invariant
            i <= n,
            n == ps@.len(),
            out@ == spec_query(ps@.take(i as int)),
        decreases n - i,
    {
        let (k, v) = ps.get(i);
        let pair = qs_pair(k, v);
        let ghost prev = ps@.take(i as int).map_values(|p: ParamView| query_pair(p));
        let ghost next = ps@.take(i + 1).map_values(|p: ParamView| query_pair(p));
        assert(next.drop_last() =~= prev);
        assert(next.last() == query_pair(ps@[i as int]));
        if i > 0 {
            push_char(&mut out, '&');
        } else {
            assert(next =~= seq![query_pair(ps@[0])]);
        }
        push_str(&mut out, pair.as_str());
        assert(out@ =~= spec_query(ps@.take(i + 1)));
        i = i + 1;
    }
    assert(ps@.take(n as int) =~= ps@);
    out
}

/// The characters an encoded key or value can hold: safe characters, `%`
/// and hexadecimal digits.
pub open spec fn encoded_char(c: char) -> bool {
    form_safe(c) || c == '%'
}

proof fn lemma_hex_upper_safe(d: nat)
    requires
        d < 16,
    ensures
        form_safe(hex_upper(d)),
{
}

proof fn lemma_pct_bytes_encoded(bs: Seq<u8>)
    ensures
        forall|i: int| 0 <= i < pct_bytes(bs).len() ==> encoded_char(#[trigger] pct_bytes(bs)[i]),
    decreases bs.len(),
{
    if bs.len() > 0 {
        lemma_pct_bytes_encoded(bs.drop_last());
        lemma_hex_upper_safe((bs.last() / 16) as nat);
        lemma_hex_upper_safe((bs.last() % 16) as nat);
        let a = pct_bytes(bs.drop_last());
        let b = seq![
            '%',
            hex_upper((bs.last() / 16) as nat),
            hex_upper((bs.last() % 16) as nat),
        ];
        assert forall|i: int| 0 <= i < pct_bytes(bs).len() implies encoded_char(
            #[trigger] pct_bytes(bs)[i],
        ) by {
            if i < a.len() {
                assert(pct_bytes(bs)[i] == a[i]);
            } else {
                assert(pct_bytes(bs)[i] == b[i - a.len()]);
            }
        }
    }
}

/// Form encoding leaves no `&`, `=` or space in a key or value: whatever a
/// parameter holds, it stays one `key=value` pair of the query.
pub proof fn lemma_form_encode_separators(s: Seq<char>)
    ensures
        forall|i: int| 0 <= i < form_encode(s).len() ==> encoded_char(#[trigger] form_encode(s)[i]),
        !form_encode(s).contains('&'),
        !form_encode(s).contains('='),
        !form_encode(s).contains(' '),
    decreases s.len(),
{
    if s.len() > 0 {
        lemma_form_encode_separators(s.drop_last());
        let c = s.last();
        lemma_pct_bytes_encoded(encode_utf8(seq![c]));
        let a = form_encode(s.drop_last());
        let b = form_encode_char(c);
        assert forall|i: int| 0 <= i < form_encode(s).len() implies encoded_char(
            #[trigger] form_encode(s)[i],
        ) by {
            if i < a.len() {
                assert(form_encode(s)[i] == a[i]);
            } else {
                assert(form_encode(s)[i] == b[i - a.len()]);
            }
        }
    }
    assert forall|i: int| 0 <= i < form_encode(s).len() implies form_encode(s)[i] != '&'
        && form_encode(s)[i] != '=' && form_encode(s)[i] != ' ' by {
        assert(encoded_char(form_encode(s)[i]));
    }
}

// ---------------------------------------------------------------------------
// Reading an encoded key or value back
// ---------------------------------------------------------------------------

/// A hexadecimal digit, in either case.
pub open spec fn is_hex(c: char) -> bool {
    ('0' <= c && c <= '9') || ('A' <= c && c <= 'F') || ('a' <= c && c <= 'f')
}

/// The value of a hexadecimal digit.
pub open spec fn hex_value(c: char) -> nat {
    if '0' <= c && c <= '9' {
        (c as int - 48) as nat
    } else if 'A' <= c && c <= 'F' {
        (c as int - 55) as nat
    } else if 'a' <= c && c <= 'f' {
        (c as int - 87) as nat
    } else {
        0
    }
}

/// Whether a text ends with an escape `%XY`.
pub open spec fn ends_with_escape(t: Seq<char>) -> bool {
    t.len() >= 3 && t[t.len() - 3] == '%'
}

/// The bytes an encoded text stands for: an escape `%XY` is the byte with
/// hexadecimal digits `XY`, any other character stands for itself.
pub open spec fn pct_decode(t: Seq<char>) -> Seq<u8>
    decreases t.len(),
{
    if t.len() == 0 {
        Seq::empty()
    } else if ends_with_escape(t) {
        pct_decode(t.subrange(0, t.len() - 3)) + seq![
            (16 * hex_value(t[t.len() - 2]) + hex_value(t[t.len() - 1])) as u8,
        ]
    } else {
        pct_decode(t.drop_last()) + seq![t.last() as u8]
    }
}

/// What a server reads an encoded key or value as: the UTF-8 text of the
/// bytes it stands for.
pub open spec fn form_decode(t: Seq<char>) -> Seq<char> {
    decode_utf8(pct_decode(t))
}

/// A text made of escapes with two hexadecimal digits, and of characters
/// that need no escape.
pub open spec fn well_encoded(t: Seq<char>) -> bool
    decreases t.len(),
{
    if t.len() == 0 {
        true
    } else if ends_with_escape(t) {
        is_hex(t[t.len() - 2]) && is_hex(t[t.len() - 1]) && well_encoded(
            t.subrange(0, t.len() - 3),
        )
    } else {
        form_safe(t.last()) && well_encoded(t.drop_last())
    }
}

proof fn lemma_well_encoded_tail(t: Seq<char>)
    requires
        well_encoded(t),
    ensures
        t.len() >= 1 ==> t[t.len() - 1] != '%',
        t.len() >= 2 ==> t[t.len() - 2] != '%',
    decreases t.len(),
{
    if t.len() > 0 && !ends_with_escape(t) {
        lemma_well_encoded_tail(t.drop_last());
    }
}

proof fn lemma_pct_decode_concat(a: Seq<char>, b: Seq<char>)
    requires
        well_encoded(a),
        well_encoded(b),
    ensures
        well_encoded(a + b),
        pct_decode(a + b) == pct_decode(a) + pct_decode(b),
    decreases b.len(),
{
    let t = a + b;
    if b.len() == 0 {
        assert(t =~= a);
        assert(pct_decode(b) =~= Seq::<u8>::empty());
        assert(pct_decode(a) + pct_decode(b) =~= pct_decode(a));
    } else if ends_with_escape(b) {
        let b0 = b.subrange(0, b.len() - 3);
        assert(t.subrange(0, t.len() - 3) =~= a + b0);
        assert(t[t.len() - 3] == b[b.len() - 3]);
        assert(t[t.len() - 2] == b[b.len() - 2]);
        assert(t[t.len() - 1] == b[b.len() - 1]);
        lemma_pct_decode_concat(a, b0);
        assert(pct_decode(t) =~= pct_decode(a) + pct_decode(b));
    } else {
        lemma_well_encoded_tail(a);
        if t.len() >= 3 {
            if b.len() >= 3 {
                assert(t[t.len() - 3] == b[b.len() - 3]);
            } else if b.len() == 2 {
                assert(t[t.len() - 3] == a[a.len() - 1]);
            } else {
                assert(t[t.len() - 3] == a[a.len() - 2]);
            }
        }
        assert(!ends_with_escape(t));
        let b0 = b.drop_last();
        assert(t.drop_last() =~= a + b0);
        assert(t.last() == b.last());
        lemma_pct_decode_concat(a, b0);
        assert(pct_decode(t) =~= pct_decode(a) + pct_decode(b));
    }
}

proof fn lemma_hex_upper_value(d: nat)
    requires
        d < 16,
    ensures
        is_hex(hex_upper(d)),
        hex_value(hex_upper(d)) == d,
{
}

proof fn lemma_pct_bytes_decode(bs: Seq<u8>)
    ensures
        well_encoded(pct_bytes(bs)),
        pct_decode(pct_bytes(bs)) == bs,
    decreases bs.len(),
{
    if bs.len() > 0 {
        let t = pct_bytes(bs);
        let x = bs.last();
        lemma_pct_bytes_decode(bs.drop_last());
        lemma_hex_upper_value((x / 16) as nat);
        lemma_hex_upper_value((x % 16) as nat);
        assert(t.subrange(0, t.len() - 3) =~= pct_bytes(bs.drop_last()));
        assert(t[t.len() - 3] == '%');
        assert(t[t.len() - 2] == hex_upper((x / 16) as nat));
        assert(t[t.len() - 1] == hex_upper((x % 16) as nat));
        assert((16 * (x / 16) + x % 16) as u8 == x);
        assert(pct_decode(t) =~= bs);
    }
}

proof fn lemma_encode_utf8_concat(a: Seq<char>, b: Seq<char>)
    ensures
        encode_utf8(a + b) == encode_utf8(a) + encode_utf8(b),
    decreases a.len(),
{
    if a.len() == 0 {
        assert(a + b =~= b);
        assert(encode_utf8(a) + encode_utf8(b) =~= encode_utf8(b));
    } else {
        assert((a + b).drop_first() =~= a.drop_first() + b);
        assert((a + b)[0] == a[0]);
        lemma_encode_utf8_concat(a.drop_first(), b);
        assert(encode_utf8(a + b) =~= encode_utf8(a) + encode_utf8(b));
    }
}

proof fn lemma_form_encode_char_decode(c: char)
    ensures
        well_encoded(form_encode_char(c)),
        pct_decode(form_encode_char(c)) == encode_utf8(seq![c]),
{
    if form_safe(c) {
        let t = seq![c];
        assert(is_ascii_chars(t));
        is_ascii_chars_encode_utf8(t);
        assert(t.drop_last() =~= Seq::<char>::empty());
        assert(well_encoded(t.drop_last()));
        assert(pct_decode(t.drop_last()) =~= Seq::<u8>::empty());
        assert(pct_decode(t) =~= seq![c as u8]);
        assert(encode_utf8(t)[0] == c as u8);
        assert(pct_decode(t) =~= encode_utf8(t));
    } else {
        lemma_pct_bytes_decode(encode_utf8(seq![c]));
    }
}

proof fn lemma_form_encode_decode_bytes(s: Seq<char>)
    ensures
        well_encoded(form_encode(s)),
        pct_decode(form_encode(s)) == encode_utf8(s),
    decreases s.len(),
{
    if s.len() == 0 {
        assert(form_encode(s) =~= Seq::<char>::empty());
    } else {
        let c = s.last();
        lemma_form_encode_decode_bytes(s.drop_last());
        lemma_form_encode_char_decode(c);
        lemma_pct_decode_concat(form_encode(s.drop_last()), form_encode_char(c));
        assert(s.drop_last() + seq![c] =~= s);
        lemma_encode_utf8_concat(s.drop_last(), seq![c]);
    }
}

/// Form encoding loses nothing: whatever a key or value holds, the server
/// reads back exactly that text from its encoded form.
pub proof fn lemma_form_decode_encode(s: Seq<char>)
    ensures
        form_decode(form_encode(s)) == s,
{
    lemma_form_encode_decode_bytes(s);
    encode_utf8_decode_utf8(s);
}

// ---------------------------------------------------------------------------
// Reading a query back
// ---------------------------------------------------------------------------

/// The pieces of `t` between the occurrences of `sep`.
pub open spec fn split_on(t: Seq<char>, sep: char) -> Seq<Seq<char>>
    decreases t.len(),
{
    if t.len() == 0 {
        seq![Seq::<char>::empty()]
    } else if t.last() == sep {
        split_on(t.drop_last(), sep).push(Seq::<char>::empty())
    } else {
        let r = split_on(t.drop_last(), sep);
        r.update(r.len() - 1, r.last().push(t.last()))
    }
}

/// The position of the first `c` in `t`, or the length of `t` when there is
/// none.
pub open spec fn first_index(t: Seq<char>, c: char) -> nat
    decreases t.len(),
{
    if t.len() == 0 {
        0
    } else if t[0] == c {
        0
    } else {
        1 + first_index(t.drop_first(), c)
    }
}

/// One `key=value` piece of a query read back: split at its first `=`,
/// both sides decoded.
pub open spec fn read_pair(piece: Seq<char>) -> ParamView {
    let i = first_index(piece, '=');
    let k = piece.subrange(0, i as int);
    let v = if i < piece.len() {
        piece.subrange(i as int + 1, piece.len() as int)
    } else {
        Seq::<char>::empty()
    };
    (form_decode(k), form_decode(v))
}

/// The parameters a server reads from a query: none from an empty query,
/// otherwise one per piece between the `&`s.
pub open spec fn read_query(t: Seq<char>) -> Seq<ParamView> {
    if t.len() == 0 {
        Seq::empty()
    } else {
        split_on(t, '&').map_values(|piece: Seq<char>| read_pair(piece))
    }
}

proof fn lemma_split_without_sep(b: Seq<char>, sep: char)
    requires
        !b.contains(sep),
    ensures
        split_on(b, sep) == seq![b],
    decreases b.len(),
{
    if b.len() > 0 {
        assert(b.last() == b[b.len() - 1]);
        assert(!b.drop_last().contains(sep)) by {
            if b.drop_last().contains(sep) {
                let j = choose|j: int| 0 <= j < b.drop_last().len() && b.drop_last()[j] == sep;
                assert(b[j] == sep);
            }
        }
        lemma_split_without_sep(b.drop_last(), sep);
        assert(b.drop_last().push(b.last()) =~= b);
        assert(split_on(b, sep) =~= seq![b]);
    } else {
        assert(b =~= Seq::<char>::empty());
    }
}

proof fn lemma_split_after_sep(a: Seq<char>, b: Seq<char>, sep: char)
    requires
        !b.contains(sep),
    ensures
        split_on(a + seq![sep] + b, sep) == split_on(a, sep).push(b),
    decreases b.len(),
{
    let t = a + seq![sep] + b;
    if b.len() == 0 {
        assert(t.drop_last() =~= a);
        assert(t.last() == sep);
        assert(b =~= Seq::<char>::empty());
    } else {
        let b0 = b.drop_last();
        assert(!b0.contains(sep)) by {
            if b0.contains(sep) {
                let j = choose|j: int| 0 <= j < b0.len() && b0[j] == sep;
                assert(b[j] == sep);
            }
        }
        assert(t.drop_last() =~= a + seq![sep] + b0);
        assert(t.last() == b.last());
        assert(b.last() == b[b.len() - 1]);
        lemma_split_after_sep(a, b0, sep);
        assert(b0.push(b.last()) =~= b);
        assert(split_on(t, sep) =~= split_on(a, sep).push(b));
    }
}

proof fn lemma_split_join(parts: Seq<Seq<char>>, sep: char)
    requires
        parts.len() >= 1,
        forall|i: int| 0 <= i < parts.len() ==> !(#[trigger] parts[i]).contains(sep),
    ensures
        split_on(spec_join(parts, seq![sep]), sep) == parts,
    decreases parts.len(),
{
    if parts.len() == 1 {
        lemma_split_without_sep(parts[0], sep);
        assert(parts =~= seq![parts[0]]);
    } else {
        let init = parts.drop_last();
        assert forall|i: int| 0 <= i < init.len() implies !(#[trigger] init[i]).contains(sep) by {
            assert(init[i] == parts[i]);
        }
        lemma_split_join(init, sep);
        assert(!parts.last().contains(sep)) by {
            assert(parts.last() == parts[parts.len() - 1]);
        }
        lemma_split_after_sep(spec_join(init, seq![sep]), parts.last(), sep);
        assert(init.push(parts.last()) =~= parts);
    }
}

proof fn lemma_first_index_after(a: Seq<char>, b: Seq<char>, c: char)
    requires
        !a.contains(c),
    ensures
        first_index(a + seq![c] + b, c) == a.len(),
    decreases a.len(),
{
    let t = a + seq![c] + b;
    if a.len() == 0 {
        assert(t[0] == c);
    } else {
        assert(t[0] == a[0]);
        assert(a[0] != c) by {
            assert(a.contains(a[0]) || a[0] != c);
        }
        let a0 = a.drop_first();
        assert(!a0.contains(c)) by {
            if a0.contains(c) {
                let j = choose|j: int| 0 <= j < a0.len() && a0[j] == c;
                assert(a[j + 1] == c);
            }
        }
        assert(t.drop_first() =~= a0 + seq![c] + b);
        lemma_first_index_after(a0, b, c);
    }
}

proof fn lemma_read_pair(p: ParamView)
    ensures
        read_pair(query_pair(p)) == p,
        !query_pair(p).contains('&'),
{
    let k = form_encode(p.0);
    let v = form_encode(p.1);
    let piece = query_pair(p);
    lemma_form_encode_separators(p.0);
    lemma_form_encode_separators(p.1);
    lemma_first_index_after(k, v, '=');
    assert(piece.subrange(0, k.len() as int) =~= k);
    assert(piece.subrange(k.len() as int + 1, piece.len() as int) =~= v);
    lemma_form_decode_encode(p.0);
    lemma_form_decode_encode(p.1);
    assert(!piece.contains('&')) by {
        if piece.contains('&') {
            let j = choose|j: int| 0 <= j < piece.len() && piece[j] == '&';
            if j < k.len() {
                assert(k[j] == '&');
            } else if j > k.len() {
                assert(v[j - k.len() - 1] == '&');
            }
        }
    }
}

proof fn lemma_join_nonempty(parts: Seq<Seq<char>>, sep: Seq<char>)
    requires
        parts.len() >= 1,
        parts.last().len() >= 1,
    ensures
        spec_join(parts, sep).len() >= 1,
{
}

/// A query loses nothing: the server reads back from it exactly the
/// parameters it was written from, in order.
pub proof fn lemma_read_query(ps: Seq<ParamView>)
    ensures
        read_query(spec_query(ps)) == ps,
{
    let pieces = ps.map_values(|p: ParamView| query_pair(p));
    if ps.len() == 0 {
        assert(pieces =~= Seq::<Seq<char>>::empty());
    } else {
        assert forall|i: int| 0 <= i < pieces.len() implies !(#[trigger] pieces[i]).contains('&') by {
            lemma_read_pair(ps[i]);
        }
        lemma_split_join(pieces, '&');
        assert(pieces.last() == query_pair(ps.last()));
        assert(query_pair(ps.last())[form_encode(ps.last().0).len() as int] == '=');
        lemma_join_nonempty(pieces, seq!['&']);
        assert forall|i: int| 0 <= i < ps.len() implies #[trigger] read_pair(pieces[i]) == ps[i] by {
            lemma_read_pair(ps[i]);
        }
        assert(read_query(spec_query(ps)) =~= ps);
    }
}

// ---------------------------------------------------------------------------
// What a parameter list sends under a name
// ---------------------------------------------------------------------------

/// The values sent under `key`, in the order they are sent.
pub open spec fn values_of(ps: Seq<ParamView>, key: Seq<char>) -> Seq<Seq<char>>
    decreases ps.len(),
{
    if ps.len() == 0 {
        Seq::empty()
    } else if ps.last().0 == key {
        values_of(ps.drop_last(), key).push(ps.last().1)
    } else {
        values_of(ps.drop_last(), key)
    }
}

/// The values of an optional value's text: one when it is there, none when
/// it is not.
pub open spec fn sent_once(value: Option<Seq<char>>) -> Seq<Seq<char>> {
    match value {
        Some(v) => seq![v],
        None => Seq::empty(),
    }
}

/// Under a name, two lists sent one after the other send the values of the
/// first, then those of the second.
pub broadcast proof fn lemma_values_of_add(a: Seq<ParamView>, b: Seq<ParamView>, key: Seq<char>)
    ensures
        #[trigger] values_of(a + b, key) == values_of(a, key) + values_of(b, key),
    decreases b.len(),
{
    if b.len() == 0 {
        assert(a + b =~= a);
        assert(values_of(a, key) + values_of(b, key) =~= values_of(a, key));
    } else {
        assert((a + b).drop_last() =~= a + b.drop_last());
        assert((a + b).last() == b.last());
        lemma_values_of_add(a, b.drop_last(), key);
        if b.last().0 == key {
            assert(values_of(a, key) + values_of(b, key) =~= (values_of(a, key) + values_of(
                b.drop_last(),
                key,
            )).push(b.last().1));
        }
    }
}

/// One parameter sends its value under its own name, and nothing under any
/// other.
pub broadcast proof fn lemma_values_of_param(k: Seq<char>, v: Seq<char>, key: Seq<char>)
    ensures
        #[trigger] values_of(param(k, v), key) == if k == key {
            seq![v]
        } else {
            Seq::<Seq<char>>::empty()
        },
{
    let ps = param(k, v);
    assert(ps.drop_last() =~= Seq::<ParamView>::empty());
    assert(values_of(ps.drop_last(), key) =~= Seq::<Seq<char>>::empty());
    if k == key {
        assert(Seq::<Seq<char>>::empty().push(v) =~= seq![v]);
    }
}

/// An optional parameter sends its value under its own name when it is
/// there, and nothing otherwise.
pub broadcast proof fn lemma_values_of_opt_param(k: Seq<char>, o: Option<Seq<char>>, key: Seq<char>)
    ensures
        #[trigger] values_of(opt_param(k, o), key) == if k == key {
            sent_once(o)
        } else {
            Seq::<Seq<char>>::empty()
        },
{
    match o {
        Some(v) => {
            lemma_values_of_param(k, v, key);
        },
        None => {
            assert(values_of(Seq::<ParamView>::empty(), key) =~= Seq::<Seq<char>>::empty());
        },
    }
}

/// Two names differ when their lengths differ or they differ at a position.
pub proof fn lemma_keys_differ(a: Seq<char>, b: Seq<char>, i: int)
    requires
        a.len() != b.len() || (0 <= i < a.len() && i < b.len() && a[i] != b[i]),
    ensures
        a != b,
{
}

/// A name that no parameter of a list has gets no value.
pub proof fn lemma_values_of_absent(ps: Seq<ParamView>, k: Seq<char>)
    requires
        forall|i: int| 0 <= i < ps.len() ==> (#[trigger] ps[i]).0 != k,
    ensures
        values_of(ps, k) == Seq::<Seq<char>>::empty(),
    decreases ps.len(),
{
    if ps.len() > 0 {
        assert(ps.last() == ps[ps.len() - 1]);
        assert forall|i: int| 0 <= i < ps.drop_last().len() implies (
        #[trigger] ps.drop_last()[i]).0 != k by {
            assert(ps.drop_last()[i] == ps[i]);
        }
        lemma_values_of_absent(ps.drop_last(), k);
    }
}

/// A name that exactly one parameter of a list has gets that parameter's
/// value, once.
pub proof fn lemma_values_of_unique(ps: Seq<ParamView>, k: Seq<char>, j: int)
    requires
        0 <= j < ps.len(),
        ps[j].0 == k,
        forall|i: int| 0 <= i < ps.len() && i != j ==> (#[trigger] ps[i]).0 != k,
    ensures
        values_of(ps, k) == seq![ps[j].1],
    decreases ps.len(),
{
    let init = ps.drop_last();
    if j == ps.len() - 1 {
        assert forall|i: int| 0 <= i < init.len() implies (#[trigger] init[i]).0 != k by {
            assert(init[i] == ps[i]);
        }
        lemma_values_of_absent(init, k);
        assert(Seq::<Seq<char>>::empty().push(ps[j].1) =~= seq![ps[j].1]);
    } else {
        assert(ps.last() == ps[ps.len() - 1]);
        assert(init[j] == ps[j]);
        assert forall|i: int| 0 <= i < init.len() && i != j implies (#[trigger] init[i]).0 != k by {
            assert(init[i] == ps[i]);
        }
        lemma_values_of_unique(init, k, j);
    }
}

proof fn lemma_indexed_key_shape(key: Seq<char>, i: nat)
    ensures
        indexed_key(key, i).len() > key.len() + 2,
        indexed_key(key, i).subrange(key.len() as int + 1, indexed_key(key, i).len() - 1) == spec_dec(i),
{
    lemma_dec_all_digits(i);
    let t = indexed_key(key, i);
    assert(t.subrange(key.len() as int + 1, t.len() - 1) =~= spec_dec(i));
}

proof fn lemma_indexed_key_injective(key: Seq<char>, i: nat, j: nat)
    requires
        indexed_key(key, i) == indexed_key(key, j),
    ensures
        i == j,
{
    lemma_indexed_key_shape(key, i);
    lemma_indexed_key_shape(key, j);
    lemma_digits_value_dec(i);
    lemma_digits_value_dec(j);
}

/// What a byte string sent as a sequence sends: under `key[i]` the `i`-th
/// byte in decimal, once; under `key` itself an empty value when there are
/// no bytes, and nothing otherwise; under any other name no longer than
/// `key[]`, nothing.
pub proof fn lemma_byte_params_sent(key: Seq<char>, bytes: Seq<u8>)
    ensures
        values_of(byte_params(key, bytes), key) == (if bytes.len() == 0 {
            seq![Seq::<char>::empty()]
        } else {
            Seq::<Seq<char>>::empty()
        }),
        forall|k: Seq<char>|
            k != key && k.len() <= key.len() + 2 ==> #[trigger] values_of(byte_params(key, bytes), k)
                == Seq::<Seq<char>>::empty(),
        forall|i: int|
            0 <= i < bytes.len() ==> #[trigger] values_of(
                byte_params(key, bytes),
                indexed_key(key, i as nat),
            ) == seq![spec_dec(bytes[i] as nat)],
{
    broadcast use group_values_of;

    let ps = byte_params(key, bytes);
    if bytes.len() == 0 {
        assert(ps =~= param(key, Seq::<char>::empty()));
        lemma_values_of_param(key, Seq::<char>::empty(), key);
        assert forall|k: Seq<char>| k != key && k.len() <= key.len() + 2 implies #[trigger] values_of(
            ps,
            k,
        ) == Seq::<Seq<char>>::empty() by {
            lemma_values_of_param(key, Seq::<char>::empty(), k);
        }
    } else {
        assert forall|k: Seq<char>| k.len() <= key.len() + 2 implies #[trigger] values_of(ps, k)
            == Seq::<Seq<char>>::empty() by {
            assert forall|m: int| 0 <= m < ps.len() implies (#[trigger] ps[m]).0 != k by {
                lemma_indexed_key_shape(key, m as nat);
            }
            lemma_values_of_absent(ps, k);
        }
        assert(values_of(ps, key) == Seq::<Seq<char>>::empty());
        assert forall|i: int| 0 <= i < bytes.len() implies #[trigger] values_of(
            ps,
            indexed_key(key, i as nat),
        ) == seq![spec_dec(bytes[i] as nat)] by {
            assert forall|m: int| 0 <= m < ps.len() && m != i implies (#[trigger] ps[m]).0
                != indexed_key(key, i as nat) by {
                if ps[m].0 == indexed_key(key, i as nat) {
                    lemma_indexed_key_injective(key, m as nat, i as nat);
                }
            }
            lemma_values_of_unique(ps, indexed_key(key, i as nat), i);
        }
    }
}

/// The facts that reduce what a list of parameters sends under a name to
/// what each of its parts sends.
pub broadcast group group_values_of {
    lemma_values_of_add,
    lemma_values_of_param,
    lemma_values_of_opt_param,
}

} // verus!
