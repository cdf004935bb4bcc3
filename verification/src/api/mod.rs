//! The ResourceSpace API endpoints: their request parameters, the shapes of
//! their replies, and the value types several of them share.

pub mod collection;
pub mod message;
pub mod metadata;
pub mod plugin;
pub mod resource;
pub mod search;
pub mod sends;
pub mod system;
pub mod user;

use vstd::prelude::*;

use crate::json::{dec_items, json_quote, json_string, JsonValue};
use crate::text::{contains_char, join, push_char, push_str, spec_dec, spec_join, string_views, u64_to_dec};
use crate::wire::{ParamView, Params, WireValue};

verus! {

/// The parameters of one API call, in the order they are sent.
pub trait ApiParams {
    /// The parameters the request is sent with.
    spec fn spec_params(&self) -> Seq<ParamView>;

    /// Writes the parameters the request is sent with.
    fn to_params(&self) -> (r: Params)
        ensures
            r@ == self.spec_params(),
    ;
}

/// Sort direction of a listing.
#[derive(Clone, Copy, Debug, PartialEq, Eq, Structural)]
pub enum SortOrder {
    Asc,
    Desc,
}

/// Sort orders go out in lower case.
impl WireValue for SortOrder {
    open spec fn wire(&self) -> Seq<char> {
        match *self {
            SortOrder::Asc => seq!['a', 's', 'c'],
            SortOrder::Desc => seq!['d', 'e', 's', 'c'],
        }
    }

    fn to_wire(&self) -> (r: String) {
        let mut out = String::new();
        match *self {
            SortOrder::Asc => {
                push_char(&mut out, 'a');
                push_char(&mut out, 's');
                push_char(&mut out, 'c');
            },
            SortOrder::Desc => {
                push_char(&mut out, 'd');
                push_char(&mut out, 'e');
                push_char(&mut out, 's');
                push_char(&mut out, 'c');
            },
        }
        assert(out@ =~= self.wire());
        out
    }
}

/// A list of values that is sent as one comma-separated parameter, e.g.
/// `1,2,3`.
#[derive(Clone, Debug, PartialEq)]
pub struct List<T>(pub Vec<T>);

impl<T> View for List<T> {
    type V = Seq<T>;

    open spec fn view(&self) -> Seq<T> {
        self.0@
    }
}

impl<T> List<T> {
    /// A list of the given values, in order.
    pub fn new(values: Vec<T>) -> (r: List<T>)
        ensures
            r@ == values@,
    {
        List(values)
    }

    /// A list of one value.
    pub fn one(value: T) -> (r: List<T>)
        ensures
            r@ == seq![value],
    {
        let mut v = Vec::new();
        v.push(value);
        assert(v@ =~= seq![value]);
        List(v)
    }

    /// The values, in order.
    pub fn into_inner(self) -> (r: Vec<T>)
        ensures
            r@ == self@,
    {
        self.0
    }

    /// The values, in order.
    pub fn as_slice(&self) -> (r: &[T])
        ensures
            r@ == self@,
    {
        self.0.as_slice()
    }
}

impl<T> From<Vec<T>> for List<T> {
    fn from(values: Vec<T>) -> (r: List<T>) {
        List(values)
    }
}

impl<T> vstd::std_specs::convert::FromSpecImpl<Vec<T>> for List<T> {
    open spec fn obeys_from_spec() -> bool {
        true
    }

    open spec fn from_spec(v: Vec<T>) -> List<T> {
        List(v)
    }
}

impl List<String> {
    /// A list of the given texts, in order.
    pub fn from_strs(values: &[&str]) -> (r: List<String>)
        ensures
            string_views(r@) == values@.map_values(|s: &str| s@),
    {
        let mut out: Vec<String> = Vec::new();
        let n = values.len();
        let mut i: usize = 0;
        while i < n
            invariant
                i <= n,
                n == values@.len(),
                string_views(out@) =~= values@.take(i as int).map_values(|s: &str| s@),
            decreases n - i,
        {
            let ghost before = out@;
            out.push(values[i].to_owned());
            assert(string_views(out@) =~= string_views(before).push(values@[i as int]@));
            assert(values@.take(i + 1).map_values(|s: &str| s@) =~= values@.take(i as int).map_values(
                |s: &str| s@,
            ).push(values@[i as int]@));
            i = i + 1;
        }
        assert(values@.take(n as int) =~= values@);
        List(out)
    }
}

/// The decimal texts of `ids`.
pub fn dec_strings(ids: &[u32]) -> (r: Vec<String>)
    ensures
        string_views(r@) == dec_items(ids@),
{
    let mut out: Vec<String> = Vec::new();
    let n = ids.len();
    let mut i: usize = 0;
    while i < n
        invariant
            i <= n,
            n == ids@.len(),
            string_views(out@) =~= dec_items(ids@.take(i as int)),
        decreases n - i,
    {
        let ghost before = out@;
        let t = u64_to_dec(ids[i] as u64);
        out.push(t);
        assert(string_views(out@) =~= string_views(before).push(spec_dec(ids@[i as int] as nat)));
        assert(dec_items(ids@.take(i + 1)) =~= dec_items(ids@.take(i as int)).push(
            spec_dec(ids@[i as int] as nat),
        ));
        i = i + 1;
    }
    assert(ids@.take(n as int) =~= ids@);
    out
}

/// A list of ids goes out as its decimal numbers joined with `,`.
impl WireValue for List<u32> {
    open spec fn wire(&self) -> Seq<char> {
        spec_join(dec_items(self@), seq![','])
    }

    fn to_wire(&self) -> (r: String) {
        let parts = dec_strings(self.as_slice());
        proof {
            reveal_strlit(",");
            assert(","@ =~= seq![',']);
        }
        join(&parts, ",")
    }
}

/// A list of texts goes out joined with `,`, each text as it is.
impl WireValue for List<String> {
    open spec fn wire(&self) -> Seq<char> {
        spec_join(string_views(self@), seq![','])
    }

    fn to_wire(&self) -> (r: String) {
        let parts = self.as_slice();
        let mut out = String::new();
        let n = parts.len();
        let mut i: usize = 0;
        while i < n
            invariant
                i <= n,
                n == parts@.len(),
                parts@ == self@,
                out@ == spec_join(string_views(parts@.take(i as int)), seq![',']),
            decreases n - i,
        {
            let ghost prev = string_views(parts@.take(i as int));
            let ghost next = string_views(parts@.take(i + 1));
            assert(next.drop_last() =~= prev);
            if i > 0 {
                push_char(&mut out, ',');
            } else {
                assert(next =~= seq![parts@[0]@]);
            }
            push_str(&mut out, parts[i].as_str());
            i = i + 1;
        }
        assert(parts@.take(n as int) =~= parts@);
        out
    }
}

/// In a JSON text a list of texts is the string of its comma-joined form.
impl JsonValue for List<String> {
    open spec fn json(&self) -> Seq<char> {
        json_quote(self.wire())
    }

    fn to_json(&self) -> (r: String) {
        let w = self.to_wire();
        json_string(w.as_str())
    }
}

/// A keyword as it is written in a keyword list: quoted when it holds a
/// comma, so that the comma does not split it.
pub open spec fn keyword_wire(s: Seq<char>) -> Seq<char> {
    if s.contains(',') {
        seq!['"'] + s + seq!['"']
    } else {
        s
    }
}

/// The texts of a keyword list, each quoted where it needs to be.
pub open spec fn keyword_items(ks: Seq<String>) -> Seq<Seq<char>> {
    ks.map_values(|k: String| keyword_wire(k@))
}

/// The value to set for a metadata field.
#[derive(Clone, Debug, PartialEq)]
pub enum FieldValue {
    /// A text value, sent as it is.
    Text(String),
    /// Keywords; each one is quoted if it contains a comma.
    Keywords(List<String>),
    /// Node ids; a field update with these sends `nodevalues=true`.
    Nodes(List<u32>),
}

/// The text a field value is sent as.
pub open spec fn field_value_wire(v: FieldValue) -> Seq<char> {
    match v {
        FieldValue::Text(s) => s@,
        FieldValue::Keywords(ks) => spec_join(keyword_items(ks@), seq![',']),
        FieldValue::Nodes(ids) => spec_join(dec_items(ids@), seq![',']),
    }
}

impl FieldValue {
    /// A text value.
    pub fn text(value: String) -> (r: FieldValue)
        ensures
            r == FieldValue::Text(value),
    {
        FieldValue::Text(value)
    }

    /// A keyword list.
    pub fn keywords(values: List<String>) -> (r: FieldValue)
        ensures
            r == FieldValue::Keywords(values),
    {
        FieldValue::Keywords(values)
    }

    /// A list of node ids.
    pub fn nodes(ids: List<u32>) -> (r: FieldValue)
        ensures
            r == FieldValue::Nodes(ids),
    {
        FieldValue::Nodes(ids)
    }

    /// Whether the value is a list of node ids.
    pub fn is_nodes(&self) -> (r: bool)
        ensures
            r == (*self is Nodes),
    {
        match self {
            FieldValue::Nodes(_) => true,
            _ => false,
        }
    }

    /// The text the value is sent as: a text as it is, keywords joined with
    /// `,` (each quoted in `"` when it holds a comma), node ids as decimal
    /// numbers joined with `,`.
    pub fn to_wire_string(&self) -> (r: String)
        ensures
            r@ == field_value_wire(*self),
    {
        match self {
            FieldValue::Text(s) => s.as_str().to_owned(),
            FieldValue::Keywords(ks) => {
                let items = ks.as_slice();
                let mut parts: Vec<String> = Vec::new();
                let n = items.len();
                let mut i: usize = 0;
                while i < n
                    invariant
                        i <= n,
                        n == items@.len(),
                        string_views(parts@) =~= keyword_items(items@.take(i as int)),
                    decreases n - i,
                {
                    let k = items[i].as_str();
                    let part = if contains_char(k, ',') {
                        let mut q = String::new();
                        push_char(&mut q, '"');
                        push_str(&mut q, k);
                        push_char(&mut q, '"');
                        assert(q@ =~= keyword_wire(k@));
                        q
                    } else {
                        k.to_owned()
                    };
                    assert(part@ == keyword_wire(items@[i as int]@));
                    let ghost before = parts@;
                    parts.push(part);
                    assert(string_views(parts@) =~= string_views(before).push(
                        keyword_wire(items@[i as int]@),
                    ));
                    assert(keyword_items(items@.take(i + 1)) =~= keyword_items(
                        items@.take(i as int),
                    ).push(keyword_wire(items@[i as int]@)));
                    i = i + 1;
                }
                assert(items@.take(n as int) =~= items@);
                proof {
                    reveal_strlit(",");
                    assert(","@ =~= seq![',']);
                }
                join(&parts, ",")
            },
            FieldValue::Nodes(ids) => {
                let parts = dec_strings(ids.as_slice());
                proof {
                    reveal_strlit(",");
                    assert(","@ =~= seq![',']);
                }
                join(&parts, ",")
            },
        }
    }
}

/// A text is sent as it is; a list of texts is a keyword list; numbers
/// are node ids.
impl From<String> for FieldValue {
    fn from(v: String) -> (r: FieldValue) {
        FieldValue::Text(v)
    }
}

impl vstd::std_specs::convert::FromSpecImpl<String> for FieldValue {
    open spec fn obeys_from_spec() -> bool {
        true
    }

    open spec fn from_spec(v: String) -> FieldValue {
        FieldValue::Text(v)
    }
}

impl From<List<String>> for FieldValue {
    fn from(v: List<String>) -> (r: FieldValue) {
        FieldValue::Keywords(v)
    }
}

impl vstd::std_specs::convert::FromSpecImpl<List<String>> for FieldValue {
    open spec fn obeys_from_spec() -> bool {
        true
    }

    open spec fn from_spec(v: List<String>) -> FieldValue {
        FieldValue::Keywords(v)
    }
}

impl From<List<u32>> for FieldValue {
    fn from(v: List<u32>) -> (r: FieldValue) {
        FieldValue::Nodes(v)
    }
}

impl vstd::std_specs::convert::FromSpecImpl<List<u32>> for FieldValue {
    open spec fn obeys_from_spec() -> bool {
        true
    }

    open spec fn from_spec(v: List<u32>) -> FieldValue {
        FieldValue::Nodes(v)
    }
}

impl From<Vec<String>> for FieldValue {
    fn from(v: Vec<String>) -> (r: FieldValue) {
        FieldValue::Keywords(List(v))
    }
}

impl vstd::std_specs::convert::FromSpecImpl<Vec<String>> for FieldValue {
    open spec fn obeys_from_spec() -> bool {
        true
    }

    open spec fn from_spec(v: Vec<String>) -> FieldValue {
        FieldValue::Keywords(List(v))
    }
}

impl From<Vec<u32>> for FieldValue {
    fn from(v: Vec<u32>) -> (r: FieldValue) {
        FieldValue::Nodes(List(v))
    }
}

impl vstd::std_specs::convert::FromSpecImpl<Vec<u32>> for FieldValue {
    open spec fn obeys_from_spec() -> bool {
        true
    }

    open spec fn from_spec(v: Vec<u32>) -> FieldValue {
        FieldValue::Nodes(List(v))
    }
}

impl WireValue for FieldValue {
    open spec fn wire(&self) -> Seq<char> {
        field_value_wire(*self)
    }

    fn to_wire(&self) -> (r: String) {
        self.to_wire_string()
    }
}

// ---------------------------------------------------------------------------
// Reading a keyword list back
// ---------------------------------------------------------------------------

/// Where a reader of a keyword list is: the keywords read so far, the one
/// being read, and whether it is inside quotes.
pub type KeywordReader = (Seq<Seq<char>>, Seq<char>, bool);

/// One character read: a quote opens or closes a quoted part and is
/// dropped, a comma outside quotes ends the keyword, anything else belongs
/// to the keyword.
pub open spec fn keyword_step(st: KeywordReader, c: char) -> KeywordReader {
    if c == '"' {
        (st.0, st.1, !st.2)
    } else if c == ',' && !st.2 {
        (st.0.push(st.1), Seq::<char>::empty(), false)
    } else {
        (st.0, st.1.push(c), st.2)
    }
}

/// The reader after the characters of `t`.
pub open spec fn keyword_run(st: KeywordReader, t: Seq<char>) -> KeywordReader
    decreases t.len(),
{
    if t.len() == 0 {
        st
    } else {
        keyword_step(keyword_run(st, t.drop_last()), t.last())
    }
}

/// The keywords a server reads from a keyword list: split at the commas
/// outside quotes, with the quotes removed.
pub open spec fn read_keywords(t: Seq<char>) -> Seq<Seq<char>> {
    let st = keyword_run((Seq::<Seq<char>>::empty(), Seq::<char>::empty(), false), t);
    st.0.push(st.1)
}

proof fn lemma_keyword_run_concat(st: KeywordReader, a: Seq<char>, b: Seq<char>)
    ensures
        keyword_run(st, a + b) == keyword_run(keyword_run(st, a), b),
    decreases b.len(),
{
    if b.len() == 0 {
        assert(a + b =~= a);
    } else {
        assert((a + b).drop_last() =~= a + b.drop_last());
        assert((a + b).last() == b.last());
        lemma_keyword_run_concat(st, a, b.drop_last());
    }
}

proof fn lemma_keyword_run_one(st: KeywordReader, c: char)
    ensures
        keyword_run(st, seq![c]) == keyword_step(st, c),
{
    let t = seq![c];
    assert(t.drop_last() =~= Seq::<char>::empty());
    assert(keyword_run(st, t.drop_last()) == st);
    assert(t.last() == c);
}

proof fn lemma_keyword_run_plain(st: KeywordReader, k: Seq<char>)
    requires
        !k.contains('"'),
        st.2 || !k.contains(','),
    ensures
        keyword_run(st, k) == (st.0, st.1 + k, st.2),
    decreases k.len(),
{
    if k.len() == 0 {
        assert(st.1 + k =~= st.1);
    } else {
        let k0 = k.drop_last();
        assert(!k0.contains('"') && (st.2 || !k0.contains(','))) by {
            if k0.contains('"') {
                let j = choose|j: int| 0 <= j < k0.len() && k0[j] == '"';
                assert(k[j] == '"');
            }
            if !st.2 && k0.contains(',') {
                let j = choose|j: int| 0 <= j < k0.len() && k0[j] == ',';
                assert(k[j] == ',');
            }
        }
        lemma_keyword_run_plain(st, k0);
        assert(k.last() == k[k.len() - 1]);
        assert((st.1 + k0).push(k.last()) =~= st.1 + k);
    }
}

proof fn lemma_keyword_run_item(done: Seq<Seq<char>>, k: Seq<char>)
    requires
        !k.contains('"'),
    ensures
        keyword_run((done, Seq::<char>::empty(), false), keyword_wire(k)) == (done, k, false),
{
    let st = (done, Seq::<char>::empty(), false);
    if k.contains(',') {
        let q = seq!['"'];
        lemma_keyword_run_one(st, '"');
        lemma_keyword_run_concat(st, q, k);
        lemma_keyword_run_plain((done, Seq::<char>::empty(), true), k);
        assert(Seq::<char>::empty() + k =~= k);
        lemma_keyword_run_concat(st, q + k, q);
        lemma_keyword_run_one((done, k, true), '"');
    } else {
        lemma_keyword_run_plain(st, k);
        assert(Seq::<char>::empty() + k =~= k);
    }
}

proof fn lemma_keyword_run_join(ks: Seq<Seq<char>>)
    requires
        ks.len() >= 1,
        forall|i: int| 0 <= i < ks.len() ==> !(#[trigger] ks[i]).contains('"'),
    ensures
        keyword_run(
            (Seq::<Seq<char>>::empty(), Seq::<char>::empty(), false),
            spec_join(ks.map_values(|k: Seq<char>| keyword_wire(k)), seq![',']),
        ) == (ks.drop_last(), ks.last(), false),
    decreases ks.len(),
{
    let items = ks.map_values(|k: Seq<char>| keyword_wire(k));
    let init = (Seq::<Seq<char>>::empty(), Seq::<char>::empty(), false);
    if ks.len() == 1 {
        lemma_keyword_run_item(Seq::<Seq<char>>::empty(), ks[0]);
        assert(ks.drop_last() =~= Seq::<Seq<char>>::empty());
    } else {
        let front = ks.drop_last();
        assert forall|i: int| 0 <= i < front.len() implies !(#[trigger] front[i]).contains('"') by {
            assert(front[i] == ks[i]);
        }
        lemma_keyword_run_join(front);
        let fitems = front.map_values(|k: Seq<char>| keyword_wire(k));
        assert(items.drop_last() =~= fitems);
        let head = spec_join(fitems, seq![',']);
        lemma_keyword_run_concat(init, head + seq![','], items.last());
        lemma_keyword_run_concat(init, head, seq![',']);
        lemma_keyword_run_one((front.drop_last(), front.last(), false), ',');
        assert(front.drop_last().push(front.last()) =~= ks.drop_last());
        assert(ks.last() == ks[ks.len() - 1]);
        lemma_keyword_run_item(ks.drop_last(), ks.last());
    }
}

/// A keyword list loses nothing: as long as no keyword holds a `"`, the
/// server reads back exactly the keywords, commas inside them included.
pub proof fn lemma_read_keywords(ks: List<String>)
    requires
        ks@.len() >= 1,
        forall|i: int| 0 <= i < ks@.len() ==> !(#[trigger] ks@[i])@.contains('"'),
    ensures
        read_keywords(field_value_wire(FieldValue::Keywords(ks))) == string_views(ks@),
{
    let ks = ks@;
    let vs = string_views(ks);
    assert forall|i: int| 0 <= i < vs.len() implies !(#[trigger] vs[i]).contains('"') by {
        assert(vs[i] == ks[i]@);
    }
    lemma_keyword_run_join(vs);
    assert(keyword_items(ks) =~= vs.map_values(|k: Seq<char>| keyword_wire(k)));
    assert(vs.drop_last().push(vs.last()) =~= vs);
}

} // verus!
