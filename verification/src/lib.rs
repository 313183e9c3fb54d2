//! A small tagged string type for handing source text to a script-engine
//! boundary with minimal copying.
//!
//! A [`FastString`] is an immutable text value in one of three
//! representations: a borrowed span with process lifetime (`Static`), the
//! same but proven to be pure 7-bit ASCII (`StaticAscii`), and a
//! reference-counted shared buffer for runtime-produced text (`Arc`).
//! The ASCII-proven case exists so that an engine binding can hand the
//! bytes over without copying or re-validating their encoding.

use core::cmp::Ordering;
use std::borrow::Cow;
use std::sync::Arc;
use vstd::prelude::*;
use vstd::utf8::*;
use vstd::string::StringSliceAdditionalSpecFns;
use vstd::std_specs::cmp::PartialEqSpec;

verus! {

/// Every byte of the span has its high bit clear.
pub open spec fn ascii_bytes(bytes: Seq<u8>) -> bool {
    forall|i: int| 0 <= i < bytes.len() ==> bytes[i] < 0x80
}

/// An immutable text value with three storage strategies. The logical
/// content (the view) is the UTF-8 byte sequence of the text; equality is
/// defined over that content alone, independent of the variant.
#[derive(Debug)]
pub enum FastString {
    /// Borrowed from data with process lifetime; may contain non-ASCII text.
    Static(&'static str),
    /// Borrowed from data with process lifetime; every byte is below 0x80.
    StaticAscii(&'static str),
    /// Reference-counted shared buffer for runtime-produced text.
    Arc(Arc<str>),
}

/// The capability `from_ownable` is built on: a text value that can say,
/// without copying, whether it is a genuinely owned buffer or a static
/// borrow in disguise. Implementors outside this crate are held to the
/// method's contract by their own verification.
pub trait IsPotentiallyOwned {
    /// The character content of the value.
    spec fn spec_chars(&self) -> Seq<char>;

    /// Whether the value reports itself as a genuinely owned buffer.
    spec fn spec_is_owned(&self) -> bool;

    /// Hands the text over: as an owned buffer when the value owns one,
    /// as the borrowed span otherwise. Neither path copies the bytes.
    fn maybe_into_owned_vec(self) -> (r: Cow<'static, str>)
        ensures
            r@ == self.spec_chars(),
            (r matches Cow::Owned(_)) == self.spec_is_owned(),
    ;
}

/// An owned string always takes the owned path: the ASCII fast path is for
/// embedded data, so nothing is gained by scanning runtime text.
impl IsPotentiallyOwned for String {
    open spec fn spec_chars(&self) -> Seq<char> {
        self@
    }

    open spec fn spec_is_owned(&self) -> bool {
        true
    }

    fn maybe_into_owned_vec(self) -> (r: Cow<'static, str>) {
        Cow::Owned(self)
    }
}

impl FastString {
    /// The character content, independent of the variant.
    pub open spec fn chars(&self) -> Seq<char> {
        match self {
            FastString::Static(s) => s@,
            FastString::StaticAscii(s) => s@,
            FastString::Arc(a) => a@,
        }
    }

    /// The `StaticAscii` tag is only ever attached to pure ASCII data; a
    /// value that broke this would make the zero-copy engine path unsound.
    pub open spec fn wf(&self) -> bool {
        self is StaticAscii ==> ascii_bytes(self@)
    }

    /// What `from_static` returns: the scan over the bytes picks the tag.
    pub open spec fn spec_from_static(s: &'static str) -> FastString {
        if ascii_bytes(s.spec_bytes()) {
            FastString::StaticAscii(s)
        } else {
            FastString::Static(s)
        }
    }

    /// What `try_static_ascii` returns: the variant alone, never the
    /// content, decides whether the borrowed ASCII span is handed out.
    pub open spec fn spec_try_static_ascii(&self) -> Option<Seq<u8>> {
        if self is StaticAscii {
            Some(self@)
        } else {
            None
        }
    }

    /// Decides whether every byte of the span is ASCII: one pass,
    /// stopping at the first byte with its high bit set.
    pub fn is_ascii(s: &[u8]) -> (r: bool)
        ensures
            r == ascii_bytes(s@),
    {
        let mut i: usize = 0;
        while i < s.len()
            invariant
                i <= s@.len(),
                forall|j: int| 0 <= j < i ==> s@[j] < 0x80,
            decreases s@.len() - i,
        {
            if s[i] >= 0x80 {
                return false;
            }
            i += 1;
        }
        true
    }

    /// Classifies a span with process lifetime: `StaticAscii` when the scan
    /// passes, `Static` otherwise. Never fails.
    pub fn from_static(s: &'static str) -> (r: Self)
        ensures
            r == Self::spec_from_static(s),
            r.wf(),
            r@ == s.spec_bytes(),
            (r is StaticAscii) <==> ascii_bytes(s.spec_bytes()),
    {
        if Self::is_ascii(s.as_bytes()) {
            FastString::StaticAscii(s)
        } else {
            FastString::Static(s)
        }
    }

    /// Asserts that an embedded span is pure ASCII. The precondition rules
    /// non-ASCII data out; the scan is still run, so a caller outside the
    /// verified world that breaks the precondition dies here rather than
    /// obtain a mislabeled value.
    pub fn ensure_static_ascii(s: &'static str) -> (r: Self)
        requires
            ascii_bytes(s.spec_bytes()),
        ensures
            r == FastString::StaticAscii(s),
            r.wf(),
            r@ == s.spec_bytes(),
    {
        if Self::is_ascii(s.as_bytes()) {
            FastString::StaticAscii(s)
        } else {
            vstd::pervasive::unreached()
        }
    }

    /// Builds from anything that can tell owned data from a static borrow.
    /// Owned data becomes a shared buffer with no scan and no byte copy;
    /// a borrowed span goes through `from_static` and so participates in
    /// the ASCII fast path.
    pub fn from_ownable<T: IsPotentiallyOwned>(s: T) -> (r: Self)
        ensures
            r.wf(),
            r.chars() == s.spec_chars(),
            (r is Arc) == s.spec_is_owned(),
            !s.spec_is_owned() ==> ((r is StaticAscii) <==> ascii_bytes(r@)),
    {
        let c = s.maybe_into_owned_vec();
        match c {
            Cow::Owned(o) => FastString::Arc(string_to_arc_str(o)),
            Cow::Borrowed(b) => Self::from_static(b),
        }
    }

    /// Wraps a pre-existing shared buffer directly: no scan, no copy.
    pub fn from_arc(s: Arc<str>) -> (r: Self)
        ensures
            r == FastString::Arc(s),
            r.wf(),
            r.chars() == s@,
    {
        FastString::Arc(s)
    }

    /// The borrowed ASCII span, for the `StaticAscii` variant alone; the
    /// other two variants yield nothing even when their content happens to
    /// be all ASCII, since the scan never runs outside construction.
    pub fn try_static_ascii(&self) -> (r: Option<&'static [u8]>)
        ensures
            match r {
                Some(b) => {
                    &&& self is StaticAscii
                    &&& b@ == self@
                    &&& self.wf() ==> ascii_bytes(b@)
                },
                None => !(self is StaticAscii),
            },
            (r matches Some(_)) == (self.spec_try_static_ascii() matches Some(_)),
    {
        match self {
            FastString::StaticAscii(s) => Some(s.as_bytes()),
            _ => None,
        }
    }

    /// Shortens the value to its first `index` bytes. The index must be in
    /// bounds and on a UTF-8 character boundary; that is the caller's duty,
    /// never repaired silently. The borrowed variants re-slice their span
    /// for free and keep their tag (a prefix of ASCII data is still ASCII);
    /// the shared variant cannot shrink a buffer other owners may hold, so
    /// it allocates a fresh one for the prefix. May be slow on that path.
    pub fn truncate(&mut self, index: usize)
        requires
            old(self).wf(),
            index <= old(self)@.len(),
            is_char_boundary(old(self)@, index as int),
        ensures
            final(self).wf(),
            final(self)@ == old(self)@.subrange(0, index as int),
            (*old(self)) is Static ==> (*final(self)) is Static,
            (*old(self)) is StaticAscii ==> (*final(self)) is StaticAscii,
            (*old(self)) is Arc ==> (*final(self)) is Arc,
    {
        let next = match &*self {
            FastString::Static(b) => FastString::Static((*b).split_at(index).0),
            FastString::StaticAscii(b) => FastString::StaticAscii((*b).split_at(index).0),
            FastString::Arc(a) => FastString::Arc(
                str_to_arc_str(arc_str_as_str(a).split_at(index).0),
            ),
        };
        *self = next;
    }

    /// A view of the byte content, whatever the variant: no copy.
    pub fn as_bytes(&self) -> (r: &[u8])
        ensures
            r@ == self@,
    {
        match self {
            FastString::Arc(s) => arc_str_as_str(s).as_bytes(),
            FastString::Static(s) => s.as_bytes(),
            FastString::StaticAscii(s) => s.as_bytes(),
        }
    }

    /// A view of the text content, whatever the variant: no copy.
    pub fn as_str(&self) -> (r: &str)
        ensures
            r@ == self.chars(),
            r.spec_bytes() == self@,
    {
        match self {
            FastString::Arc(s) => arc_str_as_str(s),
            FastString::Static(s) => s,
            FastString::StaticAscii(s) => s,
        }
    }
}

/// Relies on `Arc::as_ref`: the reference handed out is to the very value
/// the shared buffer holds.
#[verifier::external_body]
fn arc_str_as_str<'a>(s: &'a Arc<str>) -> (r: &'a str)
    ensures
        r@ == s@,
{
    s.as_ref()
}

/// Relies on `<Arc<str> as From<&str>>::from`: the new shared buffer holds a
/// copy of exactly the given text.
#[verifier::external_body]
fn str_to_arc_str(s: &str) -> (r: Arc<str>)
    ensures
        r@ == s@,
{
    s.into()
}

/// Relies on `<Arc<str> as From<String>>::from`: the new shared buffer holds
/// exactly the text of the string whose ownership it takes.
#[verifier::external_body]
fn string_to_arc_str(s: String) -> (r: Arc<str>)
    ensures
        r@ == s@,
{
    s.into()
}

impl View for FastString {
    type V = Seq<u8>;

    /// The logical byte content: the UTF-8 encoding of the text.
    open spec fn view(&self) -> Seq<u8> {
        encode_utf8(self.chars())
    }
}

/// Relies on `Arc::clone`: the handle handed back shares the very same
/// buffer, so it carries the same value.
#[verifier::external_body]
fn arc_str_clone(s: &Arc<str>) -> (r: Arc<str>)
    ensures
        r == *s,
{
    s.clone()
}

/// Cloning keeps the variant and the content. The borrowed variants
/// re-borrow their span and the shared variant bumps the reference count:
/// no bytes are copied on any path.
impl Clone for FastString {
    fn clone(&self) -> (r: Self)
        ensures
            r == *self,
    {
        match self {
            FastString::Static(s) => FastString::Static(s),
            FastString::StaticAscii(s) => FastString::StaticAscii(s),
            FastString::Arc(a) => FastString::Arc(arc_str_clone(a)),
        }
    }
}

/// Compares two byte spans for equality of content.
fn bytes_eq(a: &[u8], b: &[u8]) -> (r: bool)
    ensures
        r == (a@ == b@),
{
    if a.len() != b.len() {
        return false;
    }
    let mut i: usize = 0;
    while i < a.len()
        invariant
            a@.len() == b@.len(),
            i <= a@.len(),
            forall|j: int| 0 <= j < i ==> a@[j] == b@[j],
        decreases a@.len() - i,
    {
        if a[i] != b[i] {
            return false;
        }
        i += 1;
    }
    proof {
        assert(a@ =~= b@);
    }
    true
}

/// Lexicographic order on byte content: the order `partial_cmp` follows.
pub open spec fn lex_cmp_bytes(a: Seq<u8>, b: Seq<u8>) -> Ordering
    decreases a.len(),
{
    if a.len() == 0 && b.len() == 0 {
        Ordering::Equal
    } else if a.len() == 0 {
        Ordering::Less
    } else if b.len() == 0 {
        Ordering::Greater
    } else if a[0] < b[0] {
        Ordering::Less
    } else if a[0] > b[0] {
        Ordering::Greater
    } else {
        lex_cmp_bytes(a.drop_first(), b.drop_first())
    }
}

/// The lexicographic order places two spans at `Equal` exactly when they
/// are the same sequence, so the order agrees with equality.
pub proof fn lemma_lex_cmp_equal_iff(a: Seq<u8>, b: Seq<u8>)
    ensures
        (lex_cmp_bytes(a, b) == Ordering::Equal) <==> (a == b),
    decreases a.len(),
{
    if a.len() == 0 && b.len() == 0 {
        assert(a =~= b);
    }
    if a.len() != 0 && b.len() != 0 && a[0] == b[0] {
        lemma_lex_cmp_equal_iff(a.drop_first(), b.drop_first());
        if a.drop_first() == b.drop_first() && a[0] == b[0] {
            assert forall|j: int| 0 <= j < a.len() implies a[j] == b[j] by {
                if j > 0 {
                    assert(a[j] == a.drop_first()[j - 1]);
                    assert(b[j] == b.drop_first()[j - 1]);
                }
            }
            assert(a =~= b);
        }
        if a == b {
            assert(a.drop_first() =~= b.drop_first());
        }
    }
}

/// Skipping a common prefix does not change the comparison.
proof fn lemma_lex_cmp_skip(a: Seq<u8>, b: Seq<u8>, i: int)
    requires
        0 <= i <= a.len(),
        i <= b.len(),
        forall|j: int| 0 <= j < i ==> a[j] == b[j],
    ensures
        lex_cmp_bytes(a, b) == lex_cmp_bytes(a.skip(i), b.skip(i)),
    decreases i,
{
    if i > 0 {
        lemma_lex_cmp_skip(a.drop_first(), b.drop_first(), i - 1);
        assert(a.drop_first().skip(i - 1) =~= a.skip(i));
        assert(b.drop_first().skip(i - 1) =~= b.skip(i));
    } else {
        assert(a.skip(0) =~= a);
        assert(b.skip(0) =~= b);
    }
}

/// Compares two byte spans lexicographically.
fn bytes_cmp(a: &[u8], b: &[u8]) -> (r: Ordering)
    ensures
        r == lex_cmp_bytes(a@, b@),
{
    let a_len = a.len();
    let b_len = b.len();
    let n = if a_len < b_len {
        a_len
    } else {
        b_len
    };
    let mut i: usize = 0;
    while i < n
        invariant
            n <= a@.len(),
            n <= b@.len(),
            i <= n,
            forall|j: int| 0 <= j < i ==> a@[j] == b@[j],
        decreases n - i,
    {
        if a[i] < b[i] {
            proof {
                lemma_lex_cmp_skip(a@, b@, i as int);
            }
            return Ordering::Less;
        }
        if a[i] > b[i] {
            proof {
                lemma_lex_cmp_skip(a@, b@, i as int);
            }
            return Ordering::Greater;
        }
        i += 1;
    }
    proof {
        lemma_lex_cmp_skip(a@, b@, n as int);
    }
    if a_len < b_len {
        Ordering::Less
    } else if a_len > b_len {
        Ordering::Greater
    } else {
        Ordering::Equal
    }
}

/// Equality is over the byte content alone: two values with the same bytes
/// compare equal whatever their variants.
impl PartialEq for FastString {
    fn eq(&self, other: &Self) -> (r: bool) {
        bytes_eq(self.as_bytes(), other.as_bytes())
    }
}

impl vstd::std_specs::cmp::PartialEqSpecImpl for FastString {
    open spec fn obeys_eq_spec() -> bool {
        true
    }

    open spec fn eq_spec(&self, other: &Self) -> bool {
        self@ == other@
    }
}

impl Eq for FastString {}

/// Ordering, like equality, goes over the byte content alone.
impl PartialOrd for FastString {
    fn partial_cmp(&self, other: &Self) -> (r: Option<Ordering>) {
        Some(bytes_cmp(self.as_bytes(), other.as_bytes()))
    }
}

impl vstd::std_specs::cmp::PartialOrdSpecImpl for FastString {
    open spec fn obeys_partial_cmp_spec() -> bool {
        true
    }

    open spec fn partial_cmp_spec(&self, other: &Self) -> Option<Ordering> {
        Some(lex_cmp_bytes(self@, other@))
    }
}

/// The content of any value is valid UTF-8: every variant is backed by
/// honest text, so its byte view decodes.
pub proof fn lemma_view_valid_utf8(v: &FastString)
    ensures
        valid_utf8(v@),
{
    encode_utf8_valid_utf8(v.chars());
}

/// In pure ASCII content every in-bounds index lies on a character
/// boundary, so any prefix length is a valid truncation point.
pub proof fn lemma_ascii_index_is_boundary(v: &FastString, index: int)
    requires
        ascii_bytes(v@),
        0 <= index <= v@.len(),
    ensures
        is_char_boundary(v@, index),
{
    lemma_view_valid_utf8(v);
    if index == v@.len() {
        is_char_boundary_start_end_of_seq(v@);
    } else {
        is_char_boundary_iff_not_is_continuation_byte(v@, index);
    }
}

/// Round-trip identity: classifying a pure ASCII span yields a value whose
/// ASCII query hands back exactly that span's bytes; a span with any byte
/// at or above 0x80 yields a value whose ASCII query hands back nothing.
pub proof fn lemma_static_round_trip(s: &'static str)
    ensures
        ascii_bytes(s.spec_bytes()) ==> FastString::spec_from_static(s).spec_try_static_ascii()
            == Some(s.spec_bytes()),
        !ascii_bytes(s.spec_bytes()) ==> FastString::spec_from_static(s).spec_try_static_ascii()
            is None,
{
}

/// Content equality across variants: two values are equal exactly when
/// their byte contents are, whatever pair of variants holds them.
pub proof fn lemma_eq_is_content_only(a: &FastString, b: &FastString)
    ensures
        a.eq_spec(b) <==> a@ == b@,
{
}

/// Engine-path selection is by variant, never by content: a value not
/// tagged `StaticAscii` offers no borrowed ASCII span even when every byte
/// of its content is ASCII, since the scan never runs outside construction.
pub proof fn lemma_selection_by_variant(v: &FastString)
    ensures
        v.spec_try_static_ascii() matches Some(b) ==> v is StaticAscii && b == v@,
        !(v is StaticAscii) ==> v.spec_try_static_ascii() is None,
        (v is Static || v is Arc) && ascii_bytes(v@) ==> v.spec_try_static_ascii() is None,
{
}

/// Relies on `str`'s `Hash::hash`: it feeds the hasher from the given text
/// alone.
#[verifier::external_body]
fn str_hash<H: core::hash::Hasher>(s: &str, state: &mut H) {
    core::hash::Hash::hash(s, state)
}

/// Hashing, like equality, goes over the content alone, so values equal in
/// content hash identically whatever their variants hold.
impl core::hash::Hash for FastString {
    fn hash<H: core::hash::Hasher>(&self, state: &mut H) {
        str_hash(self.as_str(), state)
    }
}

/// A value can stand in for its text content, e.g. as a map key looked up
/// by string.
impl core::borrow::Borrow<str> for FastString {
    fn borrow(&self) -> (r: &str) {
        self.as_str()
    }
}

/// A value exposes its text content, as the text types of std do.
impl AsRef<str> for FastString {
    fn as_ref(&self) -> (r: &str) {
        self.as_str()
    }
}

/// An owned string converts with no scan and no byte copy, as in
/// `from_ownable`: runtime text gains nothing from the ASCII fast path.
impl From<String> for FastString {
    fn from(s: String) -> (r: Self)
        ensures
            r.wf(),
            r.chars() == s@,
            r is Arc,
    {
        FastString::from_ownable(s)
    }
}

impl vstd::std_specs::convert::FromSpecImpl<String> for FastString {
    open spec fn obeys_from_spec() -> bool {
        false
    }

    open spec fn from_spec(s: String) -> FastString {
        arbitrary()
    }
}

/// The default value is the empty string: trivially ASCII, no allocation.
impl Default for FastString {
    fn default() -> (r: Self)
        ensures
            r == FastString::StaticAscii(""),
            r.wf(),
            r@ == Seq::<u8>::empty(),
    {
        proof {
            reveal_strlit("");
            assert(""@ =~= Seq::<char>::empty());
            assert(encode_utf8(Seq::<char>::empty()) =~= Seq::<u8>::empty());
        }
        FastString::StaticAscii("")
    }
}

} // verus!
