//! The inspector protocol's string views: borrowed runs of 8-bit (Latin-1)
//! or 16-bit (UTF-16) code units.

use vstd::prelude::*;

verus! {

/// The characters a run of Latin-1 bytes stands for: byte `b` is the code
/// point `b`.
pub open spec fn latin1_chars(bytes: Seq<u8>) -> Seq<char> {
    bytes.map_values(|b: u8| b as char)
}

/// Latin-1 text has one character per byte, whose code point is the byte's
/// value: no byte is replaced, dropped or merged with another.
pub proof fn lemma_latin1_byte_is_code_point(bytes: Seq<u8>)
    ensures
        latin1_chars(bytes).len() == bytes.len(),
        forall|i: int| 0 <= i < bytes.len() ==> #[trigger] latin1_chars(bytes)[i] as u32
            == bytes[i] as u32,
{
}

/// UTF-16 decoding with replacement: a unit outside the surrogate range is
/// its own code point; a leading surrogate followed by a trailing one makes
/// the supplementary code point they encode; every other surrogate becomes
/// U+FFFD on its own, and decoding resumes at the next unit.
pub open spec fn utf16_lossy(units: Seq<u16>) -> Seq<char>
    decreases units.len(),
{
    if units.len() == 0 {
        Seq::empty()
    } else if units[0] < 0xD800 || units[0] > 0xDFFF {
        seq![units[0] as char] + utf16_lossy(units.skip(1))
    } else if units[0] <= 0xDBFF && units.len() >= 2 && 0xDC00 <= units[1] <= 0xDFFF {
        seq![(0x10000 + (units[0] - 0xD800) * 0x400 + (units[1] - 0xDC00)) as char]
            + utf16_lossy(units.skip(2))
    } else {
        seq!['\u{FFFD}'] + utf16_lossy(units.skip(1))
    }
}

/// Calls `String::from_utf16_lossy`, which decodes UTF-16 and puts U+FFFD
/// in place of each unpaired surrogate, as `utf16_lossy` states.
#[verifier::external_body]
fn decode_utf16_lossy(units: &[u16]) -> (r: String)
    ensures
        r@ == utf16_lossy(units@),
{
    String::from_utf16_lossy(units)
}

/// Calls `String::push`, which appends one character.
#[verifier::external_body]
fn push_char(s: &mut String, c: char)
    ensures
        final(s)@ == old(s)@.push(c),
{
    s.push(c);
}

/// A borrowed run of code units. The empty array holds no buffer at all.
#[derive(Copy, Clone, Debug)]
pub struct CharacterArray<'a, T> {
    characters: Option<&'a [T]>,
}

impl<'a, T> View for CharacterArray<'a, T> {
    type V = Seq<T>;

    /// The code units, in order.
    closed spec fn view(&self) -> Seq<T> {
        match self.characters {
            Some(s) => s@,
            None => Seq::empty(),
        }
    }
}

impl CharacterArray<'static, u8> {
    /// The empty array, which points at no buffer.
    pub fn empty() -> (r: Self)
        ensures
            r@ == Seq::<u8>::empty(),
    {
        CharacterArray { characters: None }
    }
}

impl<'a, T: Copy> CharacterArray<'a, T> {
    /// Builds the array over a borrowed slice.
    pub fn from_slice(v: &'a [T]) -> (r: Self)
        ensures
            r == Self::spec_from_slice(v),
            r@ == v@,
    {
        CharacterArray { characters: Some(v) }
    }

    /// The number of code units.
    pub fn len(&self) -> (r: usize)
        ensures
            r == self@.len(),
    {
        match self.characters {
            Some(s) => s.len(),
            None => 0,
        }
    }

    /// The code unit at `index`, or `None` past the end.
    pub fn get_at(&self, index: usize) -> (r: Option<T>)
        ensures
            r == (if index < self@.len() {
                Some(self@[index as int])
            } else {
                None
            }),
    {
        match self.characters {
            Some(s) => {
                if index < s.len() {
                    Some(s[index])
                } else {
                    None
                }
            },
            None => None,
        }
    }

    /// The code units as a slice; empty when no buffer is held.
    pub fn as_slice(&self) -> (r: &'a [T])
        ensures
            r@ == self@,
    {
        match self.characters {
            Some(s) => s,
            None => &[],
        }
    }
}

impl<'a, T: Copy> From<&'a [T]> for CharacterArray<'a, T> {
    fn from(v: &'a [T]) -> (r: Self) {
        CharacterArray { characters: Some(v) }
    }
}

impl<'a, T: Copy> vstd::std_specs::convert::FromSpecImpl<&'a [T]> for CharacterArray<'a, T> {
    open spec fn obeys_from_spec() -> bool {
        true
    }

    open spec fn from_spec(v: &'a [T]) -> Self {
        CharacterArray::spec_from_slice(v)
    }
}

impl<'a, T> CharacterArray<'a, T> {
    /// The array over the slice `v`.
    pub closed spec fn spec_from_slice(v: &'a [T]) -> Self {
        CharacterArray { characters: Some(v) }
    }

    /// An array built over `v` holds exactly the units of `v`.
    pub broadcast proof fn lemma_from_slice_view(v: &'a [T])
        ensures
            #[trigger] Self::spec_from_slice(v)@ == v@,
    {
    }
}

impl<'a> CharacterArray<'a, u8> {
    /// The text: each byte is read as a Latin-1 character.
    pub fn to_string(&self) -> (r: String)
        ensures
            r@ == latin1_chars(self@),
            r@.len() == self@.len(),
            forall|i: int| 0 <= i < self@.len() ==> #[trigger] r@[i] as u32 == self@[i] as u32,
    {
        let bytes = self.as_slice();
        let mut s = String::new();
        let mut i: usize = 0;
        while i < bytes.len()
            invariant
                i <= bytes@.len(),
                bytes@ == self@,
                s@ == latin1_chars(bytes@.take(i as int)),
            decreases bytes@.len() - i,
        {
            push_char(&mut s, bytes[i] as char);
            assert(bytes@.take(i + 1) == bytes@.take(i as int).push(bytes@[i as int]));
            i = i + 1;
        }
        assert(bytes@.take(i as int) == bytes@);
        s
    }
}

impl<'a> CharacterArray<'a, u16> {
    /// The text: the units are decoded as UTF-16, with U+FFFD in place of
    /// each unpaired surrogate.
    pub fn to_string(&self) -> (r: String)
        ensures
            r@ == utf16_lossy(self@),
    {
        decode_utf16_lossy(self.as_slice())
    }
}

/// A view of a string, either as 16-bit (UTF-16) or 8-bit (Latin-1) code
/// units.
#[derive(Copy, Clone, Debug)]
pub enum StringView<'a> {
    U16(CharacterArray<'a, u16>),
    U8(CharacterArray<'a, u8>),
}

impl<'a> StringView<'a> {
    /// The code units, each widened to 16 bits.
    pub open spec fn units(self) -> Seq<u16> {
        match self {
            StringView::U16(v) => v@,
            StringView::U8(v) => v@.map_values(|b: u8| b as u16),
        }
    }

    /// The text the view stands for.
    pub open spec fn text(self) -> Seq<char> {
        match self {
            StringView::U16(v) => utf16_lossy(v@),
            StringView::U8(v) => latin1_chars(v@),
        }
    }
}

impl StringView<'static> {
    /// The empty 8-bit view.
    pub fn empty() -> (r: Self)
        ensures
            r is U8,
            r.units() == Seq::<u16>::empty(),
    {
        StringView::U8(CharacterArray::<'static, u8>::empty())
    }
}

impl<'a> From<&'a [u8]> for StringView<'a> {
    fn from(v: &'a [u8]) -> (r: Self) {
        StringView::U8(CharacterArray::from_slice(v))
    }
}

impl<'a> vstd::std_specs::convert::FromSpecImpl<&'a [u8]> for StringView<'a> {
    open spec fn obeys_from_spec() -> bool {
        true
    }

    open spec fn from_spec(v: &'a [u8]) -> Self {
        StringView::U8(CharacterArray::spec_from_slice(v))
    }
}

impl<'a> From<&'a [u16]> for StringView<'a> {
    fn from(v: &'a [u16]) -> (r: Self) {
        StringView::U16(CharacterArray::from_slice(v))
    }
}

impl<'a> vstd::std_specs::convert::FromSpecImpl<&'a [u16]> for StringView<'a> {
    open spec fn obeys_from_spec() -> bool {
        true
    }

    open spec fn from_spec(v: &'a [u16]) -> Self {
        StringView::U16(CharacterArray::spec_from_slice(v))
    }
}

impl<'a> StringView<'a> {
    /// Whether the view holds 8-bit units.
    pub fn is_8bit(&self) -> (r: bool)
        ensures
            r == (*self is U8),
    {
        match self {
            StringView::U16(..) => false,
            StringView::U8(..) => true,
        }
    }

    /// Whether the view holds no code unit.
    pub fn is_empty(&self) -> (r: bool)
        ensures
            r == (self.units().len() == 0),
    {
        self.len() == 0
    }

    /// The number of code units.
    pub fn len(&self) -> (r: usize)
        ensures
            r == self.units().len(),
    {
        match self {
            StringView::U16(v) => v.len(),
            StringView::U8(v) => v.len(),
        }
    }

    /// The 8-bit units, if the view holds 8-bit units.
    pub fn characters8(&self) -> (r: Option<&'a [u8]>)
        ensures
            match *self {
                StringView::U8(v) => r is Some && r->0@ == v@,
                StringView::U16(_) => r is None,
            },
    {
        match self {
            StringView::U16(..) => None,
            StringView::U8(v) => Some(v.as_slice()),
        }
    }

    /// The 16-bit units, if the view holds 16-bit units.
    pub fn characters16(&self) -> (r: Option<&'a [u16]>)
        ensures
            match *self {
                StringView::U16(v) => r is Some && r->0@ == v@,
                StringView::U8(_) => r is None,
            },
    {
        match self {
            StringView::U16(v) => Some(v.as_slice()),
            StringView::U8(..) => None,
        }
    }

    /// The text: 16-bit views are decoded as UTF-16 (lossily), 8-bit views as
    /// Latin-1.
    pub fn to_string(&self) -> (r: String)
        ensures
            r@ == self.text(),
            self is U8 ==> r@.len() == self.units().len() && forall|i: int|
                0 <= i < self.units().len() ==> #[trigger] r@[i] as u32 == self.units()[i] as u32,
    {
        match self {
            StringView::U16(v) => v.to_string(),
            StringView::U8(v) => v.to_string(),
        }
    }

    /// An iterator over the code units, each widened to 16 bits.
    pub fn iter(&self) -> (r: StringViewIterator<'a>)
        ensures
            r.view == *self,
            r.pos == 0,
    {
        StringViewIterator { view: *self, pos: 0 }
    }
}

/// Walks the code units of a view, widening 8-bit units to 16 bits.
#[derive(Copy, Clone, Debug)]
pub struct StringViewIterator<'a> {
    pub view: StringView<'a>,
    pub pos: usize,
}

impl<'a> StringViewIterator<'a> {
    /// The unit at the current position, moving past it; `None`, with the
    /// position left as it was, once every unit has been handed out.
    pub fn next(&mut self) -> (r: Option<u16>)
        ensures
            final(self).view == old(self).view,
            old(self).pos < old(self).view.units().len() ==> {
                &&& r == Some(old(self).view.units()[old(self).pos as int])
                &&& final(self).pos == old(self).pos + 1
            },
            old(self).pos >= old(self).view.units().len() ==> {
                &&& r is None
                &&& final(self).pos == old(self).pos
            },
    {
        let total = self.view.len();
        let unit = match self.view {
            StringView::U16(v) => v.get_at(self.pos),
            StringView::U8(v) => match v.get_at(self.pos) {
                Some(b) => Some(b as u16),
                None => None,
            },
        };
        match unit {
            Some(u) => {
                assert(self.pos < total);
                self.pos = self.pos + 1;
                Some(u)
            },
            None => None,
        }
    }

    /// The number of units in the whole view, whatever has been handed out.
    pub fn len(&self) -> (r: usize)
        ensures
            r == self.view.units().len(),
    {
        self.view.len()
    }
}

/// How far the inspector trusts its client.
#[derive(Copy, Clone, Debug, PartialEq, Eq, Hash, Structural)]
pub enum V8InspectorClientTrustLevel {
    Untrusted,
    FullyTrusted,
}

} // verus!
