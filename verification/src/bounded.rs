//! Fixed-capacity containers, kept in `heapless` storage.
//!
//! Verus does not look into `heapless`. What this module says of its calls
//! into that crate is taken on trust; each such function says so.

use vstd::prelude::*;
use vstd::string::StringSliceAdditionalSpecFns;
use crate::tasks::LEDSelect;

verus! {

/// The most LEDs that one pattern can name.
pub const PATTERN_CAPACITY: usize = 20;

/// The most bytes that one text for the display can hold.
pub const TEXT_CAPACITY: usize = 10;

#[verifier::external_type_specification]
#[verifier::external_body]
pub struct ExCapacityError(heapless::CapacityError);

/// An order in which to light LEDs: at most [`PATTERN_CAPACITY`] of them, in a
/// `heapless::Vec`.
#[verifier::external_body]
pub struct LedPattern {
    items: heapless::Vec<LEDSelect, 20>,
}

/// The LEDs that a pattern names, first to last.
pub uninterp spec fn pattern_items(p: LedPattern) -> Seq<LEDSelect>;

/// `heapless::Vec::new`: a vector without items.
#[verifier::external_body]
fn pattern_new() -> (p: LedPattern)
    ensures
        pattern_items(p) == Seq::<LEDSelect>::empty(),
{
    LedPattern { items: heapless::Vec::new() }
}

/// `heapless::Vec::push`: while fewer than the capacity of 20 items are held,
/// the item goes to the back; at capacity nothing changes and the item comes
/// back in the error.
#[verifier::external_body]
fn pattern_push(p: &mut LedPattern, led: LEDSelect) -> (r: Result<(), LEDSelect>)
    ensures
        r is Ok <==> pattern_items(*old(p)).len() < 20,
        r is Ok ==> pattern_items(*final(p)) == pattern_items(*old(p)).push(led),
        r matches Err(back) ==> back == led && pattern_items(*final(p)) == pattern_items(*old(p)),
{
    p.items.push(led)
}

/// `heapless::Vec::as_slice`: the items held, first to last, as a slice. There
/// are never more of them than the capacity of 20.
#[verifier::external_body]
fn pattern_as_slice(p: &LedPattern) -> (s: &[LEDSelect])
    ensures
        s@ == pattern_items(*p),
        s@.len() <= 20,
{
    p.items.as_slice()
}

impl View for LedPattern {
    type V = Seq<LEDSelect>;

    open spec fn view(&self) -> Seq<LEDSelect> {
        pattern_items(*self)
    }
}

impl LedPattern {
    /// A pattern that names no LED.
    pub fn new() -> (p: Self)
        ensures
            p@.len() == 0,
    {
        pattern_new()
    }

    /// Adds `led` at the end, unless the pattern is full: then the pattern
    /// stays as it is and `led` comes back.
    pub fn push(&mut self, led: LEDSelect) -> (r: Result<(), LEDSelect>)
        ensures
            r is Ok <==> old(self)@.len() < PATTERN_CAPACITY,
            r is Ok ==> final(self)@ == old(self)@.push(led),
            r matches Err(back) ==> back == led && final(self)@ == old(self)@,
    {
        pattern_push(self, led)
    }

    /// The number of LEDs named.
    pub fn len(&self) -> (n: usize)
        ensures
            n == self@.len(),
            n <= PATTERN_CAPACITY,
    {
        pattern_as_slice(self).len()
    }

    /// The LED at place `index`, if the pattern is that long.
    pub fn get(&self, index: usize) -> (r: Option<LEDSelect>)
        ensures
            index < self@.len() ==> r == Some(self@[index as int]),
            index >= self@.len() ==> r is None,
    {
        let items = pattern_as_slice(self);
        if index < items.len() {
            Some(items[index])
        } else {
            None
        }
    }
}

/// A short text for the display: at most [`TEXT_CAPACITY`] bytes of UTF-8, in
/// a `heapless::String`.
#[verifier::external_body]
pub struct DisplayText {
    text: heapless::String<10>,
}

/// The characters of a text.
pub uninterp spec fn text_chars(t: DisplayText) -> Seq<char>;

/// `heapless::String::try_from(&str)`: a string with the same characters,
/// where their UTF-8 encoding fits into the capacity of 10 bytes; else the
/// capacity error.
#[verifier::external_body]
fn text_try_from(s: &str) -> (r: Result<DisplayText, heapless::CapacityError>)
    ensures
        r is Ok <==> s.spec_bytes().len() <= 10,
        r matches Ok(t) ==> text_chars(t) == s@,
{
    match heapless::String::try_from(s) {
        Ok(text) => Ok(DisplayText { text }),
        Err(e) => Err(e),
    }
}

/// `heapless::String::as_str`: the characters held, as a string slice.
#[verifier::external_body]
fn text_as_str(t: &DisplayText) -> (s: &str)
    ensures
        s@ == text_chars(*t),
{
    t.text.as_str()
}

/// A text that is too long for the display's buffer.
#[derive(Copy, Clone, Debug, PartialEq, Eq, Structural)]
pub struct TextTooLong;

impl View for DisplayText {
    type V = Seq<char>;

    open spec fn view(&self) -> Seq<char> {
        text_chars(*self)
    }
}

impl DisplayText {
    /// The text with the characters of `s`, if they fit.
    pub fn try_from_str(s: &str) -> (r: Result<Self, TextTooLong>)
        ensures
            r is Ok <==> s.spec_bytes().len() <= TEXT_CAPACITY,
            r matches Ok(t) ==> t@ == s@,
    {
        match text_try_from(s) {
            Ok(t) => Ok(t),
            Err(_) => Err(TextTooLong),
        }
    }

    /// The characters of the text.
    pub fn as_str(&self) -> (s: &str)
        ensures
            s@ == self@,
    {
        text_as_str(self)
    }
}

} // verus!
