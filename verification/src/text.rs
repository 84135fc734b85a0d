//! Styled text: a string is a row of texts, each with a style of its own.

use vstd::prelude::*;
use vstd::string::{StrSliceExecFns, StringExecFns};
use crate::types::{Color, Coords3D, FormattedString, FormattedText, GenericStyle};

verus! {

/// A style that a text can carry. Each kind of style has a plain one, which
/// unstyled text gets.
pub trait TextStyle: Copy {
    spec fn spec_plain() -> Self;

    fn plain() -> (style: Self)
        ensures
            style == Self::spec_plain(),
    ;
}

impl TextStyle for GenericStyle {
    open spec fn spec_plain() -> Self {
        GenericStyle::Default
    }

    fn plain() -> (style: Self) {
        GenericStyle::Default
    }
}

impl Default for GenericStyle {
    fn default() -> (style: Self)
        ensures
            style == GenericStyle::Default,
    {
        GenericStyle::Default
    }
}

impl Default for Color {
    fn default() -> (color: Self)
        ensures
            color == Color::White,
    {
        Color::White
    }
}

/// What a text holds: its characters and its style.
pub struct FormattedTextView<T> {
    pub s: Seq<char>,
    pub style: T,
}

/// What a string holds: its texts in order, and the cell it speaks of.
pub struct FormattedStringView<T> {
    pub texts: Seq<FormattedTextView<T>>,
    pub origin: Option<Coords3D>,
}

impl<T> View for FormattedText<T> {
    type V = FormattedTextView<T>;

    open spec fn view(&self) -> FormattedTextView<T> {
        FormattedTextView { s: self.s@, style: self.style }
    }
}

impl<T> View for FormattedString<T> {
    type V = FormattedStringView<T>;

    open spec fn view(&self) -> FormattedStringView<T> {
        FormattedStringView {
            texts: self.texts@.map_values(|t: FormattedText<T>| t@),
            origin: self.origin,
        }
    }
}

/// The three dots that stand for what a truncation cut off.
pub open spec fn spec_ellipsis() -> Seq<char> {
    seq!['.', '.', '.']
}

/// The smaller of two numbers.
pub open spec fn spec_min(a: int, b: int) -> int {
    if a <= b {
        a
    } else {
        b
    }
}

/// The characters of a text cut down for a width of `max_chars`: a text
/// shorter than `max_chars - 3` stays; of a longer one the first
/// `max_chars - 2` characters stay, and three dots follow.
pub open spec fn spec_truncate_chars(s: Seq<char>, max_chars: int) -> Seq<char> {
    if s.len() < max_chars - 3 {
        s
    } else {
        s.take(spec_min(s.len() as int, max_chars - 2)) + spec_ellipsis()
    }
}

/// The texts of a string cut down from text `k` on, where the texts before
/// `k` hold `count` characters and `max` may be held before the dots: texts
/// stay whole while the count stays under `max`; the text that reaches
/// `max` keeps one character more than fit, and plain dots end the row.
pub open spec fn spec_truncate_texts<T: TextStyle>(
    texts: Seq<FormattedTextView<T>>,
    k: int,
    count: int,
    max: int,
) -> Seq<FormattedTextView<T>>
    decreases texts.len() - k,
{
    if k < 0 || k >= texts.len() {
        Seq::empty()
    } else if count + texts[k].s.len() < max {
        seq![texts[k]] + spec_truncate_texts(texts, k + 1, count + texts[k].s.len(), max)
    } else {
        seq![
            FormattedTextView {
                s: texts[k].s.take(spec_min(texts[k].s.len() as int, max - count + 1)),
                style: texts[k].style,
            },
            FormattedTextView { s: spec_ellipsis(), style: T::spec_plain() },
        ]
    }
}

/// The characters of all texts of a row, one after the other.
pub open spec fn spec_flatten<T>(texts: Seq<FormattedTextView<T>>) -> Seq<char>
    decreases texts.len(),
{
    if texts.len() == 0 {
        Seq::empty()
    } else {
        spec_flatten(texts.drop_last()) + texts.last().s
    }
}

impl<T: TextStyle> Clone for FormattedText<T> {
    fn clone(&self) -> (text: Self)
        ensures
            text == *self,
    {
        FormattedText { s: self.s.clone(), style: self.style }
    }
}

impl<T: TextStyle> FormattedText<T> {
    pub fn new(s: &str, style: T) -> (text: Self)
        ensures
            text@ == (FormattedTextView { s: s@, style }),
    {
        FormattedText { s: String::from_str(s), style }
    }

    /// Cuts the text down for a width of `max_chars`.
    pub fn truncate(&self, max_chars: usize) -> (text: FormattedText<T>)
        requires
            max_chars >= 3,
        ensures
            text@ == (FormattedTextView {
                s: spec_truncate_chars(self@.s, max_chars as int),
                style: self@.style,
            }),
    {
        let max: usize = max_chars - 3;
        let len: usize = self.s.as_str().unicode_len();
        if len < max {
            FormattedText { s: self.s.clone(), style: self.style }
        } else {
            let kept: usize = if len <= max {
                len
            } else {
                max + 1
            };
            let head = self.s.as_str().substring_char(0, kept);
            let mut s = String::from_str(head);
            s.append("...");
            proof {
                reveal_strlit("...");
                assert("..."@ =~= spec_ellipsis());
                assert(self.s@.take(kept as int) =~= self.s@.subrange(0, kept as int));
            }
            FormattedText { s, style: self.style }
        }
    }
}

impl<T: TextStyle> Clone for FormattedString<T> {
    fn clone(&self) -> (string: Self)
        ensures
            string@ == self@,
    {
        let mut texts: Vec<FormattedText<T>> = Vec::new();
        let mut k: usize = 0;
        while k < self.texts.len()
            invariant
                k <= self.texts.len(),
                texts@ == self.texts@.take(k as int),
            decreases self.texts.len() - k,
        {
            texts.push(self.texts[k].clone());
            assert(self.texts@.take(k as int).push(self.texts@[k as int]) =~= self.texts@.take(
                k + 1,
            ));
            k += 1;
        }
        assert(self.texts@.take(k as int) =~= self.texts@);
        FormattedString { texts, origin: self.origin }
    }
}

impl<T: TextStyle> FormattedString<T> {
    /// A string of one text.
    pub fn from(origin: &Option<Coords3D>, text: FormattedText<T>) -> (string: Self)
        ensures
            string@ == (FormattedStringView { texts: seq![text@], origin: *origin }),
    {
        let mut texts: Vec<FormattedText<T>> = Vec::new();
        texts.push(text);
        let string = FormattedString { origin: *origin, texts };
        assert(string@.texts =~= seq![text@]);
        string
    }

    /// Puts `text` before the text at `index`, or behind the last one.
    pub fn insert(&mut self, index: usize, text: FormattedText<T>)
        requires
            index <= old(self)@.texts.len(),
        ensures
            final(self)@ == (FormattedStringView {
                texts: old(self)@.texts.insert(index as int, text@),
                origin: old(self)@.origin,
            }),
    {
        self.texts.insert(index, text);
        assert(self@.texts =~= old(self)@.texts.insert(index as int, text@));
    }

    /// A string of one text in the plain style.
    pub fn raw(origin: &Option<Coords3D>, s: &str) -> (string: Self)
        ensures
            string@ == (FormattedStringView {
                texts: seq![FormattedTextView { s: s@, style: T::spec_plain() }],
                origin: *origin,
            }),
    {
        Self::from(origin, FormattedText::new(s, T::plain()))
    }

    /// Puts `text` behind the last text.
    pub fn push(&mut self, text: FormattedText<T>)
        ensures
            final(self)@ == (FormattedStringView {
                texts: old(self)@.texts.push(text@),
                origin: old(self)@.origin,
            }),
    {
        self.texts.push(text);
        assert(self@.texts =~= old(self)@.texts.push(text@));
    }

    /// The cell that the string speaks of, if any.
    pub fn origin(&self) -> (origin: &Option<Coords3D>)
        ensures
            *origin == self@.origin,
    {
        &self.origin
    }

    /// The characters of the string, without the styles.
    pub fn text(&self) -> (s: String)
        ensures
            s@ == spec_flatten(self@.texts),
    {
        let mut s = String::new();
        let mut k: usize = 0;
        while k < self.texts.len()
            invariant
                k <= self.texts.len(),
                s@ == spec_flatten(self@.texts.take(k as int)),
            decreases self.texts.len() - k,
        {
            s.append(self.texts[k].s.as_str());
            proof {
                let next = self@.texts.take(k + 1);
                assert(next.drop_last() =~= self@.texts.take(k as int));
                assert(next.last().s == self.texts@[k as int].s@);
            }
            k += 1;
        }
        assert(self@.texts.take(k as int) =~= self@.texts);
        s
    }

    /// Cuts the string down for a width of `max_chars`; the origin stays.
    pub fn truncate(&self, max_chars: usize) -> (string: FormattedString<T>)
        requires
            max_chars >= 3,
        ensures
            string@ == (FormattedStringView {
                texts: spec_truncate_texts(self@.texts, 0, 0, max_chars - 3),
                origin: self@.origin,
            }),
    {
        let max: usize = max_chars - 3;
        let mut texts: Vec<FormattedText<T>> = Vec::new();
        let mut count: usize = 0;
        let mut k: usize = 0;
        let ghost view_of = |t: FormattedText<T>| t@;
        while k < self.texts.len()
            invariant
                k <= self.texts.len(),
                max == max_chars - 3,
                count < max || (count == 0 && k == 0),
                view_of == |t: FormattedText<T>| t@,
                spec_truncate_texts(self@.texts, 0, 0, max as int) == texts@.map_values(view_of)
                    + spec_truncate_texts(self@.texts, k as int, count as int, max as int),
            decreases self.texts.len() - k,
        {
            let text = &self.texts[k];
            let len: usize = text.s.as_str().unicode_len();
            assert(self@.texts[k as int] == text@);
            let fits: bool = match count.checked_add(len) {
                Some(c) => c < max,
                None => false,
            };
            if fits {
                let ghost before = texts@;
                texts.push(text.clone());
                assert(texts@.map_values(view_of) =~= before.map_values(view_of) + seq![text@]);
                assert(texts@.map_values(view_of) + spec_truncate_texts(
                    self@.texts,
                    k + 1,
                    count + len,
                    max as int,
                ) =~= before.map_values(view_of) + (seq![text@] + spec_truncate_texts(
                    self@.texts,
                    k + 1,
                    count + len,
                    max as int,
                )));
                count = count + len;
                k += 1;
            } else {
                let room: usize = max - count + 1;
                let kept: usize = if len <= room {
                    len
                } else {
                    room
                };
                let head = text.s.as_str().substring_char(0, kept);
                let cut = FormattedText { s: String::from_str(head), style: text.style };
                let dots = FormattedText::new("...", T::plain());
                let ghost before = texts@;
                texts.push(cut);
                texts.push(dots);
                proof {
                    reveal_strlit("...");
                    assert("..."@ =~= spec_ellipsis());
                    assert(text.s@.take(kept as int) =~= text.s@.subrange(0, kept as int));
                    assert(texts@.map_values(view_of) =~= before.map_values(view_of) + seq![
                        cut@,
                        dots@,
                    ]);
                }
                let string = FormattedString { texts, origin: self.origin };
                return string;
            }
        }
        assert(texts@.map_values(view_of) + Seq::<FormattedTextView<T>>::empty()
            =~= texts@.map_values(view_of));
        FormattedString { texts, origin: self.origin }
    }
}

} // verus!
