//! The closed table of encodings, and the labels that name them.

use vstd::prelude::*;

verus! {

/// An encoding that the dispatcher can decode.
#[derive(Debug, Clone, Copy, PartialEq, Eq)]
pub enum Charset {
    Big5,
    EucJp,
    EucKr,
    Gb18030,
    Gbk,
    Utf8,
    Utf16Be,
    Utf16Le,
}

/// The lower-case form of an ASCII capital letter; any other character
/// unchanged.
pub open spec fn lower_char(c: char) -> char {
    if 'A' <= c && c <= 'Z' {
        ((c as u32) + 32) as char
    } else {
        c
    }
}

/// A label in its normal form: with its ASCII capital letters made lower
/// case.
pub open spec fn normalized(label: Seq<char>) -> Seq<char> {
    Seq::new(label.len(), |i: int| lower_char(label[i]))
}

impl Charset {
    /// The table itself: the encoding that a label in normal form names.
    /// Both `"utf-8"` and `"ascii"` name UTF-8, of which ASCII is a subset.
    pub open spec fn of_normalized(key: Seq<char>) -> Option<Charset> {
        if key == "big5"@ {
            Some(Charset::Big5)
        } else if key == "euc-jp"@ {
            Some(Charset::EucJp)
        } else if key == "euc-kr"@ {
            Some(Charset::EucKr)
        } else if key == "gb18030"@ {
            Some(Charset::Gb18030)
        } else if key == "gbk"@ {
            Some(Charset::Gbk)
        } else if key == "utf-8"@ || key == "ascii"@ {
            Some(Charset::Utf8)
        } else if key == "utf-16be"@ {
            Some(Charset::Utf16Be)
        } else if key == "utf-16le"@ {
            Some(Charset::Utf16Le)
        } else {
            None
        }
    }

    /// The encoding that a label names once it is in normal form, if the
    /// table holds it.
    pub open spec fn of_label(label: Seq<char>) -> Option<Charset> {
        Self::of_normalized(normalized(label))
    }

    /// True of the two encodings whose unit is two bytes wide.
    pub open spec fn is_utf16(self) -> bool {
        self == Charset::Utf16Be || self == Charset::Utf16Le
    }

    /// Looks a label in normal form up in the table. The table tells letter
    /// case apart.
    pub fn from_normalized(key: &str) -> (found: Option<Charset>)
        ensures
            found == Self::of_normalized(key@),
    {
        if same_text(key, "big5") {
            Some(Charset::Big5)
        } else if same_text(key, "euc-jp") {
            Some(Charset::EucJp)
        } else if same_text(key, "euc-kr") {
            Some(Charset::EucKr)
        } else if same_text(key, "gb18030") {
            Some(Charset::Gb18030)
        } else if same_text(key, "gbk") {
            Some(Charset::Gbk)
        } else if same_text(key, "utf-8") || same_text(key, "ascii") {
            Some(Charset::Utf8)
        } else if same_text(key, "utf-16be") {
            Some(Charset::Utf16Be)
        } else if same_text(key, "utf-16le") {
            Some(Charset::Utf16Le)
        } else {
            None
        }
    }

    /// Looks a label up in the table, whatever the case of its letters.
    pub fn from_label(label: &str) -> (found: Option<Charset>)
        ensures
            found == Self::of_label(label@),
    {
        let key = normalize(label);
        Self::from_normalized(key.as_str())
    }
}

/// `String::push` of std appends one character to the text. Taken on trust.
pub assume_specification[ String::push ](text: &mut String, ch: char)
    ensures
        final(text)@ == old(text)@.push(ch),
;

/// The lower-case form of a character.
fn to_lower(c: char) -> (lowered: char)
    ensures
        lowered == lower_char(c),
{
    if 'A' <= c && c <= 'Z' {
        ((c as u8) + 32) as char
    } else {
        c
    }
}

/// Brings a label into normal form.
pub fn normalize(label: &str) -> (key: String)
    ensures
        key@ == normalized(label@),
{
    broadcast use vstd::string::group_string_axioms;

    let mut key = String::new();
    for c in chars: label.chars()
        invariant
            chars.seq() == label@,
            key@ == normalized(label@.take(chars.index() as int)),
    {
        key.push(to_lower(c));
    }
    key
}

/// Tells whether two texts are the same, by their bytes: UTF-8 gives each
/// text bytes of its own.
fn same_text(left: &str, right: &str) -> (same: bool)
    ensures
        same == (left@ == right@),
{
    let a = left.as_bytes();
    let b = right.as_bytes();
    proof {
        vstd::utf8::encode_utf8_decode_utf8(left@);
        vstd::utf8::encode_utf8_decode_utf8(right@);
    }
    if a.len() != b.len() {
        return false;
    }
    let mut i: usize = 0;
    while i < a.len()
        invariant
            i <= a.len(),
            a.len() == b.len(),
            a@ == vstd::utf8::encode_utf8(left@),
            b@ == vstd::utf8::encode_utf8(right@),
            forall|j: int| 0 <= j < i ==> a@[j] == b@[j],
        decreases a.len() - i,
    {
        if a[i] != b[i] {
            return false;
        }
        i += 1;
    }
    assert(a@ =~= b@);
    true
}

/// The nine labels of the table, as they are written there, are in normal
/// form and name the eight encodings.
pub proof fn lemma_table()
    ensures
        Charset::of_label("big5"@) == Some(Charset::Big5),
        Charset::of_label("euc-jp"@) == Some(Charset::EucJp),
        Charset::of_label("euc-kr"@) == Some(Charset::EucKr),
        Charset::of_label("gb18030"@) == Some(Charset::Gb18030),
        Charset::of_label("gbk"@) == Some(Charset::Gbk),
        Charset::of_label("utf-8"@) == Some(Charset::Utf8),
        Charset::of_label("ascii"@) == Some(Charset::Utf8),
        Charset::of_label("utf-16be"@) == Some(Charset::Utf16Be),
        Charset::of_label("utf-16le"@) == Some(Charset::Utf16Le),
{
    reveal_strlit("big5");
    reveal_strlit("euc-jp");
    reveal_strlit("euc-kr");
    reveal_strlit("gb18030");
    reveal_strlit("gbk");
    reveal_strlit("utf-8");
    reveal_strlit("ascii");
    reveal_strlit("utf-16be");
    reveal_strlit("utf-16le");
    assert(normalized("big5"@) =~= "big5"@);
    assert(normalized("euc-jp"@) =~= "euc-jp"@);
    assert(normalized("euc-kr"@) =~= "euc-kr"@);
    assert(normalized("gb18030"@) =~= "gb18030"@);
    assert(normalized("gbk"@) =~= "gbk"@);
    assert(normalized("utf-8"@) =~= "utf-8"@);
    assert(normalized("ascii"@) =~= "ascii"@);
    assert(normalized("utf-16be"@) =~= "utf-16be"@);
    assert(normalized("utf-16le"@) =~= "utf-16le"@);
    assert("euc-kr"@[4] != "euc-jp"@[4]);
    assert("utf-16le"@[6] != "utf-16be"@[6]);
}

} // verus!
