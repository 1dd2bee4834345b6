//! Japanese Language support for Haribote OS

use vstd::prelude::*;
use vstd::string::StringSliceAdditionalSpecFns;
use vstd::utf8::valid_utf8;

verus! {

/// How a task's strings are encoded.
#[derive(Debug, Clone, Copy, PartialEq, Eq, Structural)]
pub enum LangMode {
    Ascii,
    ShiftJIS,
    EUC,
}

impl LangMode {
    /// The number that the system call for the language mode reports.
    pub fn to_u32(&self) -> (r: u32)
        ensures
            r == (match *self {
                LangMode::Ascii => 0u32,
                LangMode::ShiftJIS => 1,
                LangMode::EUC => 2,
            }),
    {
        match self {
            LangMode::Ascii => 0,
            LangMode::ShiftJIS => 1,
            LangMode::EUC => 2,
        }
    }
}

/// A character of a string encoded in Japanese Industrial Standards.
#[derive(Debug, Clone, Copy, PartialEq, Eq, Structural)]
pub enum JisChar {
    /// Alphabet Numeric Kana
    ANK(u8),
    /// Jis Kanji Code
    Kanji(u16),
}

/// A String encoded in Japanese Industrial Standards
pub struct JisString<'a>(pub &'a [u8]);

/// Whether `b` leads a two-byte Shift_JIS character.
pub open spec fn is_sjis_lead(b: u8) -> bool {
    (0x81 <= b <= 0x9f) || (0xe0 <= b <= 0xef)
}

/// The JIS kanji code of the Shift_JIS character with bytes `lead` and `trail`.
pub open spec fn sjis_kanji(lead: u8, trail: u8) -> u16 {
    let k: int = if 0x81 <= lead <= 0x9f { (lead - 0x81) * 2 } else { (lead - 0xe0) * 2 + 62 };
    let (k2, t) = if 0x40 <= trail <= 0x7e {
        (k, trail - 0x40)
    } else if 0x80 <= trail <= 0x9e {
        (k, trail - 0x80 + 63)
    } else {
        (k + 1, ((trail - 0x9f) as u8) as int)
    };
    (k2 * 94 + t) as u16
}

/// The character at `index` of `bytes` in language mode `mode`, and where the
/// next one starts; `None` at the end, or where a two-byte character is cut.
pub open spec fn spec_jis_char(bytes: Seq<u8>, index: int, mode: LangMode) -> Option<(JisChar, int)> {
    if index < 0 || index >= bytes.len() {
        None
    } else {
        let lead = bytes[index];
        match mode {
            LangMode::Ascii => Some((JisChar::ANK(lead), index + 1)),
            LangMode::ShiftJIS => if is_sjis_lead(lead) {
                if index + 1 < bytes.len() {
                    Some((JisChar::Kanji(sjis_kanji(lead, bytes[index + 1])), index + 2))
                } else {
                    None
                }
            } else {
                Some((JisChar::ANK(lead), index + 1))
            },
            LangMode::EUC => if 0x81 <= lead <= 0xfe {
                if index + 1 < bytes.len() {
                    Some((
                        JisChar::Kanji(((lead - 0xa1) * 94 + (bytes[index + 1] - 0xa1)) as u16),
                        index + 2,
                    ))
                } else {
                    None
                }
            } else {
                Some((JisChar::ANK(lead), index + 1))
            },
        }
    }
}

impl<'a> JisString<'a> {
    /// The string made of `bytes`.
    pub fn from_bytes(bytes: &'a [u8]) -> (r: Self)
        ensures
            r.0@ == bytes@,
    {
        Self(bytes)
    }

    /// The string's bytes, as UTF-8 text where they are.
    pub fn to_str(&self) -> (r: Option<&'a str>)
        ensures
            r is Some <==> valid_utf8(self.0@),
            r matches Some(t) ==> t.spec_bytes() == self.0@,
    {
        utf8_text(self.0)
    }

    /// The characters of the string in language mode `lang_mode`.
    pub fn chars(&'a self, lang_mode: LangMode) -> (r: JisChars<'a>)
        ensures
            r.data@ == self.0@,
            r.lang_mode == lang_mode,
            r.index == 0,
    {
        JisChars::new(self, lang_mode)
    }
}

/// The bytes as UTF-8 text, where they are valid UTF-8.
///
/// Calls `core::str::from_utf8`, which succeeds exactly where the bytes are
/// valid UTF-8 and then hands back a string slice over the same bytes.
#[verifier::external_body]
fn utf8_text(bytes: &[u8]) -> (r: Option<&str>)
    ensures
        r is Some <==> valid_utf8(bytes@),
        r matches Some(t) ==> t.spec_bytes() == bytes@,
{
    core::str::from_utf8(bytes).ok()
}

/// The characters of a `JisString`, one after the other.
pub struct JisChars<'a> {
    pub data: &'a [u8],
    pub lang_mode: LangMode,
    pub index: usize,
}

impl<'a> JisChars<'a> {
    /// The characters of `data` in language mode `lang_mode`, from the first.
    pub fn new(data: &'a JisString<'a>, lang_mode: LangMode) -> (r: Self)
        ensures
            r.data@ == data.0@,
            r.lang_mode == lang_mode,
            r.index == 0,
    {
        Self { data: data.0, lang_mode, index: 0 }
    }

    /// The next character.
    pub fn next(&mut self) -> (r: Option<JisChar>)
        ensures
            final(self).data == old(self).data,
            final(self).lang_mode == old(self).lang_mode,
            match spec_jis_char(old(self).data@, old(self).index as int, old(self).lang_mode) {
                Some((c, i)) => r == Some(c) && final(self).index == i,
                None => r is None,
            },
    {
        if self.index >= self.data.len() {
            return None;
        }
        let lead = self.data[self.index];
        self.index += 1;
        match self.lang_mode {
            LangMode::Ascii => Some(JisChar::ANK(lead)),
            LangMode::ShiftJIS => {
                if (lead >= 0x81 && lead <= 0x9f) || (lead >= 0xe0 && lead <= 0xef) {
                    if self.index < self.data.len() {
                        let trail = self.data[self.index];
                        self.index += 1;
                        let mut k: u8 = if lead >= 0x81 && lead <= 0x9f {
                            (lead - 0x81) * 2
                        } else {
                            (lead - 0xe0) * 2 + 62
                        };
                        let t: u8;
                        if trail >= 0x40 && trail <= 0x7e {
                            t = trail - 0x40;
                        } else if trail >= 0x80 && trail <= 0x9e {
                            t = trail - 0x80 + 63;
                        } else {
                            t = (trail as i32 - 0x9f) as u8;
                            k += 1;
                        }
                        Some(JisChar::Kanji((k as u16) * 94 + (t as u16)))
                    } else {
                        // invalid character sequence
                        None
                    }
                } else {
                    Some(JisChar::ANK(lead))
                }
            },
            LangMode::EUC => {
                if lead >= 0x81 && lead <= 0xfe {
                    if self.index < self.data.len() {
                        let trail = self.data[self.index];
                        self.index += 1;
                        let code: i32 = (lead as i32 - 0xa1) * 94 + (trail as i32 - 0xa1);
                        Some(JisChar::Kanji(code as u16))
                    } else {
                        None
                    }
                } else {
                    Some(JisChar::ANK(lead))
                }
            },
        }
    }
}

} // verus!
