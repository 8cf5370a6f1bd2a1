//! The settings of a session, and the `WIDTHxHEIGHT` form of a resolution.

use crate::cli::{text_of, ProgramOptions, ProgramOptionsView};
use crate::text::{
    all_digits, decimal, digit_char, digit_of, digits_value, find_char, index_of_char, is_digit,
    lemma_decimal_digits, lemma_digits_value_prefix, lemma_find_char, lemma_parse_decimal,
    parse_number, parse_unsigned, push_decimal, str_eq, unsigned_body,
};
use vstd::prelude::*;
use vstd::string::*;

verus! {

/// A video frame size in pixels.
#[derive(Clone, Copy, Debug, PartialEq, Eq, Structural)]
pub struct Resolution {
    pub height: u16,
    pub width: u16,
}

/// Why a text is not a resolution.
#[derive(Clone, Copy, Debug, PartialEq, Eq, Structural)]
pub enum ResolutionError {
    /// What stands before the first `x` is not a number that fits a width.
    InvalidWidth,
    /// There is no `x`, so no height.
    NoHeight,
    /// What stands after the first `x` is not a number that fits a height.
    InvalidHeight,
}

/// The settings of one session, after defaults, file and command line.
#[derive(Clone, Debug, PartialEq, Eq)]
pub struct ProgramConfig {
    pub port: u16,
    pub device: String,
    /// `None` stands for `auto`: take what the device currently uses.
    pub resolution: Option<Resolution>,
    pub no_audio: bool,
    pub no_echo_cancel: bool,
    pub flip: Option<String>,
}

/// The settings as plain values.
pub struct ProgramConfigView {
    pub port: u16,
    pub device: Seq<char>,
    pub resolution: Option<Resolution>,
    pub no_audio: bool,
    pub no_echo_cancel: bool,
    pub flip: Option<Seq<char>>,
}

impl View for ProgramConfig {
    type V = ProgramConfigView;

    open spec fn view(&self) -> ProgramConfigView {
        ProgramConfigView {
            port: self.port,
            device: self.device@,
            resolution: self.resolution,
            no_audio: self.no_audio,
            no_echo_cancel: self.no_echo_cancel,
            flip: text_of(self.flip),
        }
    }
}

/// The largest number a width or a height can be.
pub open spec fn dimension_max() -> nat {
    0xffff
}

/// The text of a resolution: width, an `x`, height.
pub open spec fn resolution_text(r: Resolution) -> Seq<char> {
    decimal(r.width as nat) + seq!['x'] + decimal(r.height as nat)
}

/// The resolution that a text denotes. The width is what stands before the
/// first `x`, the height what stands between the first `x` and the second,
/// or the end; what follows a second `x` is not looked at.
pub open spec fn parse_resolution(s: Seq<char>) -> Result<Resolution, ResolutionError> {
    let cut = find_char(s, 'x', 0);
    match parse_unsigned(s.subrange(0, cut), dimension_max()) {
        None => Err(ResolutionError::InvalidWidth),
        Some(width) => if cut >= s.len() {
            Err(ResolutionError::NoHeight)
        } else {
            let end = find_char(s, 'x', cut + 1);
            match parse_unsigned(s.subrange(cut + 1, end), dimension_max()) {
                None => Err(ResolutionError::InvalidHeight),
                Some(height) => Ok(Resolution { height: height as u16, width: width as u16 }),
            }
        },
    }
}

/// The word that asks for the device's own resolution.
pub open spec fn auto_text() -> Seq<char> {
    seq!['a', 'u', 't', 'o']
}

/// What a resolution setting denotes: `auto` stands for no fixed resolution,
/// anything else must be a resolution.
pub open spec fn parse_setting(s: Seq<char>) -> Result<Option<Resolution>, ResolutionError> {
    if s == auto_text() {
        Ok(None)
    } else {
        match parse_resolution(s) {
            Ok(r) => Ok(Some(r)),
            Err(e) => Err(e),
        }
    }
}

/// A number written with digits only and without leading zeros.
pub open spec fn is_plain_number(s: Seq<char>) -> bool {
    s.len() > 0 && all_digits(s) && (s.len() > 1 ==> s[0] != '0')
}

/// A text made of a plain number, one `x` and a plain number.
pub open spec fn is_plain_resolution(s: Seq<char>) -> bool {
    let cut = find_char(s, 'x', 0);
    cut < s.len() && is_plain_number(s.subrange(0, cut)) && is_plain_number(
        s.subrange(cut + 1, s.len() as int),
    )
}

/// The settings once the command line has had its say: every option that
/// was given replaces the setting of the same name, and the two switches
/// can only switch off. A resolution given on the command line must be
/// `auto` or a resolution.
pub open spec fn overridden(config: ProgramConfigView, options: ProgramOptionsView) -> Result<
    ProgramConfigView,
    ResolutionError,
> {
    let resolution = match options.resolution {
        Some(text) => parse_setting(text),
        None => Ok(config.resolution),
    };
    match resolution {
        Err(e) => Err(e),
        Ok(size) => Ok(
            ProgramConfigView {
                port: match options.port {
                    Some(p) => p,
                    None => config.port,
                },
                device: match options.device {
                    Some(d) => d,
                    None => config.device,
                },
                resolution: size,
                no_audio: config.no_audio || options.no_audio,
                no_echo_cancel: config.no_echo_cancel || options.no_echo_cancel,
                flip: match options.flip {
                    Some(f) => Some(f),
                    None => config.flip,
                },
            },
        ),
    }
}

impl ProgramConfig {
    /// Lets the command line override these settings.
    pub fn with_options(self, options: &ProgramOptions) -> (merged: Result<
        ProgramConfig,
        ResolutionError,
    >)
        ensures
            match overridden(self@, options@) {
                Ok(expected) => merged matches Ok(config) && config@ == expected,
                Err(e) => merged == Err::<ProgramConfig, ResolutionError>(e),
            },
    {
        let resolution = match &options.resolution {
            Some(text) => match deserialize(text.as_str()) {
                Ok(size) => size,
                Err(e) => {
                    return Err(e);
                },
            },
            None => self.resolution,
        };
        Ok(
            ProgramConfig {
                port: match options.port {
                    Some(p) => p,
                    None => self.port,
                },
                device: match &options.device {
                    Some(d) => d.clone(),
                    None => self.device,
                },
                resolution,
                no_audio: self.no_audio || options.no_audio,
                no_echo_cancel: self.no_echo_cancel || options.no_echo_cancel,
                flip: match &options.flip {
                    Some(f) => Some(f.clone()),
                    None => self.flip,
                },
            },
        )
    }
}

impl Resolution {
    /// Reads a resolution from its `WIDTHxHEIGHT` form.
    pub fn from_str(s: &str) -> (parsed: Result<Resolution, ResolutionError>)
        ensures
            parsed == parse_resolution(s@),
    {
        let n = s.unicode_len();
        let cut = index_of_char(s, 'x', 0);
        let width = match parse_number(s.substring_char(0, cut), 0xffff) {
            Some(w) => w as u16,
            None => {
                return Err(ResolutionError::InvalidWidth);
            },
        };
        if cut >= n {
            return Err(ResolutionError::NoHeight);
        }
        let end = index_of_char(s, 'x', cut + 1);
        match parse_number(s.substring_char(cut + 1, end), 0xffff) {
            Some(h) => Ok(Resolution { height: h as u16, width }),
            None => Err(ResolutionError::InvalidHeight),
        }
    }

    /// The `WIDTHxHEIGHT` form of this resolution.
    pub fn to_string(&self) -> (text: String)
        ensures
            text@ == resolution_text(*self),
    {
        let mut text = String::new();
        push_decimal(&mut text, self.width as u64);
        text.append("x");
        push_decimal(&mut text, self.height as u64);
        proof {
            reveal_strlit("x");
            assert(text@ =~= resolution_text(*self));
        }
        text
    }
}

/// Reads the resolution setting of a configuration: `auto`, or a resolution
/// in its `WIDTHxHEIGHT` form.
pub fn deserialize(s: &str) -> (setting: Result<Option<Resolution>, ResolutionError>)
    ensures
        setting == parse_setting(s@),
        s@ == auto_text() ==> setting == Ok::<Option<Resolution>, ResolutionError>(None),
{
    proof {
        reveal_strlit("auto");
        assert("auto"@ =~= auto_text());
    }
    if str_eq(s, "auto") {
        Ok(None)
    } else {
        match Resolution::from_str(s) {
            Ok(r) => Ok(Some(r)),
            Err(e) => Err(e),
        }
    }
}

/// If `c` stands at `at` and nowhere between `from` and `at`, then `at` is
/// where `find_char` finds it.
pub proof fn lemma_find_char_at(s: Seq<char>, c: char, from: int, at: int)
    requires
        0 <= from <= at <= s.len(),
        at < s.len() ==> s[at] == c,
        forall|j: int| from <= j < at ==> s[j] != c,
    ensures
        find_char(s, c, from) == at,
    decreases at - from,
{
    if from < at {
        lemma_find_char_at(s, c, from + 1, at);
    }
}

/// A plain number is the decimal form of its own value.
pub proof fn lemma_plain_number_is_decimal(s: Seq<char>)
    requires
        is_plain_number(s),
    ensures
        decimal(digits_value(s)) == s,
    decreases s.len(),
{
    let head = s.drop_last();
    let d = digit_of(s.last());
    assert(is_digit(s.last()));
    if s.len() == 1 {
        assert(head =~= Seq::<char>::empty());
        assert(digits_value(head) == 0);
        assert(digits_value(s) == d);
        assert(decimal(d) =~= s);
    } else {
        assert(is_plain_number(head)) by {
            assert forall|i: int| 0 <= i < head.len() implies is_digit(#[trigger] head[i]) by {
                assert(head[i] == s[i]);
            }
            assert(head[0] == s[0]);
        }
        lemma_plain_number_is_decimal(head);
        assert(digits_value(head) >= 1) by {
            lemma_digits_value_prefix(head, 1);
            let one = head.subrange(0, 1);
            assert(one.drop_last() =~= Seq::<char>::empty());
            assert(digits_value(one.drop_last()) == 0);
            assert(one.last() == s[0]);
            assert(is_digit(s[0]));
        }
        let v = digits_value(s);
        assert(v == digits_value(head) * 10 + d);
        assert(v >= 10);
        assert(v / 10 == digits_value(head));
        assert(v % 10 == d);
        assert(digit_char(d) == s.last());
        assert(decimal(v) =~= s);
    }
}

/// Writing a resolution and reading the text back gives the resolution.
pub proof fn lemma_text_round_trip(r: Resolution)
    ensures
        parse_resolution(resolution_text(r)) == Ok::<Resolution, ResolutionError>(r),
        parse_setting(resolution_text(r)) == Ok::<Option<Resolution>, ResolutionError>(Some(r)),
{
    let w = decimal(r.width as nat);
    let h = decimal(r.height as nat);
    let s = resolution_text(r);
    lemma_decimal_digits(r.width as nat);
    lemma_decimal_digits(r.height as nat);
    let cut = w.len() as int;
    assert(s.len() == w.len() + 1 + h.len());
    assert(s[cut] == 'x');
    assert forall|j: int| 0 <= j < cut implies s[j] != 'x' by {
        assert(s[j] == w[j]);
        assert(is_digit(w[j]));
    }
    lemma_find_char_at(s, 'x', 0, cut);
    assert(s.subrange(0, cut) =~= w);
    lemma_parse_decimal(r.width as nat, dimension_max());
    assert forall|j: int| cut + 1 <= j < s.len() implies s[j] != 'x' by {
        assert(s[j] == h[j - cut - 1]);
        assert(is_digit(h[j - cut - 1]));
    }
    lemma_find_char_at(s, 'x', cut + 1, s.len() as int);
    assert(s.subrange(cut + 1, s.len() as int) =~= h);
    lemma_parse_decimal(r.height as nat, dimension_max());
    assert(s[0] == w[0]);
    assert(is_digit(w[0]));
    assert(s != auto_text());
}

/// Reading a resolution written as a plain width, an `x` and a plain height,
/// and writing it again, gives the identical text.
pub proof fn lemma_plain_text_round_trip(s: Seq<char>)
    requires
        is_plain_resolution(s),
        parse_resolution(s) is Ok,
    ensures
        resolution_text(parse_resolution(s)->Ok_0) == s,
        parse_setting(s) == Ok::<Option<Resolution>, ResolutionError>(
            Some(parse_resolution(s)->Ok_0),
        ),
{
    let cut = find_char(s, 'x', 0);
    lemma_find_char(s, 'x', 0);
    let left = s.subrange(0, cut);
    let right = s.subrange(cut + 1, s.len() as int);
    assert forall|j: int| cut + 1 <= j < s.len() implies s[j] != 'x' by {
        assert(s[j] == right[j - cut - 1]);
        assert(is_digit(right[j - cut - 1]));
    }
    lemma_find_char_at(s, 'x', cut + 1, s.len() as int);
    assert(is_digit(left[0]));
    assert(unsigned_body(left) == left);
    assert(is_digit(right[0]));
    assert(unsigned_body(right) == right);
    lemma_plain_number_is_decimal(left);
    lemma_plain_number_is_decimal(right);
    let r = parse_resolution(s)->Ok_0;
    assert(r.width as nat == digits_value(left));
    assert(r.height as nat == digits_value(right));
    assert(resolution_text(r) =~= s);
    assert(s[0] == left[0]);
    assert(s != auto_text());
}

/// The word `auto` never denotes a resolution.
pub proof fn lemma_auto_is_no_resolution()
    ensures
        parse_setting(auto_text()) == Ok::<Option<Resolution>, ResolutionError>(None),
        parse_resolution(auto_text()) is Err,
{
    let s = auto_text();
    assert(s.len() == 4);
    assert(s[0] == 'a' && s[1] == 'u' && s[2] == 't' && s[3] == 'o');
    lemma_find_char_at(s, 'x', 0, 4);
    assert(s.subrange(0, 4) =~= s);
    assert(unsigned_body(s) == s);
    assert(!is_digit(s[0]));
    assert(!all_digits(s));
}

} // verus!
