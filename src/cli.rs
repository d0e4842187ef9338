use vstd::prelude::*;
use vstd::string::{StrSliceExecFns, StringSliceAdditionalSpecFns};

verus! {

/// Environment variables through which the command line reaches child processes.
#[derive(Clone, Copy, Debug, PartialEq, Eq, Structural)]
pub enum EnvVar {
    Debug,
    Bitmap,
    SixelOnly,
    ShellMode,
}

pub open spec fn env_var_name(v: EnvVar) -> Seq<char> {
    match v {
        EnvVar::Debug => "CARBONYL_ENV_DEBUG"@,
        EnvVar::Bitmap => "CARBONYL_ENV_BITMAP"@,
        EnvVar::SixelOnly => "CARBONYL_ENV_SIXEL_ONLY"@,
        EnvVar::ShellMode => "CARBONYL_ENV_SHELL_MODE"@,
    }
}

impl EnvVar {
    /// Name of the variable.
    pub fn as_str(&self) -> (r: &'static str)
        ensures
            r@ == env_var_name(*self),
    {
        match self {
            EnvVar::Debug => "CARBONYL_ENV_DEBUG",
            EnvVar::Bitmap => "CARBONYL_ENV_BITMAP",
            EnvVar::SixelOnly => "CARBONYL_ENV_SIXEL_ONLY",
            EnvVar::ShellMode => "CARBONYL_ENV_SHELL_MODE",
        }
    }
}

/// Whitespace as Unicode defines it (the `White_Space` property), which is
/// what is trimmed from around a setting.
pub open spec fn is_space(c: char) -> bool {
    let u = c as u32;
    (0x09 <= u <= 0x0d) || u == 0x20 || u == 0x85 || u == 0xa0 || u == 0x1680 || (0x2000 <= u <= 0x200a)
        || u == 0x2028 || u == 0x2029 || u == 0x202f || u == 0x205f || u == 0x3000
}

pub open spec fn trim_start(s: Seq<char>) -> Seq<char>
    decreases s.len(),
{
    if s.len() > 0 && is_space(s[0]) {
        trim_start(s.drop_first())
    } else {
        s
    }
}

pub open spec fn trim_end(s: Seq<char>) -> Seq<char>
    decreases s.len(),
{
    if s.len() > 0 && is_space(s.last()) {
        trim_end(s.drop_last())
    } else {
        s
    }
}

/// `c` is the letter `l` (a lower-case ASCII letter or other char) in either
/// ASCII case.
pub open spec fn same_letter(c: char, l: char) -> bool {
    c == l || (97 <= (l as u32) <= 122 && (c as u32) + 32 == (l as u32))
}

/// `w` spells `word` with ASCII letters in any case.
pub open spec fn matches_word(w: Seq<char>, word: Seq<char>) -> bool {
    w.len() == word.len() && forall|i: int| 0 <= i < w.len() ==> same_letter(#[trigger] w[i], word[i])
}

/// Meaning of an on/off setting, once trimmed: `1`, `true`, `on`, `yes`
/// turn it on; `0`, `false`, `off`, `no` turn it off (letters in any ASCII
/// case); anything else says nothing.
pub open spec fn switch_of(s: Seq<char>) -> Option<bool> {
    let w = trim_end(trim_start(s));
    if matches_word(w, seq!['1']) || matches_word(w, seq!['t', 'r', 'u', 'e']) || matches_word(w, seq!['o', 'n'])
        || matches_word(w, seq!['y', 'e', 's']) {
        Some(true)
    } else if matches_word(w, seq!['0']) || matches_word(w, seq!['f', 'a', 'l', 's', 'e']) || matches_word(
        w,
        seq!['o', 'f', 'f'],
    ) || matches_word(w, seq!['n', 'o']) {
        Some(false)
    } else {
        None
    }
}

fn is_space_char(c: char) -> (r: bool)
    ensures
        r == is_space(c),
{
    let u = c as u32;
    (0x09 <= u && u <= 0x0d) || u == 0x20 || u == 0x85 || u == 0xa0 || u == 0x1680 || (0x2000 <= u && u
        <= 0x200a) || u == 0x2028 || u == 0x2029 || u == 0x202f || u == 0x205f || u == 0x3000
}

fn letter_is(c: char, l: char) -> (r: bool)
    ensures
        r == same_letter(c, l),
{
    let (cu, lu) = (c as u32, l as u32);
    cu == lu || (97 <= lu && lu <= 122 && cu + 32 == lu)
}

fn word_is(w: &Vec<char>, word: &Vec<char>) -> (r: bool)
    ensures
        r == matches_word(w@, word@),
{
    if w.len() != word.len() {
        return false;
    }
    let mut i: usize = 0;
    while i < w.len()
        invariant
            w@.len() == word@.len(),
            i <= w@.len(),
            forall|j: int| 0 <= j < i ==> same_letter(#[trigger] w@[j], word@[j]),
        decreases w@.len() - i,
    {
        if !letter_is(w[i], word[i]) {
            return false;
        }
        i = i + 1;
    }
    true
}

/// Reads an on/off setting, ignoring surrounding whitespace and ASCII case.
pub fn parse_switch(value: &str) -> (r: Option<bool>)
    ensures
        r == switch_of(value@),
{
    let s = value;
    let len = s.unicode_len();
    let mut a: usize = 0;
    assert(s@.subrange(0, s@.len() as int) =~= s@);
    while a < len && is_space_char(s.get_char(a))
        invariant
            len == s@.len(),
            a <= s@.len(),
            trim_start(s@) == trim_start(s@.subrange(a as int, s@.len() as int)),
        decreases s@.len() - a,
    {
        assert(s@.subrange(a as int, s@.len() as int).drop_first() =~= s@.subrange(a + 1, s@.len() as int));
        a = a + 1;
    }
    let mut b: usize = len;
    while b > a && is_space_char(s.get_char(b - 1))
        invariant
            len == s@.len(),
            a <= b <= s@.len(),
            trim_end(s@.subrange(a as int, s@.len() as int)) == trim_end(s@.subrange(a as int, b as int)),
        decreases b,
    {
        assert(s@.subrange(a as int, b as int).drop_last() =~= s@.subrange(a as int, b - 1));
        b = b - 1;
    }
    assert(trim_start(s@.subrange(a as int, s@.len() as int)) == s@.subrange(a as int, s@.len() as int));
    assert(trim_end(s@.subrange(a as int, b as int)) == s@.subrange(a as int, b as int));
    let mut w: Vec<char> = Vec::new();
    let mut i: usize = a;
    while i < b
        invariant
            len == s@.len(),
            a <= i <= b <= s@.len(),
            w@ =~= s@.subrange(a as int, i as int),
        decreases b - i,
    {
        w.push(s.get_char(i));
        i = i + 1;
    }
    assert(w@ == trim_end(trim_start(s@)));
    let (one, true_word, on, yes) = (vec!['1'], vec!['t', 'r', 'u', 'e'], vec!['o', 'n'], vec!['y', 'e', 's']);
    let (zero, false_word, off, no) = (vec!['0'], vec!['f', 'a', 'l', 's', 'e'], vec!['o', 'f', 'f'], vec!['n', 'o']);
    assert(one@ =~= seq!['1'] && true_word@ =~= seq!['t', 'r', 'u', 'e'] && on@ =~= seq!['o', 'n'] && yes@
        =~= seq!['y', 'e', 's']);
    assert(zero@ =~= seq!['0'] && false_word@ =~= seq!['f', 'a', 'l', 's', 'e'] && off@ =~= seq!['o', 'f', 'f']
        && no@ =~= seq!['n', 'o']);
    if word_is(&w, &one) || word_is(&w, &true_word) || word_is(&w, &on) || word_is(&w, &yes) {
        Some(true)
    } else if word_is(&w, &zero) || word_is(&w, &false_word) || word_is(&w, &off) || word_is(&w, &no) {
        Some(false)
    } else {
        None
    }
}

/// Whether a `COLORTERM` value announces 24-bit color: `truecolor` or `24bit`, exactly.
pub open spec fn announces_true_color(s: Seq<u8>) -> bool {
    s =~= seq![116u8, 114u8, 117u8, 101u8, 99u8, 111u8, 108u8, 111u8, 114u8] || s =~= seq![50u8, 52u8, 98u8, 105u8, 116u8]
}

/// Reads the terminal's color depth from its `COLORTERM` value.
pub fn is_true_color(colorterm: &str) -> (r: bool)
    ensures
        r == announces_true_color(colorterm.spec_bytes()),
{
    let w = colorterm.as_bytes();
    let n = w.len();
    (n == 9 && w[0] == 116 && w[1] == 114 && w[2] == 117 && w[3] == 101 && w[4] == 99 && w[5] == 111 && w[6]
        == 108 && w[7] == 111 && w[8] == 114) || (n == 5 && w[0] == 50 && w[1] == 52 && w[2] == 98 && w[3] == 105
        && w[4] == 116)
}

} // verus!
