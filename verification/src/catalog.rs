//! The resolution catalog: a fixed, ordered set of named width x height
//! presets, immutable for the lifetime of the process.

use vstd::prelude::*;

verus! {

/// One named preset of the fixed resolution catalog.
#[derive(Clone, Copy, PartialEq, Eq, Structural, Debug)]
pub enum WindowResolution {
    Preset320,
    Preset480,
    Preset720,
    Preset1080,
    Preset1440,
}

impl WindowResolution {
    /// The "WxH" string form of this preset.
    pub open spec fn spec_value(self) -> Seq<char> {
        match self {
            WindowResolution::Preset320 => "320x240"@,
            WindowResolution::Preset480 => "480x320"@,
            WindowResolution::Preset720 => "1280x720"@,
            WindowResolution::Preset1080 => "1920x1080"@,
            WindowResolution::Preset1440 => "2560x1440"@,
        }
    }

    /// The width this preset stands for.
    pub open spec fn spec_width(self) -> u32 {
        match self {
            WindowResolution::Preset320 => 320u32,
            WindowResolution::Preset480 => 480u32,
            WindowResolution::Preset720 => 1280u32,
            WindowResolution::Preset1080 => 1920u32,
            WindowResolution::Preset1440 => 2560u32,
        }
    }

    /// The height this preset stands for.
    pub open spec fn spec_height(self) -> u32 {
        match self {
            WindowResolution::Preset320 => 240u32,
            WindowResolution::Preset480 => 320u32,
            WindowResolution::Preset720 => 720u32,
            WindowResolution::Preset1080 => 1080u32,
            WindowResolution::Preset1440 => 1440u32,
        }
    }

    /// The display form of the preset, e.g. `"1280x720"`.
    pub fn value(&self) -> (r: &'static str)
        ensures
            r@ == self.spec_value(),
    {
        match self {
            WindowResolution::Preset320 => "320x240",
            WindowResolution::Preset480 => "480x320",
            WindowResolution::Preset720 => "1280x720",
            WindowResolution::Preset1080 => "1920x1080",
            WindowResolution::Preset1440 => "2560x1440",
        }
    }
}

/// The catalog in its fixed order, smallest preset first.
pub open spec fn spec_catalog() -> Seq<WindowResolution> {
    seq![
        WindowResolution::Preset320,
        WindowResolution::Preset480,
        WindowResolution::Preset720,
        WindowResolution::Preset1080,
        WindowResolution::Preset1440,
    ]
}

/// A fresh copy of the catalog, in its fixed order.
pub fn presets() -> (r: Vec<WindowResolution>)
    ensures
        r@ == spec_catalog(),
{
    let mut v: Vec<WindowResolution> = Vec::new();
    v.push(WindowResolution::Preset320);
    v.push(WindowResolution::Preset480);
    v.push(WindowResolution::Preset720);
    v.push(WindowResolution::Preset1080);
    v.push(WindowResolution::Preset1440);
    proof {
        assert(v@ =~= spec_catalog());
    }
    v
}

/// The preset chosen on startup.
pub fn default_preset() -> (r: WindowResolution)
    ensures
        r == WindowResolution::Preset720,
{
    WindowResolution::Preset720
}

/// True when `c` is a decimal digit.
pub open spec fn spec_is_digit(c: char) -> bool {
    48 <= c as int && c as int <= 57
}

/// Numeric value of the decimal digit `c`.
pub open spec fn spec_digit_val(c: char) -> int {
    c as int - 48
}

/// Index of the first `'x'` of `s` at or after position `i`, or the
/// length of `s` when there is none.
pub open spec fn spec_sep_index(s: Seq<char>, i: int) -> int
    decreases s.len() - i,
{
    if i >= s.len() {
        i
    } else if s[i] == 'x' {
        i
    } else {
        spec_sep_index(s, i + 1)
    }
}

/// True when every character of `s` in `[i, j)` is a decimal digit.
pub open spec fn spec_all_digits(s: Seq<char>, i: int, j: int) -> bool {
    forall|k: int| i <= k < j ==> spec_is_digit(#[trigger] s[k])
}

/// Value of the run of decimal digits of `s` in `[i, j)`, most
/// significant digit first.
pub open spec fn spec_digits_val(s: Seq<char>, i: int, j: int) -> int
    decreases j - i,
{
    if j <= i {
        0
    } else {
        spec_digits_val(s, i, j - 1) * 10 + spec_digit_val(s[j - 1])
    }
}

/// What parsing the characters of `s` in `[i, j)` as a decimal number
/// yields: the value when the range is a nonempty run of digits that
/// fits in `u32`, nothing otherwise.
pub open spec fn spec_parse_digits(s: Seq<char>, i: int, j: int) -> Option<u32> {
    if i < j && spec_all_digits(s, i, j) && spec_digits_val(s, i, j) <= u32::MAX {
        Some(spec_digits_val(s, i, j) as u32)
    } else {
        None
    }
}

/// What parsing a "WxH" string yields: the first `'x'` splits the
/// string, and both sides must parse as decimal numbers.
pub open spec fn spec_parse_resolution(s: Seq<char>) -> Option<(u32, u32)> {
    let k = spec_sep_index(s, 0);
    if k < s.len() {
        match (spec_parse_digits(s, 0, k), spec_parse_digits(s, k + 1, s.len() as int)) {
            (Some(w), Some(h)) => Some((w, h)),
            _ => None,
        }
    } else {
        None
    }
}

proof fn lemma_digits_val_nonneg(s: Seq<char>, a: int, b: int)
    requires
        spec_all_digits(s, a, b),
    ensures
        spec_digits_val(s, a, b) >= 0,
    decreases b - a,
{
    if a < b {
        lemma_digits_val_nonneg(s, a, b - 1);
        assert(spec_digits_val(s, a, b - 1) * 10 >= 0) by (nonlinear_arith)
            requires
                spec_digits_val(s, a, b - 1) >= 0,
        ;
    }
}

proof fn lemma_digits_val_monotonic(s: Seq<char>, a: int, b: int, c: int)
    requires
        a <= b <= c,
        spec_all_digits(s, a, c),
    ensures
        spec_digits_val(s, a, b) <= spec_digits_val(s, a, c),
    decreases c - b,
{
    if b < c {
        lemma_digits_val_monotonic(s, a, b, c - 1);
        lemma_digits_val_nonneg(s, a, c - 1);
        assert(spec_digits_val(s, a, c - 1) * 10 >= spec_digits_val(s, a, c - 1))
            by (nonlinear_arith)
            requires
                spec_digits_val(s, a, c - 1) >= 0,
        ;
    }
}

/// Parse the characters of `s` in `[from, to)` as a decimal number.
fn parse_digits(s: &str, from: usize, to: usize) -> (r: Option<u32>)
    requires
        from <= to <= s@.len(),
    ensures
        r == spec_parse_digits(s@, from as int, to as int),
{
    if from >= to {
        return None;
    }
    let mut acc: u64 = 0;
    let mut i: usize = from;
    while i < to
        invariant
            from <= i <= to <= s@.len(),
            spec_all_digits(s@, from as int, i as int),
            acc == spec_digits_val(s@, from as int, i as int),
            acc <= u32::MAX,
        decreases to - i,
    {
        let c = s.get_char(i);
        let u = c as u32;
        if u < 48 || u > 57 {
            proof {
                assert(!spec_is_digit(s@[i as int]));
            }
            return None;
        }
        let d: u64 = (u - 48) as u64;
        acc = acc * 10 + d;
        if acc > 0xffff_ffff {
            proof {
                if spec_all_digits(s@, from as int, to as int) {
                    lemma_digits_val_monotonic(s@, from as int, i + 1, to as int);
                }
            }
            return None;
        }
        i += 1;
    }
    Some(acc as u32)
}

/// Parse a "WxH" resolution string into its width and height.
pub fn parse_resolution(s: &str) -> (r: Option<(u32, u32)>)
    ensures
        r == spec_parse_resolution(s@),
{
    let n = s.unicode_len();
    let mut k: usize = 0;
    while k < n && s.get_char(k) != 'x'
        invariant
            0 <= k <= n,
            n == s@.len(),
            spec_sep_index(s@, 0) == spec_sep_index(s@, k as int),
        decreases n - k,
    {
        k += 1;
    }
    proof {
        assert(spec_sep_index(s@, 0) == k as int);
    }
    if k >= n {
        return None;
    }
    let w = parse_digits(s, 0, k);
    let h = parse_digits(s, k + 1, n);
    match (w, h) {
        (Some(wv), Some(hv)) => Some((wv, hv)),
        _ => None,
    }
}

/// Law: each preset's string form parses back to exactly its width and
/// height, e.g. `"1280x720"` to `(1280, 720)`.
pub proof fn lemma_preset_round_trip(p: WindowResolution)
    ensures
        spec_parse_resolution(p.spec_value()) == Some((p.spec_width(), p.spec_height())),
{
    reveal_with_fuel(spec_sep_index, 11);
    reveal_with_fuel(spec_digits_val, 11);
    match p {
        WindowResolution::Preset320 => {
            reveal_strlit("320x240");
            let s = "320x240"@;
            assert(spec_sep_index(s, 0) == 3);
            assert(spec_digits_val(s, 0, 3) == 320);
            assert(spec_digits_val(s, 4, 7) == 240);
        }
        WindowResolution::Preset480 => {
            reveal_strlit("480x320");
            let s = "480x320"@;
            assert(spec_sep_index(s, 0) == 3);
            assert(spec_digits_val(s, 0, 3) == 480);
            assert(spec_digits_val(s, 4, 7) == 320);
        }
        WindowResolution::Preset720 => {
            reveal_strlit("1280x720");
            let s = "1280x720"@;
            assert(spec_sep_index(s, 0) == 4);
            assert(spec_digits_val(s, 0, 4) == 1280);
            assert(spec_digits_val(s, 5, 8) == 720);
        }
        WindowResolution::Preset1080 => {
            reveal_strlit("1920x1080");
            let s = "1920x1080"@;
            assert(spec_sep_index(s, 0) == 4);
            assert(spec_digits_val(s, 0, 4) == 1920);
            assert(spec_digits_val(s, 5, 9) == 1080);
        }
        WindowResolution::Preset1440 => {
            reveal_strlit("2560x1440");
            let s = "2560x1440"@;
            assert(spec_sep_index(s, 0) == 4);
            assert(spec_digits_val(s, 0, 4) == 2560);
            assert(spec_digits_val(s, 5, 9) == 1440);
        }
    }
}

impl WindowResolution {
    /// Width and height of this preset, recovered from its string form;
    /// total, since the catalog is closed.
    pub fn parse(&self) -> (r: (u32, u32))
        ensures
            r.0 == self.spec_width(),
            r.1 == self.spec_height(),
    {
        proof {
            lemma_preset_round_trip(*self);
        }
        match parse_resolution(self.value()) {
            Some(p) => p,
            None => unreached(),
        }
    }
}

} // verus!
