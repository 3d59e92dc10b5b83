use vstd::prelude::*;
use crate::config::LayoutConfig;
use crate::hole::{HolePosition, HoleType};
use crate::layout::{generate_layout, layout};
use crate::quadrant::Quadrant;

verus! {

/// The decimal digit `d`.
pub open spec fn digit_char(d: int) -> char {
    if d == 0 {
        '0'
    } else if d == 1 {
        '1'
    } else if d == 2 {
        '2'
    } else if d == 3 {
        '3'
    } else if d == 4 {
        '4'
    } else if d == 5 {
        '5'
    } else if d == 6 {
        '6'
    } else if d == 7 {
        '7'
    } else if d == 8 {
        '8'
    } else {
        '9'
    }
}

/// The decimal digits of `n`, without leading zeros.
pub open spec fn nat_digits(n: nat) -> Seq<char>
    decreases n,
{
    if n < 10 {
        seq![digit_char(n as int)]
    } else {
        nat_digits(n / 10) + seq![digit_char(n as int % 10)]
    }
}

/// The decimals of a fraction of `f` hundredths, with their point, without
/// trailing zeros; empty for no fraction.
pub open spec fn fraction_text(f: int) -> Seq<char> {
    if f == 0 {
        seq![]
    } else if f % 10 == 0 {
        seq!['.', digit_char(f / 10)]
    } else {
        seq!['.', digit_char(f / 10), digit_char(f % 10)]
    }
}

/// `v` hundredths written as a decimal number, in the shortest form:
/// `700` is `7`, `350` is `3.5`, `-5` is `-0.05`.
pub open spec fn decimal_text(v: int) -> Seq<char> {
    let m = if v < 0 { -v } else { v };
    let sign = if v < 0 { seq!['-'] } else { seq![] };
    sign + nat_digits((m / 100) as nat) + fraction_text(m % 100)
}

/// The symbolic name of a hole type.
pub open spec fn label_text(t: HoleType) -> Seq<char> {
    match t {
        HoleType::Center => "CENTER"@,
        HoleType::Axis(Quadrant::One) => "AXIS_ONE"@,
        HoleType::Axis(Quadrant::Two) => "AXIS_TWO"@,
        HoleType::Axis(Quadrant::Three) => "AXIS_THREE"@,
        HoleType::Axis(Quadrant::Four) => "AXIS_FOUR"@,
        HoleType::Area(Quadrant::One) => "AREA_ONE"@,
        HoleType::Area(Quadrant::Two) => "AREA_TWO"@,
        HoleType::Area(Quadrant::Three) => "AREA_THREE"@,
        HoleType::Area(Quadrant::Four) => "AREA_FOUR"@,
    }
}

/// `x,z` for the hole `h`.
pub open spec fn coordinate_text(h: HolePosition) -> Seq<char> {
    decimal_text(h.x as int) + ","@ + decimal_text(h.z as int)
}

/// The macro line of the hole `h`: `holeList.append((x,z))`, or with
/// `typed`, `holeList.append(HolePosition(x,z,HoleType.LABEL))`.
pub open spec fn line_text(h: HolePosition, typed: bool) -> Seq<char> {
    if typed {
        "holeList.append(HolePosition("@ + coordinate_text(h) + ",HoleType."@ + label_text(
            h.hole_type,
        ) + "))"@
    } else {
        "holeList.append(("@ + coordinate_text(h) + "))"@
    }
}

/// The macro lines of the layout of `c`, one for each hole, in order.
pub open spec fn rendered(c: LayoutConfig, typed: bool) -> Seq<Seq<char>> {
    layout(c).map_values(|h: HolePosition| line_text(h, typed))
}

/// The decimal digit `d` as a string.
fn digit_str(d: u64) -> (r: &'static str)
    requires
        d < 10,
    ensures
        r@ == seq![digit_char(d as int)],
{
    if d == 0 {
        proof { reveal_strlit("0"); }
        "0"
    } else if d == 1 {
        proof { reveal_strlit("1"); }
        "1"
    } else if d == 2 {
        proof { reveal_strlit("2"); }
        "2"
    } else if d == 3 {
        proof { reveal_strlit("3"); }
        "3"
    } else if d == 4 {
        proof { reveal_strlit("4"); }
        "4"
    } else if d == 5 {
        proof { reveal_strlit("5"); }
        "5"
    } else if d == 6 {
        proof { reveal_strlit("6"); }
        "6"
    } else if d == 7 {
        proof { reveal_strlit("7"); }
        "7"
    } else if d == 8 {
        proof { reveal_strlit("8"); }
        "8"
    } else {
        proof { reveal_strlit("9"); }
        "9"
    }
}

/// Appends the decimal digits of `n` to `out`.
fn append_digits(n: u64, out: &mut String)
    ensures
        final(out)@ == old(out)@ + nat_digits(n as nat),
    decreases n,
{
    if n >= 10 {
        append_digits(n / 10, out);
    }
    out.append(digit_str(n % 10));
    assert(final(out)@ =~= old(out)@ + nat_digits(n as nat));
}

/// Writes `v` hundredths as a decimal number in its shortest form.
pub fn format_hundredths(v: i64) -> (r: String)
    ensures
        r@ == decimal_text(v as int),
{
    let m: u64 = if v < 0 { (-(v + 1)) as u64 + 1 } else { v as u64 };
    let mut out = String::new();
    if v < 0 {
        proof { reveal_strlit("-"); }
        out.append("-");
    }
    append_digits(m / 100, &mut out);
    let f = m % 100;
    if f != 0 {
        proof { reveal_strlit("."); }
        out.append(".");
        out.append(digit_str(f / 10));
        if f % 10 != 0 {
            out.append(digit_str(f % 10));
        }
    }
    assert(out@ =~= decimal_text(v as int));
    out
}

/// The symbolic name of a hole type.
pub fn hole_label(t: HoleType) -> (r: &'static str)
    ensures
        r@ == label_text(t),
{
    match t {
        HoleType::Center => "CENTER",
        HoleType::Axis(Quadrant::One) => "AXIS_ONE",
        HoleType::Axis(Quadrant::Two) => "AXIS_TWO",
        HoleType::Axis(Quadrant::Three) => "AXIS_THREE",
        HoleType::Axis(Quadrant::Four) => "AXIS_FOUR",
        HoleType::Area(Quadrant::One) => "AREA_ONE",
        HoleType::Area(Quadrant::Two) => "AREA_TWO",
        HoleType::Area(Quadrant::Three) => "AREA_THREE",
        HoleType::Area(Quadrant::Four) => "AREA_FOUR",
    }
}

impl HolePosition {
    /// `x,z`: the line of this hole in a coordinate dump.
    pub fn coordinate_line(&self) -> (r: String)
        ensures
            r@ == coordinate_text(*self),
    {
        let mut out = format_hundredths(self.x);
        out.append(",");
        let z = format_hundredths(self.z);
        out.append(z.as_str());
        out
    }

    /// The macro line of this hole, plain or with its type label.
    pub fn macro_line(&self, typed: bool) -> (r: String)
        ensures
            r@ == line_text(*self, typed),
    {
        let coords = self.coordinate_line();
        let mut out = if typed {
            String::from_str("holeList.append(HolePosition(")
        } else {
            String::from_str("holeList.append((")
        };
        out.append(coords.as_str());
        if typed {
            out.append(",HoleType.");
            out.append(hole_label(self.hole_type));
        }
        out.append("))");
        out
    }
}

/// The macro lines of the holes, one for each, in order.
pub fn macro_lines(holes: &Vec<HolePosition>, typed: bool) -> (lines: Vec<String>)
    ensures
        lines@.len() == holes@.len(),
        forall|k: int| 0 <= k < lines@.len() ==> (#[trigger] lines@[k])@ == line_text(holes@[k], typed),
{
    let mut lines: Vec<String> = Vec::new();
    let mut k: usize = 0;
    while k < holes.len()
        invariant
            k <= holes@.len(),
            lines@.len() == k,
            forall|m: int| 0 <= m < k ==> (#[trigger] lines@[m])@ == line_text(holes@[m], typed),
        decreases holes@.len() - k,
    {
        lines.push(holes[k].macro_line(typed));
        k = k + 1;
    }
    lines
}

/// The macro lines of the layout of `config`.
pub fn render_layout(config: &LayoutConfig, typed: bool) -> (lines: Vec<String>)
    requires
        config.wf(),
    ensures
        lines@.len() == rendered(*config, typed).len(),
        forall|k: int| 0 <= k < lines@.len() ==> (#[trigger] lines@[k])@ == rendered(*config, typed)[k],
{
    let holes = generate_layout(config);
    macro_lines(&holes, typed)
}

/// The output is reproducible: equal configurations render to the same
/// lines, character for character. `render_layout` returns exactly
/// `rendered(config, typed)`, so two runs on one configuration agree.
pub proof fn lemma_output_reproducible(c1: LayoutConfig, c2: LayoutConfig, typed: bool)
    requires
        c1.wf(),
        c1 == c2,
    ensures
        rendered(c1, typed) == rendered(c2, typed),
        layout(c1) == layout(c2),
{
}

} // verus!
