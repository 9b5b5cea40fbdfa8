//! The result reporter: turns one frame's detections into log lines, in the
//! detector's order, one line per box after a count.
use vstd::prelude::*;

verus! {

/// The text of a single decimal digit.
pub open spec fn digit_text(d: nat) -> Seq<char> {
    if d == 0 {
        "0"@
    } else if d == 1 {
        "1"@
    } else if d == 2 {
        "2"@
    } else if d == 3 {
        "3"@
    } else if d == 4 {
        "4"@
    } else if d == 5 {
        "5"@
    } else if d == 6 {
        "6"@
    } else if d == 7 {
        "7"@
    } else if d == 8 {
        "8"@
    } else {
        "9"@
    }
}

/// `n` written in decimal, without leading zeros.
pub open spec fn decimal(n: nat) -> Seq<char>
    decreases n,
{
    if n < 10 {
        digit_text(n)
    } else {
        decimal(n / 10) + digit_text(n % 10)
    }
}

/// The line that opens the report of a frame with `count` detections.
pub open spec fn count_line(count: nat) -> Seq<char> {
    "[Bboxes]: Found "@ + decimal(count) + " objects"@
}

/// The line that reports the box at position `index`, described by `text`.
pub open spec fn box_line(index: nat, text: Seq<char>) -> Seq<char> {
    decimal(index) + ": "@ + text
}

/// The full report of a frame whose boxes are described by `texts`, in order.
pub open spec fn report_of(texts: Seq<String>) -> Seq<Seq<char>> {
    seq![count_line(texts.len())] + Seq::new(texts.len(), |i: int| box_line(i as nat, texts[i]@))
}

/// A report keeps the detections' count and order: one count line, then
/// exactly one line per box, the box at position `i` on line `i + 1`.
pub proof fn report_keeps_order_and_count(texts: Seq<String>)
    ensures
        report_of(texts).len() == texts.len() + 1,
        report_of(texts)[0] == count_line(texts.len()),
        forall|i: int|
            0 <= i < texts.len() ==> #[trigger] report_of(texts)[i + 1] == box_line(
                i as nat,
                texts[i]@,
            ),
{
}

fn digit_str(d: usize) -> (r: &'static str)
    requires
        d < 10,
    ensures
        r@ == digit_text(d as nat),
{
    match d {
        0 => "0",
        1 => "1",
        2 => "2",
        3 => "3",
        4 => "4",
        5 => "5",
        6 => "6",
        7 => "7",
        8 => "8",
        _ => "9",
    }
}

/// Writes `n` in decimal.
pub fn format_decimal(n: usize) -> (r: String)
    ensures
        r@ == decimal(n as nat),
{
    if n < 10 {
        return String::from_str(digit_str(n));
    }
    let mut acc = String::new();
    let mut m: usize = n;
    while m > 0
        invariant
            m > 0 ==> decimal(n as nat) == decimal(m as nat) + acc@,
            m == 0 ==> decimal(n as nat) == acc@,
        decreases m,
    {
        let d = digit_str(m % 10);
        let ghost old_acc = acc@;
        acc = String::from_str(d).concat(acc.as_str());
        assert(acc@ == digit_text((m % 10) as nat) + old_acc);
        if m >= 10 {
            assert(decimal(m as nat) == decimal((m / 10) as nat) + digit_text((m % 10) as nat));
            assert(decimal(n as nat) == decimal((m / 10) as nat) + acc@);
        } else {
            assert(decimal(m as nat) == digit_text((m % 10) as nat));
        }
        m = m / 10;
    }
    acc
}

/// Reports one frame's detections: a line with their count, then one line
/// per box with its position in the set and its description, in the order
/// given. An empty set is reported as zero objects.
pub fn report(texts: &Vec<String>) -> (r: Vec<String>)
    ensures
        r@.len() == texts@.len() + 1,
        forall|i: int| 0 <= i < r@.len() ==> #[trigger] r@[i]@ == report_of(texts@)[i],
{
    let mut lines: Vec<String> = Vec::new();
    let header = String::from_str("[Bboxes]: Found ").concat(format_decimal(texts.len()).as_str());
    lines.push(header.concat(" objects"));
    let mut i: usize = 0;
    while i < texts.len()
        invariant
            i <= texts@.len(),
            lines@.len() == i + 1,
            forall|j: int| 0 <= j < lines@.len() ==> #[trigger] lines@[j]@ == report_of(texts@)[j],
        decreases texts@.len() - i,
    {
        let line = format_decimal(i).concat(": ").concat(texts[i].as_str());
        lines.push(line);
        i = i + 1;
    }
    lines
}

} // verus!
