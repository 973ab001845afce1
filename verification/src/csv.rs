//! The logs as a table in text: one line of names, one line for each sample.

use vstd::prelude::*;
use vstd::string::StringExecFns;
use crate::decimal::{format_six_decimals, six_decimals};
use crate::logs::{Logs, Sample, Trace};
use crate::scalar::Scalar;

verus! {

/// The mark at the start of the text that tells a reader its encoding.
pub const BYTE_ORDER_MARK: char = '\u{FEFF}';

/// The end of a line.
pub const LINE_END: char = '\n';

/// `String::push` of the standard library appends the character `c` to the
/// end of the string `s`, and changes nothing else of it.
pub assume_specification[ String::push ](s: &mut String, c: char)
    ensures
        final(s)@ == old(s)@.push(c),
;

/// The line of names: one for each column, with `d` between them.
pub open spec fn header(d: char) -> Seq<char> {
    "time_s"@.push(d)
        + "x_m"@.push(d)
        + "y_m"@.push(d)
        + "vx_m_s"@.push(d)
        + "vy_m_s"@.push(d)
        + "v_mag_m_s"@.push(d)
        + "ax_m_s2"@.push(d)
        + "ay_m_s2"@.push(d)
        + "a_mag_m_s2"@.push(d)
        + "water_mass_kg"@.push(d)
        + "total_mass_kg"@.push(d)
        + "thrust_N"@.push(d)
        + "pressure_abs_Pa"@.push(LINE_END)
}

/// The line of one sample: the text of each of its numbers in the order of
/// the columns, with `d` between them.
pub open spec fn line(sample: Sample, d: char) -> Seq<char> {
    six_decimals(sample.time).push(d)
        + six_decimals(sample.x).push(d)
        + six_decimals(sample.y).push(d)
        + six_decimals(sample.x_velocity).push(d)
        + six_decimals(sample.y_velocity).push(d)
        + six_decimals(sample.velocity_magnitude).push(d)
        + six_decimals(sample.x_acceleration).push(d)
        + six_decimals(sample.y_acceleration).push(d)
        + six_decimals(sample.acceleration_magnitude).push(d)
        + six_decimals(sample.water_mass).push(d)
        + six_decimals(sample.total_mass).push(d)
        + six_decimals(sample.thrust).push(d)
        + six_decimals(sample.pressure).push(LINE_END)
}

/// The lines of the first `n` samples of `trace`, one after the other.
pub open spec fn lines(
    trace: Trace,
    n: nat,
    d: char,
) -> Seq<char>
    decreases n,
{
    if n == 0 {
        Seq::empty()
    } else {
        lines(trace, (n - 1) as nat, d) + line(trace.row(n - 1), d)
    }
}

/// The whole table: the byte-order mark, the line of names, and a line for
/// each moment of which every quantity is known.
pub open spec fn document(trace: Trace, d: char) -> Seq<char> {
    seq![BYTE_ORDER_MARK] + header(d) + lines(trace, trace.common_len(), d)
}

/// Appends `name` and then `end` to `doc`.
fn push_name(doc: &mut String, name: &str, end: char)
    ensures
        final(doc)@ == old(doc)@ + name@.push(end),
{
    doc.append(name);
    doc.push(end);
    assert(doc@ =~= old(doc)@ + name@.push(end));
}

/// Appends the text of `x` and then `end` to `doc`.
fn push_number(doc: &mut String, x: Scalar, end: char)
    ensures
        final(doc)@ == old(doc)@ + six_decimals(x).push(end),
{
    let field: String = format_six_decimals(x);
    doc.append(field.as_str());
    doc.push(end);
    assert(doc@ =~= old(doc)@ + six_decimals(x).push(end));
}

/// Appends the line of names to `doc`.
fn push_header(doc: &mut String, d: char)
    ensures
        final(doc)@ == old(doc)@ + header(d),
{
    push_name(doc, "time_s", d);
    push_name(doc, "x_m", d);
    push_name(doc, "y_m", d);
    push_name(doc, "vx_m_s", d);
    push_name(doc, "vy_m_s", d);
    push_name(doc, "v_mag_m_s", d);
    push_name(doc, "ax_m_s2", d);
    push_name(doc, "ay_m_s2", d);
    push_name(doc, "a_mag_m_s2", d);
    push_name(doc, "water_mass_kg", d);
    push_name(doc, "total_mass_kg", d);
    push_name(doc, "thrust_N", d);
    push_name(doc, "pressure_abs_Pa", LINE_END);
    assert(doc@ =~= old(doc)@ + header(d));
}

/// Appends the line of `sample` to `doc`.
fn push_line(doc: &mut String, sample: Sample, d: char)
    ensures
        final(doc)@ == old(doc)@ + line(sample, d),
{
    push_number(doc, sample.time, d);
    push_number(doc, sample.x, d);
    push_number(doc, sample.y, d);
    push_number(doc, sample.x_velocity, d);
    push_number(doc, sample.y_velocity, d);
    push_number(doc, sample.velocity_magnitude, d);
    push_number(doc, sample.x_acceleration, d);
    push_number(doc, sample.y_acceleration, d);
    push_number(doc, sample.acceleration_magnitude, d);
    push_number(doc, sample.water_mass, d);
    push_number(doc, sample.total_mass, d);
    push_number(doc, sample.thrust, d);
    push_number(doc, sample.pressure, LINE_END);
    assert(doc@ =~= old(doc)@ + line(sample, d));
}

/// Writes the logs as a table, with `delimiter` between the columns and six
/// digits after the point of each number.
pub fn write_table(logs: &Logs, delimiter: char) -> (doc: String)
    ensures
        doc@ == document(logs@, delimiter),
{
    let mut doc = String::new();
    doc.push(BYTE_ORDER_MARK);
    push_header(&mut doc, delimiter);
    let n: usize = logs.common_len();
    let mut i: usize = 0;
    while i < n
        invariant
            i <= n,
            n == logs@.common_len(),
            doc@ == seq![BYTE_ORDER_MARK] + header(delimiter) + lines(logs@, i as nat, delimiter),
        decreases n - i,
    {
        let sample = logs.row(i);
        push_line(&mut doc, sample, delimiter);
        i = i + 1;
        assert(doc@ =~= seq![BYTE_ORDER_MARK] + header(delimiter) + lines(
            logs@,
            i as nat,
            delimiter,
        ));
    }
    doc
}

/// Exporting twice gives the same text: two tables written from the same
/// logs with the same delimiter are equal character by character.
pub proof fn lemma_same_logs_same_table(first: Seq<char>, second: Seq<char>, trace: Trace, d: char)
    requires
        first == document(trace, d),
        second == document(trace, d),
    ensures
        first == second,
{
}

} // verus!
