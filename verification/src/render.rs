//! The trace formatter: renders one trace record — a label and an ordered
//! sequence of values — as exactly one newline-terminated line of text.
//!
//! A value's rendering is the structural debug form meant for diagnostics:
//! integers in decimal, text wrapped in quotes, an absent optional as `None`,
//! a present optional as `Some(...)` around its inner rendering.

use vstd::prelude::*;
use vstd::string::StringExecFns;

verus! {

/// One value of a trace record, in the kinds the formatter renders.
pub enum TraceValue {
    /// A boolean, rendered `true` or `false`.
    Bool(bool),
    /// A signed integer, rendered in decimal with a leading `-` when negative.
    Int(i64),
    /// An unsigned integer, rendered in decimal.
    Uint(u64),
    /// A piece of text, rendered wrapped in quotes.
    Text(String),
    /// An absent optional value, rendered `None`.
    Absent,
    /// A present optional value, rendered `Some(...)` around the inner value.
    Present(Box<TraceValue>),
}

/// The decimal digit `d` as text.
pub open spec fn digit_str(d: nat) -> Seq<char> {
    if d == 0 {
        "0"@
    } else if d == 1 {
        "1"@
    } else if d == 2 {
        "2"@
    } else if d == 3 {
        "3"@
    } else if d == 4 {
        "4"@
    } else if d == 5 {
        "5"@
    } else if d == 6 {
        "6"@
    } else if d == 7 {
        "7"@
    } else if d == 8 {
        "8"@
    } else {
        "9"@
    }
}

/// The decimal rendering of `n`: most significant digit first, no leading
/// zeros (zero itself is the single digit `0`).
pub open spec fn dec_digits(n: nat) -> Seq<char>
    decreases n,
{
    if n < 10 {
        digit_str(n)
    } else {
        dec_digits(n / 10) + digit_str(n % 10)
    }
}

/// The decimal rendering of an integer, with a leading `-` when negative.
pub open spec fn int_digits(n: int) -> Seq<char> {
    if n < 0 {
        "-"@ + dec_digits((-n) as nat)
    } else {
        dec_digits(n as nat)
    }
}

/// The structural debug rendering of one value.
pub open spec fn debug_repr(v: TraceValue) -> Seq<char>
    decreases v,
{
    match v {
        TraceValue::Bool(b) => if b {
            "true"@
        } else {
            "false"@
        },
        TraceValue::Int(n) => int_digits(n as int),
        TraceValue::Uint(n) => dec_digits(n as nat),
        TraceValue::Text(s) => "\""@ + s@ + "\""@,
        TraceValue::Absent => "None"@,
        TraceValue::Present(inner) => "Some("@ + debug_repr(*inner) + ")"@,
    }
}

/// The renderings of all values of one record, separated by `, `.
pub open spec fn rendered_values(vs: Seq<TraceValue>) -> Seq<char>
    decreases vs.len(),
{
    if vs.len() == 0 {
        Seq::<char>::empty()
    } else if vs.len() == 1 {
        debug_repr(vs[0])
    } else {
        rendered_values(vs.drop_last()) + ", "@ + debug_repr(vs.last())
    }
}

/// The view of an optional label.
pub open spec fn label_view(label: Option<&str>) -> Option<Seq<char>> {
    match label {
        Some(l) => Some(l@),
        None => None,
    }
}

/// The exact line one trace call writes: `debug` alone without a label,
/// `debug: <label>` without values, `debug: <label>: <v0>, <v1>, ...` with
/// them — always newline-terminated. A record without a label carries no
/// values, so the label-less branch ignores them.
pub open spec fn trace_line(label: Option<Seq<char>>, vs: Seq<TraceValue>) -> Seq<char> {
    match label {
        None => "debug\n"@,
        Some(l) => if vs.len() == 0 {
            "debug: "@ + l + "\n"@
        } else {
            "debug: "@ + l + ": "@ + rendered_values(vs) + "\n"@
        },
    }
}

fn push_digit(out: &mut String, d: u64)
    requires
        d < 10,
    ensures
        final(out)@ == old(out)@ + digit_str(d as nat),
{
    if d == 0 {
        out.append("0");
    } else if d == 1 {
        out.append("1");
    } else if d == 2 {
        out.append("2");
    } else if d == 3 {
        out.append("3");
    } else if d == 4 {
        out.append("4");
    } else if d == 5 {
        out.append("5");
    } else if d == 6 {
        out.append("6");
    } else if d == 7 {
        out.append("7");
    } else if d == 8 {
        out.append("8");
    } else {
        out.append("9");
    }
}

fn push_dec_digits(out: &mut String, n: u64)
    ensures
        final(out)@ == old(out)@ + dec_digits(n as nat),
    decreases n,
{
    if n < 10 {
        push_digit(out, n);
    } else {
        push_dec_digits(out, n / 10);
        push_digit(out, n % 10);
    }
}

fn push_int_digits(out: &mut String, n: i64)
    ensures
        final(out)@ == old(out)@ + int_digits(n as int),
{
    if n >= 0 {
        push_dec_digits(out, n as u64);
    } else {
        out.append("-");
        let magnitude: u64 = ((-(n + 1)) as u64) + 1;
        push_dec_digits(out, magnitude);
    }
}

fn push_debug_repr(out: &mut String, v: &TraceValue)
    ensures
        final(out)@ == old(out)@ + debug_repr(*v),
    decreases v,
{
    match v {
        TraceValue::Bool(b) => {
            if *b {
                out.append("true");
            } else {
                out.append("false");
            }
        },
        TraceValue::Int(n) => {
            push_int_digits(out, *n);
        },
        TraceValue::Uint(n) => {
            push_dec_digits(out, *n);
        },
        TraceValue::Text(s) => {
            out.append("\"");
            out.append(s.as_str());
            out.append("\"");
        },
        TraceValue::Absent => {
            out.append("None");
        },
        TraceValue::Present(inner) => {
            out.append("Some(");
            push_debug_repr(out, &**inner);
            out.append(")");
        },
    }
}

proof fn lemma_rendered_values_step(vs: Seq<TraceValue>, i: int)
    requires
        0 <= i < vs.len(),
    ensures
        rendered_values(vs.take(i + 1)) == if i == 0 {
            debug_repr(vs[0])
        } else {
            rendered_values(vs.take(i)) + ", "@ + debug_repr(vs[i])
        },
{
    let t = vs.take(i + 1);
    if i == 0 {
        assert(t[0] == vs[0]);
    } else {
        assert(t.drop_last() =~= vs.take(i));
        assert(t.last() == vs[i]);
    }
}

fn push_rendered_values(out: &mut String, values: &Vec<TraceValue>)
    ensures
        final(out)@ == old(out)@ + rendered_values(values@),
{
    let mut i: usize = 0;
    while i < values.len()
        invariant
            i <= values@.len(),
            out@ == old(out)@ + rendered_values(values@.take(i as int)),
        decreases values@.len() - i,
    {
        proof {
            lemma_rendered_values_step(values@, i as int);
        }
        if i > 0 {
            out.append(", ");
        }
        push_debug_repr(out, &values[i]);
        i = i + 1;
    }
    proof {
        assert(values@.take(values@.len() as int) =~= values@);
    }
}

/// Renders one trace record as the exact line of [`trace_line`]. A record
/// without a label carries no values.
pub fn render_trace_line(label: Option<&str>, values: &Vec<TraceValue>) -> (line: String)
    requires
        label is Some || values@.len() == 0,
    ensures
        line@ == trace_line(label_view(label), values@),
{
    let mut out = String::new();
    match label {
        None => {
            out.append("debug\n");
        },
        Some(l) => {
            out.append("debug: ");
            out.append(l);
            if values.len() == 0 {
                out.append("\n");
            } else {
                out.append(": ");
                push_rendered_values(&mut out, values);
                out.append("\n");
            }
        },
    }
    out
}

} // verus!
