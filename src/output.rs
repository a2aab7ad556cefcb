use vstd::prelude::*;

use crate::record::{opt_view, RawRecord};
use crate::transform::Record;

verus! {

/// The first line of every output file: `RR`, a tab, `annot`.
pub open spec fn header_text() -> Seq<char> {
    seq!['R', 'R', '\t', 'a', 'n', 'n', 'o', 't', '\n']
}

/// The decimal digit of `d < 10`.
pub open spec fn digit_char(d: nat) -> char {
    if d == 0 {
        '0'
    } else if d == 1 {
        '1'
    } else if d == 2 {
        '2'
    } else if d == 3 {
        '3'
    } else if d == 4 {
        '4'
    } else if d == 5 {
        '5'
    } else if d == 6 {
        '6'
    } else if d == 7 {
        '7'
    } else if d == 8 {
        '8'
    } else {
        '9'
    }
}

/// The decimal form of `n`, without leading zeros.
pub open spec fn decimal(n: nat) -> Seq<char>
    decreases n,
{
    if n < 10 {
        seq![digit_char(n)]
    } else {
        decimal(n / 10) + seq![digit_char(n % 10)]
    }
}

/// The output line of a record with interval text `value` and code `code`.
pub open spec fn row_text(value: Seq<char>, code: u8) -> Seq<char> {
    value + seq!['\t'] + decimal(code as nat) + seq!['\n']
}

/// The output lines of the first `n` records; records without a code have none.
pub open spec fn rows_text(values: Seq<String>, records: Seq<Record>, n: nat) -> Seq<char>
    decreases n,
{
    if n == 0 {
        Seq::empty()
    } else {
        let prev = rows_text(values, records, (n - 1) as nat);
        match records[n - 1].code {
            Some(c) => prev + row_text(values[n - 1]@, c),
            None => prev,
        }
    }
}

fn append_digit(s: &mut String, d: u8)
    requires
        d < 10,
    ensures
        final(s)@ == old(s)@ + seq![digit_char(d as nat)],
{
    proof {
        reveal_strlit("0");
        reveal_strlit("1");
        reveal_strlit("2");
        reveal_strlit("3");
        reveal_strlit("4");
        reveal_strlit("5");
        reveal_strlit("6");
        reveal_strlit("7");
        reveal_strlit("8");
        reveal_strlit("9");
    }
    let t = if d == 0 {
        "0"
    } else if d == 1 {
        "1"
    } else if d == 2 {
        "2"
    } else if d == 3 {
        "3"
    } else if d == 4 {
        "4"
    } else if d == 5 {
        "5"
    } else if d == 6 {
        "6"
    } else if d == 7 {
        "7"
    } else if d == 8 {
        "8"
    } else {
        "9"
    };
    s.append(t);
}

fn append_decimal(s: &mut String, n: u8)
    ensures
        final(s)@ == old(s)@ + decimal(n as nat),
{
    if n >= 100 {
        append_digit(s, n / 100);
        append_digit(s, (n / 10) % 10);
        append_digit(s, n % 10);
        assert(decimal(n as nat) =~= seq![
            digit_char((n / 100) as nat),
            digit_char(((n / 10) % 10) as nat),
            digit_char((n % 10) as nat),
        ]) by {
            assert(decimal((n / 100) as nat) == seq![digit_char((n / 100) as nat)]);
            assert(decimal((n / 10) as nat) == decimal((n / 100) as nat) + seq![
                digit_char(((n / 10) % 10) as nat),
            ]);
        }
    } else if n >= 10 {
        append_digit(s, n / 10);
        append_digit(s, n % 10);
        assert(decimal((n / 10) as nat) == seq![digit_char((n / 10) as nat)]);
        assert(decimal(n as nat) =~= seq![digit_char((n / 10) as nat), digit_char((n % 10) as nat)]);
    } else {
        append_digit(s, n);
    }
    assert(final(s)@ =~= old(s)@ + decimal(n as nat));
}

/// The whole text of an output file: the header, then one line for each record
/// that has a code, holding `values[k]`, a tab and the code.
/// `values[k]` is the interval text of `records[k]`.
pub fn render_output(values: &Vec<String>, records: &Vec<Record>) -> (r: String)
    requires
        values@.len() == records@.len(),
    ensures
        r@ == header_text() + rows_text(values@, records@, records@.len()),
{
    proof {
        reveal_strlit("RR\tannot\n");
    }
    let mut out = String::from_str("RR\tannot\n");
    let mut i: usize = 0;
    while i < records.len()
        invariant
            i <= records@.len(),
            values@.len() == records@.len(),
            out@ == header_text() + rows_text(values@, records@, i as nat),
        decreases records@.len() - i,
    {
        match records[i].code {
            Some(c) => {
                let ghost before = out@;
                proof {
                    reveal_strlit("\t");
                    reveal_strlit("\n");
                }
                out.append(values[i].as_str());
                out.append("\t");
                append_decimal(&mut out, c);
                out.append("\n");
                assert("\t"@ =~= seq!['\t']);
                assert("\n"@ =~= seq!['\n']);
                assert(out@ =~= before + values@[i as int]@ + seq!['\t'] + decimal(c as nat) + seq!['\n']);
                assert(out@ =~= header_text() + rows_text(values@, records@, (i + 1) as nat));
            },
            None => {},
        }
        i = i + 1;
    }
    out
}

/// The interval text of record `r`: the formatted number `number` where the
/// record's value is numeric and a number was given, else the value token of
/// its line unchanged.
pub open spec fn value_text(raws: Seq<RawRecord>, r: Record, number: Option<String>) -> Seq<char> {
    match number {
        Some(t) if r.numeric => t@,
        _ => match opt_view(raws[r.line as int].value) {
            Some(v) => v,
            None => Seq::empty(),
        },
    }
}

/// The interval text of each record, given `numbers[k]`, the formatted
/// interval of `records[k]` where it has one.
pub fn value_texts(
    raws: &Vec<RawRecord>,
    records: &Vec<Record>,
    numbers: &Vec<Option<String>>,
) -> (r: Vec<String>)
    requires
        numbers@.len() == records@.len(),
        forall|k: int| 0 <= k < records@.len() ==> (#[trigger] records@[k]).line < raws@.len(),
    ensures
        r@.len() == records@.len(),
        forall|k: int|
            0 <= k < records@.len() ==> (#[trigger] r@[k])@ == value_text(
                raws@,
                records@[k],
                numbers@[k],
            ),
{
    let mut out: Vec<String> = Vec::new();
    let mut k: usize = 0;
    while k < records.len()
        invariant
            k <= records@.len(),
            numbers@.len() == records@.len(),
            forall|m: int| 0 <= m < records@.len() ==> (#[trigger] records@[m]).line < raws@.len(),
            out@.len() == k,
            forall|m: int|
                0 <= m < k ==> (#[trigger] out@[m])@ == value_text(raws@, records@[m], numbers@[m]),
        decreases records@.len() - k,
    {
        let r = records[k];
        let text = match &numbers[k] {
            Some(t) if r.numeric => t.clone(),
            _ => match &raws[r.line].value {
                Some(v) => v.clone(),
                None => String::new(),
            },
        };
        out.push(text);
        k = k + 1;
    }
    out
}

} // verus!
