//! Text of the batch statements: one multi-row statement per batch, with every
//! text value written as an escaped quoted literal.
use vstd::prelude::*;
use crate::escape::{escape_sql_string, escaped, push_char, quoted};

verus! {

/// The decimal digit for `d`, which is below ten.
pub open spec fn digit_char(d: int) -> char {
    seq!['0', '1', '2', '3', '4', '5', '6', '7', '8', '9'][d]
}

/// Decimal digits of a natural number, most significant first, without
/// leading zeros.
pub open spec fn natural_text(n: nat) -> Seq<char>
    decreases n,
{
    if n < 10 {
        seq![digit_char(n as int)]
    } else {
        natural_text(n / 10).push(digit_char((n % 10) as int))
    }
}

/// Decimal text of an integer, with a leading minus sign when it is negative.
pub open spec fn decimal_text(n: int) -> Seq<char> {
    if n < 0 {
        seq!['-'] + natural_text((-n) as nat)
    } else {
        natural_text(n as nat)
    }
}

/// Relies on `i64`'s `Display` (through `to_string`): decimal digits, with a
/// minus sign for a negative value.
#[verifier::external_body]
fn integer_text(n: i64) -> (r: String)
    ensures
        r@ == decimal_text(n as int),
{
    n.to_string()
}

/// Appends the quoted literal that holds `v`.
pub fn push_literal(q: &mut String, v: &str)
    ensures
        final(q)@ == old(q)@ + quoted(v@),
{
    let e = escape_sql_string(v);
    push_char(q, '\'');
    q.append(e.as_str());
    push_char(q, '\'');
    assert(final(q)@ =~= old(q)@ + quoted(v@));
}

/// Appends the decimal text of `n`.
pub fn push_integer(q: &mut String, n: i64)
    ensures
        final(q)@ == old(q)@ + decimal_text(n as int),
{
    let t = integer_text(n);
    q.append(t.as_str());
}

/// Parts joined by commas, in order.
pub open spec fn comma_joined(parts: Seq<Seq<char>>) -> Seq<char>
    decreases parts.len(),
{
    if parts.len() == 0 {
        Seq::empty()
    } else if parts.len() == 1 {
        parts[0]
    } else {
        comma_joined(parts.drop_last()) + seq![','] + parts.last()
    }
}

/// A value that is written into a statement as one parenthesised tuple or one
/// literal.
pub trait SqlValue {
    /// The text that stands for the value in a statement.
    spec fn sql(&self) -> Seq<char>;

    /// Appends the text that stands for the value.
    fn push_sql(&self, q: &mut String)
        ensures
            final(q)@ == old(q)@ + self.sql(),
    ;
}

/// The texts of `values`, in order.
pub open spec fn value_texts<V: SqlValue>(values: Seq<V>) -> Seq<Seq<char>> {
    values.map_values(|v: V| v.sql())
}

/// The texts of `values` joined by commas.
pub open spec fn values_list<V: SqlValue>(values: Seq<V>) -> Seq<char> {
    comma_joined(value_texts(values))
}

/// Appends the texts of `values`, joined by commas.
pub fn push_values_list<V: SqlValue>(q: &mut String, values: &[V])
    ensures
        final(q)@ == old(q)@ + values_list(values@),
{
    let n = values.len();
    let mut i: usize = 0;
    while i < n
        invariant
            n == values@.len(),
            i <= n,
            q@ == old(q)@ + comma_joined(value_texts(values@.take(i as int))),
        decreases n - i,
    {
        let ghost before = q@;
        if i > 0 {
            push_char(q, ',');
        }
        values[i].push_sql(q);
        proof {
            let parts = value_texts(values@.take(i + 1));
            assert(value_texts(values@.take(i as int)) =~= parts.drop_last());
            assert(parts.last() == values@[i as int].sql());
            if i == 0 {
                assert(parts.len() == 1);
                assert(comma_joined(value_texts(values@.take(0))) =~= Seq::<char>::empty());
                assert(q@ =~= old(q)@ + comma_joined(parts));
            } else {
                assert(q@ =~= old(q)@ + comma_joined(parts));
            }
        }
        i = i + 1;
    }
    assert(values@.take(n as int) =~= values@);
}

} // verus!
