use vstd::prelude::*;
use vstd::string::StringExecFns;

use crate::decimal::Decimal;

verus! {

/// Each string in single quotes, followed by a comma.
pub open spec fn quoted_items(s: Seq<String>) -> Seq<char>
    decreases s.len(),
{
    if s.len() == 0 {
        Seq::empty()
    } else {
        quoted_items(s.drop_last()) + "'"@ + s.last()@ + "',"@
    }
}

/// A list literal of quoted strings: `['a','b',]`.
pub open spec fn str_list_text(s: Seq<String>) -> Seq<char> {
    "["@ + quoted_items(s) + "]"@
}

/// Each number's literal, followed by a comma.
pub open spec fn num_items(s: Seq<Decimal>) -> Seq<char>
    decreases s.len(),
{
    if s.len() == 0 {
        Seq::empty()
    } else {
        num_items(s.drop_last()) + s.last().text() + ","@
    }
}

/// A list literal of numbers: `[1,2.5,]`.
pub open spec fn num_list_text(s: Seq<Decimal>) -> Seq<char> {
    "["@ + num_items(s) + "]"@
}

/// Each row as a list literal, followed by a comma.
pub open spec fn rows_text(rows: Seq<Vec<Decimal>>) -> Seq<char>
    decreases rows.len(),
{
    if rows.len() == 0 {
        Seq::empty()
    } else {
        rows_text(rows.drop_last()) + num_list_text(rows.last()@) + ","@
    }
}

/// Every row has as many entries as the first one.
pub open spec fn is_rectangular(rows: Seq<Vec<Decimal>>) -> bool {
    forall|i: int| 0 <= i < rows.len() ==> (#[trigger] rows[i])@.len() == rows[0]@.len()
}

/// The statement that assigns the matrix made of `rows` to `name`.
pub open spec fn array_2d_text(name: Seq<char>, rows: Seq<Vec<Decimal>>) -> Seq<char> {
    name + "=np.array(["@ + rows_text(rows) + "],dtype=float)\n"@
}

/// Appends each number's literal followed by a comma.
fn push_num_items(buf: &mut String, data: &[Decimal])
    ensures
        final(buf)@ == old(buf)@ + num_items(data@),
{
    let mut i: usize = 0;
    while i < data.len()
        invariant
            i <= data@.len(),
            buf@ == old(buf)@ + num_items(data@.subrange(0, i as int)),
        decreases data@.len() - i,
    {
        data[i].write_to(buf);
        buf.append(",");
        assert(data@.subrange(0, i + 1).drop_last() =~= data@.subrange(0, i as int));
        i = i + 1;
    }
    assert(data@.subrange(0, data@.len() as int) =~= data@);
}

/// Appends the list literal of `data`.
fn push_num_list(buf: &mut String, data: &[Decimal])
    ensures
        final(buf)@ == old(buf)@ + num_list_text(data@),
{
    buf.append("[");
    push_num_items(buf, data);
    buf.append("]");
    assert(buf@ =~= old(buf)@ + num_list_text(data@));
}

/// The list literal of quoted strings.
pub fn vec_to_py_list_str(data: &[String]) -> (r: String)
    ensures
        r@ == str_list_text(data@),
{
    let mut buf = String::new();
    buf.append("[");
    let mut i: usize = 0;
    while i < data.len()
        invariant
            i <= data@.len(),
            buf@ == "["@ + quoted_items(data@.subrange(0, i as int)),
        decreases data@.len() - i,
    {
        buf.append("'");
        buf.append(data[i].as_str());
        buf.append("',");
        assert(data@.subrange(0, i + 1).drop_last() =~= data@.subrange(0, i as int));
        i = i + 1;
    }
    assert(data@.subrange(0, data@.len() as int) =~= data@);
    buf.append("]");
    buf
}

/// The list literal of numbers.
pub fn vec_to_py_list_num(data: &[Decimal]) -> (r: String)
    ensures
        r@ == num_list_text(data@),
{
    let mut buf = String::new();
    push_num_list(&mut buf, data);
    assert(buf@ =~= num_list_text(data@));
    buf
}

/// Whether every row has as many entries as the first one.
pub fn rectangular(rows: &[Vec<Decimal>]) -> (r: bool)
    ensures
        r == is_rectangular(rows@),
{
    if rows.len() == 0 {
        return true;
    }
    let ncol = rows[0].len();
    let mut i: usize = 0;
    while i < rows.len()
        invariant
            i <= rows@.len(),
            rows@.len() > 0,
            ncol == rows@[0]@.len(),
            forall|j: int| 0 <= j < i ==> (#[trigger] rows@[j])@.len() == ncol,
        decreases rows@.len() - i,
    {
        if rows[i].len() != ncol {
            return false;
        }
        i = i + 1;
    }
    true
}

/// Appends the statement that assigns the matrix made of `rows` to `name`; a grid whose rows
/// differ in length is refused and leaves `buf` as it was.
pub fn vec_vec_to_numpy_array_2d(buf: &mut String, name: &str, rows: &[Vec<Decimal>]) -> (r: Result<(), &'static str>)
    ensures
        r.is_ok() == is_rectangular(rows@),
        r.is_ok() ==> final(buf)@ == old(buf)@ + array_2d_text(name@, rows@),
        r.is_err() ==> final(buf)@ == old(buf)@,
{
    if !rectangular(rows) {
        return Err("all rows of a grid must have the same length");
    }
    buf.append(name);
    buf.append("=np.array([");
    let mut i: usize = 0;
    while i < rows.len()
        invariant
            i <= rows@.len(),
            buf@ == old(buf)@ + name@ + "=np.array(["@ + rows_text(rows@.subrange(0, i as int)),
        decreases rows@.len() - i,
    {
        push_num_list(buf, rows[i].as_slice());
        buf.append(",");
        assert(rows@.subrange(0, i + 1).drop_last() =~= rows@.subrange(0, i as int));
        i = i + 1;
    }
    assert(rows@.subrange(0, rows@.len() as int) =~= rows@);
    buf.append("],dtype=float)\n");
    assert(buf@ =~= old(buf)@ + array_2d_text(name@, rows@));
    Ok(())
}

} // verus!
