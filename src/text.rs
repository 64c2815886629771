//! Small string helpers shared by the configuration types.
use vstd::prelude::*;
use vstd::string::StringExecFns;

verus! {

/// `s` without leading and trailing white space, as `str::trim` gives it.
pub uninterp spec fn trimmed_of(s: Seq<char>) -> Seq<char>;

/// Relies on `str::trim`: the result depends on the characters alone.
#[verifier::external_body]
pub(crate) fn trim(s: &str) -> (r: &str)
    ensures
        r@ == trimmed_of(s@),
{
    s.trim()
}

/// The items separated by commas.
pub open spec fn join_with_commas(items: Seq<Seq<char>>) -> Seq<char>
    decreases items.len(),
{
    if items.len() == 0 {
        Seq::empty()
    } else if items.len() == 1 {
        items[0]
    } else {
        join_with_commas(items.drop_last()) + ","@ + items.last()
    }
}

/// The strings of `items` separated by commas.
pub(crate) fn join_commas(items: &Vec<String>) -> (r: String)
    ensures
        r@ == join_with_commas(items@.map_values(|s: String| s@)),
{
    let mut r = String::new();
    let mut i: usize = 0;
    while i < items.len()
        invariant
            i <= items@.len(),
            r@ == join_with_commas(items@.take(i as int).map_values(|s: String| s@)),
        decreases items@.len() - i,
    {
        let ghost before = items@.take(i as int).map_values(|s: String| s@);
        let ghost after = items@.take(i + 1).map_values(|s: String| s@);
        assert(after.drop_last() =~= before);
        assert(after.last() == items@[i as int]@);
        if i > 0 {
            r.append(",");
        } else {
            assert(after =~= seq![items@[0]@]);
        }
        r.append(items[i].as_str());
        i = i + 1;
    }
    assert(items@.take(items@.len() as int) =~= items@);
    r
}

/// Whether two strings hold the same characters.
pub(crate) fn str_eq(a: &str, b: &str) -> (r: bool)
    ensures
        r == (a@ == b@),
{
    a.to_owned() == b.to_owned()
}

} // verus!
