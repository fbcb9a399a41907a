//! Small helpers for writing parameters.

use vstd::prelude::*;
use vstd::string::*;

verus! {

/// A string between double quotes.
pub open spec fn quoted(s: Seq<char>) -> Seq<char> {
    seq!['"'] + s + seq!['"']
}

/// Quoted strings, separated by commas.
pub open spec fn quoted_items(list: Seq<Seq<char>>) -> Seq<char>
    decreases list.len(),
{
    if list.len() == 0 {
        Seq::<char>::empty()
    } else if list.len() == 1 {
        quoted(list[0])
    } else {
        quoted_items(list.drop_last()) + seq![','] + quoted(list.last())
    }
}

/// A list of strings as the exchange takes it in a parameter: the quoted
/// strings between square brackets. An empty list is written as a lone
/// closing bracket.
pub open spec fn list_text(list: Seq<Seq<char>>) -> Seq<char> {
    if list.len() == 0 {
        seq![']']
    } else {
        seq!['['] + quoted_items(list) + seq![']']
    }
}

/// The texts of a sequence of strings.
pub open spec fn texts(list: Seq<String>) -> Seq<Seq<char>> {
    list.map_values(|s: String| s@)
}

/// Writes a list of symbols as one parameter value, such as
/// `["BTCUSDT","BNBBTC"]`.
pub fn vec_strings_to_string(list: &[String]) -> (buf: String)
    ensures
        buf@ == list_text(texts(list@)),
{
    let mut buf = String::new();
    let n = list.len();
    if n == 0 {
        buf.append("]");
        proof {
            reveal_strlit("]");
            assert(buf@ =~= seq![']']);
        }
        return buf;
    }
    buf.append("[");
    proof {
        reveal_strlit("[");
        reveal_strlit("]");
        reveal_strlit("\"");
        reveal_strlit(",");
        assert(buf@ =~= seq!['['] + quoted_items(texts(list@).take(0)));
    }
    let mut i: usize = 0;
    while i < n
        invariant
            i <= n,
            n == list@.len(),
            buf@ == seq!['['] + quoted_items(texts(list@).take(i as int)),
            "\""@ == seq!['"'],
            ","@ == seq![','],
        decreases n - i,
    {
        let ghost before = texts(list@).take(i as int);
        let ghost after = texts(list@).take(i + 1);
        if i > 0 {
            buf.append(",");
        }
        buf.append("\"");
        buf.append(list[i].as_str());
        buf.append("\"");
        proof {
            assert(after.drop_last() =~= before);
            assert(after.last() == list@[i as int]@);
            if i == 0 {
                assert(before.len() == 0);
                assert(buf@ =~= seq!['['] + quoted(list@[0]@));
            } else {
                assert(buf@ =~= seq!['['] + (quoted_items(before) + seq![','] + quoted(
                    after.last(),
                )));
            }
        }
        i = i + 1;
    }
    buf.append("]");
    proof {
        assert(texts(list@).take(n as int) =~= texts(list@));
    }
    buf
}

} // verus!
