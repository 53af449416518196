//! What holds of the address list and of suffix stripping on every input.
use vstd::prelude::*;
use crate::api::models::DnsRecord;
use crate::utils::formatting::{is_listed_address, spec_strip_suffix, strictly_sorted};
use crate::utils::text::{has_suffix, lemma_lex_irreflexive, lemma_lex_total};

verus! {

/// A strictly sorted list holds no text twice.
pub proof fn law_sorted_list_has_no_repeats(v: Seq<Seq<char>>)
    requires
        strictly_sorted(v),
    ensures
        forall|i: int, j: int| 0 <= i < j < v.len() ==> #[trigger] v[i] != #[trigger] v[j],
{
    assert forall|i: int, j: int| 0 <= i < j < v.len() implies #[trigger] v[i] != #[trigger] v[j] by {
        lemma_lex_irreflexive(v[i]);
    }
}

/// Two strictly sorted lists that hold the same texts are the same list.
pub proof fn law_sorted_list_fixed_by_texts(a: Seq<Seq<char>>, b: Seq<Seq<char>>)
    requires
        strictly_sorted(a),
        strictly_sorted(b),
        forall|s: Seq<char>| a.contains(s) <==> b.contains(s),
    ensures
        a == b,
    decreases a.len() + b.len(),
{
    if a.len() == 0 {
        if b.len() > 0 {
            assert(b.contains(b[0]));
        }
        assert(a =~= b);
    } else if b.len() == 0 {
        assert(a.contains(a[0]));
    } else {
        assert(a.contains(a[0]));
        assert(b.contains(b[0]));
        let j = choose|j: int| 0 <= j < b.len() && b[j] == a[0];
        let k = choose|k: int| 0 <= k < a.len() && a[k] == b[0];
        if j > 0 {
            // b[0] comes before a[0]; and a[0] comes before or is b[0]
            assert(lex_lt_pair(b, 0, j));
            if k > 0 {
                assert(lex_lt_pair(a, 0, k));
                lemma_lex_total(a[0], b[0]);
            } else {
                lemma_lex_irreflexive(a[0]);
            }
        }
        assert(a[0] == b[0]);
        let a1 = a.drop_first();
        let b1 = b.drop_first();
        assert forall|s: Seq<char>| a1.contains(s) <==> b1.contains(s) by {
            if a1.contains(s) {
                let p = choose|p: int| 0 <= p < a1.len() && a1[p] == s;
                assert(a[p + 1] == s);
                assert(a.contains(s));
                let q = choose|q: int| 0 <= q < b.len() && b[q] == s;
                assert(lex_lt_pair(a, 0, p + 1));
                if q == 0 {
                    lemma_lex_irreflexive(s);
                }
                assert(b1[q - 1] == s);
            }
            if b1.contains(s) {
                let p = choose|p: int| 0 <= p < b1.len() && b1[p] == s;
                assert(b[p + 1] == s);
                assert(b.contains(s));
                let q = choose|q: int| 0 <= q < a.len() && a[q] == s;
                assert(lex_lt_pair(b, 0, p + 1));
                if q == 0 {
                    lemma_lex_irreflexive(s);
                }
                assert(a1[q - 1] == s);
            }
        }
        assert(strictly_sorted(a1)) by {
            assert forall|x: int, y: int| 0 <= x < y < a1.len() implies crate::utils::text::lex_lt(
                #[trigger] a1[x],
                #[trigger] a1[y],
            ) by {
                assert(lex_lt_pair(a, x + 1, y + 1));
            }
        }
        assert(strictly_sorted(b1)) by {
            assert forall|x: int, y: int| 0 <= x < y < b1.len() implies crate::utils::text::lex_lt(
                #[trigger] b1[x],
                #[trigger] b1[y],
            ) by {
                assert(lex_lt_pair(b, x + 1, y + 1));
            }
        }
        law_sorted_list_fixed_by_texts(a1, b1);
        assert(a =~= seq![a[0]] + a1);
        assert(b =~= seq![b[0]] + b1);
    }
}

/// The entries at `i` and `j` of `v` are in order.
spec fn lex_lt_pair(v: Seq<Seq<char>>, i: int, j: int) -> bool {
    crate::utils::text::lex_lt(v[i], v[j])
}

/// The addresses offered for selection depend only on which addresses the
/// A and AAAA records hold: two lists of records that hold the same
/// addresses, in any order and with any repetitions, give the same list.
pub proof fn law_unique_ips_depend_only_on_addresses(
    records1: Seq<DnsRecord>,
    records2: Seq<DnsRecord>,
    ips1: Seq<Seq<char>>,
    ips2: Seq<Seq<char>>,
)
    requires
        strictly_sorted(ips1),
        forall|s: Seq<char>| ips1.contains(s) <==> is_listed_address(records1, s),
        strictly_sorted(ips2),
        forall|s: Seq<char>| ips2.contains(s) <==> is_listed_address(records2, s),
        forall|s: Seq<char>| is_listed_address(records1, s) <==> is_listed_address(records2, s),
    ensures
        ips1 == ips2,
{
    law_sorted_list_fixed_by_texts(ips1, ips2);
}

/// Two lists that both meet the contract of `extract_unique_ips` for the same
/// records are the same list: the result is fixed by the records, since a
/// strictly sorted list is fixed by the texts it holds.
pub proof fn law_unique_ips_fixed_by_records(
    records: Seq<DnsRecord>,
    ips1: Seq<Seq<char>>,
    ips2: Seq<Seq<char>>,
)
    requires
        strictly_sorted(ips1),
        forall|s: Seq<char>| ips1.contains(s) <==> is_listed_address(records, s),
        strictly_sorted(ips2),
        forall|s: Seq<char>| ips2.contains(s) <==> is_listed_address(records, s),
    ensures
        ips1 == ips2,
{
    law_sorted_list_fixed_by_texts(ips1, ips2);
}

/// Stripping the domain suffix and putting it back gives the name again;
/// a name that does not end with the suffix is left as it is.
pub proof fn law_strip_then_append_restores(name: Seq<char>, suffix: Seq<char>)
    ensures
        has_suffix(name, suffix) ==> spec_strip_suffix(name, suffix) + suffix == name,
        !has_suffix(name, suffix) ==> spec_strip_suffix(name, suffix) == name,
{
    if has_suffix(name, suffix) {
        assert(spec_strip_suffix(name, suffix) + suffix =~= name);
    }
}

} // verus!
