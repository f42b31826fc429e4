//! Which domains of an owner are not subscribed to automatic renewal.
//!
//! The rows come from the database, one for each pairing of a domain with a
//! renewal flow. This module picks the domains to report.

use vstd::prelude::*;
use vstd::string::*;
use vstd::utf8::encode_utf8;

verus! {

/// One row of the renewal report: a domain and whether a renewal flow is
/// enabled for it, in the native token and in another one.
#[derive(Debug)]
pub struct RenewalRow {
    /// The domain's name, if the row has one.
    pub domain: Option<String>,
    /// Whether renewal is enabled; a row that does not say counts as not.
    pub enabled: Option<bool>,
    /// Whether renewal in another token is enabled; a row that does not say
    /// counts as not.
    pub enabled_altcoin: Option<bool>,
}

/// The bytes of `.stark`.
pub open spec fn stark_suffix() -> Seq<u8> {
    seq![0x2eu8, 0x73, 0x74, 0x61, 0x72, 0x6b]
}

/// Whether UTF-8 bytes spell a root domain: a name of at least one
/// character without a dot, followed by `.stark`.
pub open spec fn spec_is_root_domain(name: Seq<u8>) -> bool {
    let stem = name.len() - stark_suffix().len();
    &&& stem > 0
    &&& name.subrange(stem, name.len() as int) == stark_suffix()
    &&& forall|i: int| 0 <= i < stem ==> name[i] != 0x2e
}

/// Whether a flag is set; a flag that is missing is not.
pub open spec fn flag_set(flag: Option<bool>) -> bool {
    flag == Some(true)
}

/// Whether a row's domain is reported: no renewal is enabled for it, and it
/// is a root domain.
pub open spec fn reported(row: RenewalRow) -> bool {
    &&& !flag_set(row.enabled)
    &&& !flag_set(row.enabled_altcoin)
    &&& row.domain matches Some(domain) && spec_is_root_domain(encode_utf8(domain@))
}

/// Whether some row reports the domain `name`.
pub open spec fn offered(rows: Seq<RenewalRow>, name: Seq<char>) -> bool {
    exists|k: int|
        0 <= k < rows.len() && reported(#[trigger] rows[k]) && rows[k].domain.unwrap()@ == name
}

/// Whether a list holds the domain `name`.
pub open spec fn listed(list: Seq<String>, name: Seq<char>) -> bool {
    exists|i: int| 0 <= i < list.len() && (#[trigger] list[i])@ == name
}

/// Whether no domain stands twice in a list.
pub open spec fn distinct(list: Seq<String>) -> bool {
    forall|i: int, j: int| 0 <= i < j < list.len() ==> (#[trigger] list[i])@ != (#[trigger] list[j])@
}

/// Whether a name is a root domain: at least one character, none of them a
/// dot, followed by `.stark`.
pub fn is_root_domain(name: &str) -> (r: bool)
    ensures
        r == spec_is_root_domain(encode_utf8(name@)),
{
    let bytes = name.as_bytes();
    let len = bytes.len();
    if len <= 6 {
        return false;
    }
    let stem = len - 6;
    if !(bytes[stem] == 0x2e && bytes[stem + 1] == 0x73 && bytes[stem + 2] == 0x74 && bytes[stem
        + 3] == 0x61 && bytes[stem + 4] == 0x72 && bytes[stem + 5] == 0x6b) {
        proof {
            let tail = bytes@.subrange(stem as int, len as int);
            assert(tail[0] == bytes@[stem as int]);
            assert(tail[1] == bytes@[stem + 1]);
            assert(tail[2] == bytes@[stem + 2]);
            assert(tail[3] == bytes@[stem + 3]);
            assert(tail[4] == bytes@[stem + 4]);
            assert(tail[5] == bytes@[stem + 5]);
        }
        return false;
    }
    proof {
        assert(bytes@.subrange(stem as int, len as int) =~= stark_suffix());
    }
    let mut i: usize = 0;
    while i < stem
        invariant
            i <= stem,
            stem == len - 6,
            len == bytes@.len(),
            bytes@ == encode_utf8(name@),
            bytes@.subrange(stem as int, len as int) == stark_suffix(),
            forall|j: int| 0 <= j < i ==> bytes@[j] != 0x2e,
        decreases stem - i,
    {
        if bytes[i] == 0x2e {
            return false;
        }
        i += 1;
    }
    true
}

/// Whether a list holds a name.
fn holds(list: &Vec<String>, name: &String) -> (r: bool)
    ensures
        r == listed(list@, name@),
{
    let mut i: usize = 0;
    while i < list.len()
        invariant
            i <= list.len(),
            forall|j: int| 0 <= j < i ==> (#[trigger] list@[j])@ != name@,
        decreases list.len() - i,
    {
        if list[i] == *name {
            return true;
        }
        i += 1;
    }
    false
}

/// The domains to report for the rows of an owner: the root domains for
/// which no renewal is enabled, each once.
pub fn handler(rows: &[RenewalRow]) -> (r: Vec<String>)
    ensures
        distinct(r@),
        forall|name: Seq<char>| listed(r@, name) <==> offered(rows@, name),
{
    let mut domains: Vec<String> = Vec::new();
    let mut k: usize = 0;
    while k < rows.len()
        invariant
            k <= rows.len(),
            distinct(domains@),
            forall|name: Seq<char>|
                listed(domains@, name) <==> offered(rows@.subrange(0, k as int), name),
        decreases rows.len() - k,
    {
        let ghost before = domains@;
        let ghost seen = rows@.subrange(0, k as int);
        let ghost next = rows@.subrange(0, k + 1);
        let row = &rows[k];
        let enabled = match row.enabled {
            Some(flag) => flag,
            None => false,
        };
        let enabled_altcoin = match row.enabled_altcoin {
            Some(flag) => flag,
            None => false,
        };
        let mut added = false;
        if !enabled && !enabled_altcoin {
            if let Some(domain) = &row.domain {
                if is_root_domain(domain.as_str()) && !holds(&domains, domain) {
                    domains.push(domain.clone());
                    added = true;
                }
            }
        }
        proof {
            assert(next[k as int] == rows@[k as int]);
            assert forall|j: int| 0 <= j < k implies next[j] == seen[j] by {}
            assert forall|name: Seq<char>| listed(domains@, name) <==> offered(next, name) by {
                if listed(domains@, name) {
                    let i = choose|i: int| 0 <= i < domains@.len() && (#[trigger] domains@[i])@ == name;
                    if i < before.len() {
                        assert(before[i] == domains@[i]);
                        assert(listed(before, name));
                        let w = choose|w: int|
                            0 <= w < seen.len() && reported(#[trigger] seen[w])
                                && seen[w].domain.unwrap()@ == name;
                        assert(next[w] == seen[w]);
                        assert(offered(next, name));
                    } else {
                        assert(added);
                        assert(reported(next[k as int]));
                        assert(offered(next, name));
                    }
                }
                if offered(next, name) {
                    let w = choose|w: int|
                        0 <= w < next.len() && reported(#[trigger] next[w])
                            && next[w].domain.unwrap()@ == name;
                    if w < k {
                        assert(seen[w] == next[w]);
                        assert(offered(seen, name));
                        assert(listed(before, name));
                        let i = choose|i: int| 0 <= i < before.len() && (#[trigger] before[i])@ == name;
                        assert(domains@[i] == before[i]);
                        assert(listed(domains@, name));
                    } else {
                        if added {
                            assert(domains@[before.len() as int]@ == name);
                        } else {
                            assert(listed(before, name));
                            let i = choose|i: int|
                                0 <= i < before.len() && (#[trigger] before[i])@ == name;
                            assert(domains@[i] == before[i]);
                        }
                        assert(listed(domains@, name));
                    }
                }
            }
            if added {
                assert forall|i: int, j: int| 0 <= i < j < domains@.len() implies (
                #[trigger] domains@[i])@ != (#[trigger] domains@[j])@ by {
                    if j < before.len() {
                        assert(before[i] == domains@[i]);
                        assert(before[j] == domains@[j]);
                    } else {
                        assert(before[i] == domains@[i]);
                        assert(!listed(before, domains@[j]@));
                    }
                }
            } else {
                assert(domains@ == before);
            }
        }
        k += 1;
    }
    proof {
        assert(rows@.subrange(0, rows@.len() as int) =~= rows@);
    }
    domains
}

} // verus!
